//! The executor of requests: it sends each query to the reader or the
//! writer, and feeds the result of a write into the read that depends on it.

use crate::error::SqlError;
use crate::read_ast::{ReadQuery, ReadQueryResult, RecordQuery};
use crate::read_executor::{resolves, ManagedDatabaseReader, ReadQueryExecutor};
use crate::transaction::RawJson;
use crate::values::{GraphqlId, PrismaValue};
use crate::write_ast::{Identifier, RecordFinder, RootWriteQuery, WriteQueryResult};
use vstd::prelude::*;
use vstd::string::StringExecFns;

verus! {

/// What a connector offers for writing. Nothing is known of what the
/// methods give: they change the database.
pub trait UnmanagedDatabaseWriter {
    /// Runs a raw SQL string and gives the result back.
    fn execute_raw(&self, db_name: String, query: String) -> Result<RawJson, SqlError>;

    /// Runs the write and all writes nested in it, and gives back the
    /// result of the write at the root.
    fn execute(&self, db_name: String, write_query: RootWriteQuery) -> Result<
        WriteQueryResult,
        SqlError,
    >;
}

/// Writes through a connector into one database.
pub struct WriteQueryExecutor<W: UnmanagedDatabaseWriter> {
    pub db_name: String,
    pub write_executor: W,
}

impl<W: UnmanagedDatabaseWriter> WriteQueryExecutor<W> {
    /// Runs the write in the database of this executor.
    pub fn execute(&self, write_query: RootWriteQuery) -> Result<WriteQueryResult, SqlError> {
        self.write_executor.execute(self.db_name.clone(), write_query)
    }
}

/// The id field of a model, by which a dependent read finds the record
/// that a write gave.
#[derive(Clone, Debug, PartialEq)]
pub struct ModelId {
    pub model: String,
    pub id_field: String,
}

/// A query: a read or a write.
#[derive(Debug, PartialEq)]
pub enum Query {
    Read(ReadQuery),
    Write(RootWriteQuery),
}

/// The type that a result is serialised as, by name.
#[derive(Clone, Debug, PartialEq)]
pub struct OutputType {
    pub name: String,
}

/// How the result of a query becomes the response: it is serialised, or
/// it seeds the read that follows.
#[derive(Debug, PartialEq)]
pub enum ResultResolutionStrategy {
    Serialize(OutputType),
    Dependent(Box<QueryPair>),
}

/// A query with the way its result becomes the response.
#[derive(Debug, PartialEq)]
pub struct QueryPair {
    pub query: Query,
    pub strategy: ResultResolutionStrategy,
    /// The model that a write works on, where it works on one.
    pub model: Option<ModelId>,
}

/// The result of a query with the type that it is serialised as.
#[derive(Debug, PartialEq)]
pub enum ResultPair {
    Read(ReadQueryResult, OutputType),
    Write(WriteQueryResult, OutputType),
}

/// Why a request could not be executed.
#[derive(Clone, Debug, PartialEq)]
pub enum CoreError {
    /// The connector failed.
    ConnectorError(SqlError),
    /// A result could not be turned into what the next step needs.
    ConversionError(String),
    /// The request asks for what this executor does not do.
    Unsupported(String),
}

impl CoreError {
    /// Whether this is a failed conversion with the given text.
    pub open spec fn is_conversion(&self, message: Seq<char>) -> bool {
        self matches CoreError::ConversionError(m) && m@ == message
    }

    /// Whether this is a refusal with the given text.
    pub open spec fn is_unsupported(&self, message: Seq<char>) -> bool {
        self matches CoreError::Unsupported(m) && m@ == message
    }
}

/// What `to_record_finder` gives: the finder of the record by its id, for
/// a result that holds an id; a failure for any other.
pub open spec fn is_record_finder(
    result: &WriteQueryResult,
    model: &ModelId,
    r: Result<RecordFinder, CoreError>,
) -> bool {
    match result.identifier {
        Identifier::Id(id) => r == Ok::<RecordFinder, CoreError>(
            RecordFinder {
                model: model.model,
                field: model.id_field,
                value: PrismaValue::GraphqlId(id),
            },
        ),
        _ => r matches Err(e) && e.is_conversion("The write gave no id to find the record by"@),
    }
}

/// The finder of the record that a write gave, by its id.
pub fn to_record_finder(result: &WriteQueryResult, model: &ModelId) -> (r: Result<
    RecordFinder,
    CoreError,
>)
    ensures
        is_record_finder(result, model, r),
{
    match &result.identifier {
        Identifier::Id(id) => Ok(
            RecordFinder {
                model: model.model.clone(),
                field: model.id_field.clone(),
                value: PrismaValue::GraphqlId(id.duplicate()),
            },
        ),
        _ => Err(
            CoreError::ConversionError(
                String::from_str("The write gave no id to find the record by"),
            ),
        ),
    }
}

/// The read of one record, made to find its record by the given finder.
pub fn seed(query: RecordQuery, finder: RecordFinder) -> (r: RecordQuery)
    ensures
        r == (RecordQuery { record_finder: Some(finder), ..query }),
{
    let RecordQuery { name, alias, record_finder: _, selected_fields, nested, selection_order } =
        query;
    RecordQuery { name, alias, record_finder: Some(finder), selected_fields, nested, selection_order }
}

/// Whether a pair is the read of one record whose result is serialised.
pub open spec fn is_record_read(pair: &QueryPair) -> bool {
    &&& pair.query matches Query::Read(q)
    &&& q is RecordQuery
    &&& pair.strategy is Serialize
}

/// Whether a pair can be executed as far as its shape goes: a read is
/// serialised; a write is serialised, or is followed by the read of one
/// record, which is serialised, and names its model.
pub open spec fn is_executable(pair: &QueryPair) -> bool {
    match pair.query {
        Query::Read(_) => pair.strategy is Serialize,
        Query::Write(_) => match pair.strategy {
            ResultResolutionStrategy::Serialize(_) => true,
            ResultResolutionStrategy::Dependent(next) => pair.model is Some && is_record_read(
                &next,
            ),
        },
    }
}

/// Whether `e` is the refusal of what follows a write, where that is not
/// the read of one record whose result is serialised: only the read of one
/// record can follow, and nothing can follow that read in turn.
pub open spec fn is_dependent_refusal(next: &QueryPair, e: &CoreError) -> bool {
    if next.query matches Query::Read(ReadQuery::RecordQuery(_)) {
        next.strategy is Dependent && e.is_unsupported(
            "A read cannot be followed by a dependent query"@,
        )
    } else {
        e.is_unsupported("Only the read of one record can depend on a write"@)
    }
}

/// Whether `e` is the refusal of a pair that cannot be executed: a read
/// that something depends on; a write that a read depends on without
/// naming its model; a write followed by what cannot follow it.
pub open spec fn is_refusal(pair: &QueryPair, e: &CoreError) -> bool {
    match (pair.query, pair.strategy) {
        (Query::Read(_), ResultResolutionStrategy::Dependent(_)) => e.is_unsupported(
            "A read cannot be followed by a dependent query"@,
        ),
        (Query::Write(_), ResultResolutionStrategy::Dependent(next)) => match pair.model {
            None => e.is_conversion("Model required for dependent query execution"@),
            Some(_) => !is_record_read(&next) && is_dependent_refusal(&next, e),
        },
        _ => false,
    }
}

/// Whether `e` is a failure that the execution of a pair can end in once
/// reader or writer have been asked: the failure of the connector, or, for
/// a read that depends on a write, that the write gave no id.
pub open spec fn is_execution_failure(pair: &QueryPair, e: &CoreError) -> bool {
    ||| e is ConnectorError
    ||| (pair.query is Write && pair.strategy is Dependent && e.is_conversion(
        "The write gave no id to find the record by"@,
    ))
}

/// Whether `e` is a failure that the execution of a pair can end in: its
/// refusal where it cannot be executed, and else a failure that comes once
/// reader or writer have been asked.
pub open spec fn failure_of(pair: &QueryPair, e: &CoreError) -> bool {
    if is_executable(pair) {
        is_execution_failure(pair, e)
    } else {
        is_refusal(pair, e)
    }
}

/// The read of one record that finds its record by the id field of the
/// model.
pub open spec fn seeded(query: &RecordQuery, model: &ModelId, id: GraphqlId) -> RecordQuery {
    RecordQuery {
        record_finder: Some(
            RecordFinder {
                model: model.model,
                field: model.id_field,
                value: PrismaValue::GraphqlId(id),
            },
        ),
        ..*query
    }
}

/// Whether a result answers the read that depends on a write: the pair is
/// the read of one record whose result is serialised, and the result is a
/// full answer to that read, seeded with an id of the model.
pub open spec fn answers_dependent(next: &QueryPair, model: &ModelId, pair: &ResultPair) -> bool {
    &&& next.query matches Query::Read(ReadQuery::RecordQuery(rq))
    &&& next.strategy matches ResultResolutionStrategy::Serialize(typ)
    &&& pair matches ResultPair::Read(res, t)
    &&& t == typ
    &&& exists|id: GraphqlId| resolves(&ReadQuery::RecordQuery(#[trigger] seeded(&rq, model, id)), &res)
}

/// Whether a result answers its query: a read has a full answer; a write
/// that is serialised has the result of a write; a write that a read
/// depends on has the answer of that read. Each is serialised as the type
/// that the request names.
pub open spec fn is_answer(query: &QueryPair, pair: &ResultPair) -> bool {
    match (query.query, query.strategy) {
        (Query::Read(read), ResultResolutionStrategy::Serialize(typ)) => pair matches ResultPair::Read(
            res,
            t,
        ) && t == typ && resolves(&read, &res),
        (Query::Write(_), ResultResolutionStrategy::Serialize(typ)) => pair matches ResultPair::Write(
            _,
            t,
        ) && t == typ,
        (Query::Write(_), ResultResolutionStrategy::Dependent(next)) => query.model matches Some(m)
            && answers_dependent(&next, &m, pair),
        _ => false,
    }
}

/// The central executor of queries.
pub struct QueryExecutor<R: ManagedDatabaseReader, W: UnmanagedDatabaseWriter> {
    pub primary_connector: &'static str,
    pub read_executor: ReadQueryExecutor<R>,
    pub write_executor: WriteQueryExecutor<W>,
}

impl<R: ManagedDatabaseReader, W: UnmanagedDatabaseWriter> QueryExecutor<R, W> {
    /// An executor that reads and writes through the given executors.
    pub fn new(
        primary_connector: &'static str,
        read_executor: ReadQueryExecutor<R>,
        write_executor: WriteQueryExecutor<W>,
    ) -> (r: Self)
        ensures
            r.primary_connector == primary_connector,
            r.read_executor == read_executor,
            r.write_executor == write_executor,
    {
        QueryExecutor { primary_connector, read_executor, write_executor }
    }

    /// The name of the connector that the executor works with.
    pub fn primary_connector(&self) -> (r: &'static str)
        ensures
            r == self.primary_connector,
    {
        self.primary_connector
    }

    /// The name of the database that the executor writes to.
    pub fn db_name(&self) -> (r: String)
        ensures
            r == self.write_executor.db_name,
    {
        self.write_executor.db_name.clone()
    }

    /// Executes the queries in their order. The first failure ends the run
    /// and is its result; without queries there is nothing to do.
    pub fn execute_queries(&self, queries: Vec<QueryPair>) -> (r: Result<Vec<ResultPair>, CoreError>)
        ensures
            r matches Ok(v) ==> v@.len() == queries@.len() && forall|i: int|
                0 <= i < v@.len() ==> is_answer(&queries@[i], #[trigger] &v@[i]),
            queries@.len() == 0 ==> r is Ok,
            (exists|i: int| 0 <= i < queries@.len() && !is_executable(&queries@[i])) ==> r is Err,
            r matches Err(e) ==> exists|i: int|
                0 <= i < queries@.len() && (forall|j: int|
                    0 <= j < i ==> is_executable(&queries@[j])) && failure_of(
                    #[trigger] &queries@[i],
                    &e,
                ),
    {
        let ghost all = queries@;
        let mut rest = queries;
        let mut result: Vec<ResultPair> = Vec::new();
        let ghost mut done: int = 0;
        while rest.len() > 0
            invariant
                all == queries@,
                0 <= done <= all.len(),
                rest@ == all.skip(done),
                result@.len() == done,
                forall|i: int| 0 <= i < done ==> is_executable(#[trigger] &all[i]),
                forall|i: int| 0 <= i < done ==> is_answer(&all[i], #[trigger] &result@[i]),
            decreases rest@.len(),
        {
            let query = rest.remove(0);
            match self.execute_query(query) {
                Ok(r) => {
                    result.push(r);
                },
                Err(e) => {
                    assert(failure_of(&all[done], &e));
                    return Err(e);
                },
            }
            proof {
                done = done + 1;
            }
        }
        Ok(result)
    }

    /// Executes one query: a read through the reader, a write through the
    /// writer. A pair that cannot be executed is refused before either is
    /// asked.
    pub fn execute_query(&self, query: QueryPair) -> (r: Result<ResultPair, CoreError>)
        ensures
            r matches Ok(pair) ==> is_answer(&query, &pair),
            !is_executable(&query) ==> r is Err,
            r matches Err(e) ==> failure_of(&query, &e),
    {
        let QueryPair { query: q, strategy, model } = query;
        match q {
            Query::Read(read) => self.execute_read(read, strategy),
            Query::Write(write) => self.execute_write(write, strategy, model),
        }
    }

    /// Executes a read. Its result can only be serialised.
    pub fn execute_read(&self, read: ReadQuery, strategy: ResultResolutionStrategy) -> (r: Result<
        ResultPair,
        CoreError,
    >)
        ensures
            strategy is Dependent ==> (r matches Err(e) && e.is_unsupported(
                "A read cannot be followed by a dependent query"@,
            )),
            r matches Ok(pair) ==> (pair matches ResultPair::Read(res, typ) && resolves(&read, &res)
                && strategy == ResultResolutionStrategy::Serialize(typ)),
            (strategy is Serialize && r is Err) ==> r->Err_0 is ConnectorError,
    {
        match strategy {
            ResultResolutionStrategy::Serialize(typ) => {
                let ids: Vec<GraphqlId> = Vec::new();
                match self.read_executor.execute(read, &ids) {
                    Ok(query_result) => Ok(ResultPair::Read(query_result, typ)),
                    Err(e) => Err(CoreError::ConnectorError(e)),
                }
            },
            ResultResolutionStrategy::Dependent(_) => Err(
                CoreError::Unsupported(
                    String::from_str("A read cannot be followed by a dependent query"),
                ),
            ),
        }
    }

    /// Executes a write. Its result is serialised, or it seeds the read
    /// that depends on it; then the model of the write must be known.
    pub fn execute_write(
        &self,
        write: RootWriteQuery,
        strategy: ResultResolutionStrategy,
        model_opt: Option<ModelId>,
    ) -> (r: Result<ResultPair, CoreError>)
        ensures
            (strategy is Dependent && model_opt is None) ==> (r matches Err(e) && e.is_conversion(
                "Model required for dependent query execution"@,
            )),
            (strategy matches ResultResolutionStrategy::Dependent(next) && !is_record_read(&next))
                ==> r is Err,
            r matches Ok(pair) ==> is_answer(
                &QueryPair { query: Query::Write(write), strategy, model: model_opt },
                &pair,
            ),
            r matches Err(e) ==> failure_of(
                &QueryPair { query: Query::Write(write), strategy, model: model_opt },
                &e,
            ),
    {
        match strategy {
            ResultResolutionStrategy::Serialize(typ) => {
                match self.write_executor.execute(write) {
                    Ok(result) => Ok(ResultPair::Write(result, typ)),
                    Err(e) => Err(CoreError::ConnectorError(e)),
                }
            },
            ResultResolutionStrategy::Dependent(dependent_pair) => match model_opt {
                Some(model) => self.execute_dependent(write, *dependent_pair, model),
                None => Err(
                    CoreError::ConversionError(
                        String::from_str("Model required for dependent query execution"),
                    ),
                ),
            },
        }
    }

    /// Executes a write and then the read of the record that it gave: the
    /// read finds the record by the id in the result of the write. What is
    /// no read of one record, or is followed by another query, is refused
    /// before the write.
    pub fn execute_dependent(&self, write: RootWriteQuery, dependent_pair: QueryPair, model: ModelId) -> (r:
        Result<ResultPair, CoreError>)
        ensures
            !is_record_read(&dependent_pair) ==> (r matches Err(e) && is_dependent_refusal(
                &dependent_pair,
                &e,
            )),
            r matches Ok(pair) ==> answers_dependent(&dependent_pair, &model, &pair),
            (is_record_read(&dependent_pair) && r is Err) ==> (r->Err_0 is ConnectorError
                || r->Err_0.is_conversion("The write gave no id to find the record by"@)),
    {
        let QueryPair { query, strategy, model: _ } = dependent_pair;
        match query {
            Query::Read(ReadQuery::RecordQuery(rq)) => {
                if let ResultResolutionStrategy::Dependent(_) = &strategy {
                    return Err(
                        CoreError::Unsupported(
                            String::from_str("A read cannot be followed by a dependent query"),
                        ),
                    );
                }
                let result = match self.write_executor.execute(write) {
                    Ok(r) => r,
                    Err(e) => {
                        return Err(CoreError::ConnectorError(e));
                    },
                };
                let finder = match to_record_finder(&result, &model) {
                    Ok(f) => f,
                    Err(e) => {
                        return Err(e);
                    },
                };
                let ghost id = result.identifier->Id_0;
                let r = self.execute_read(ReadQuery::RecordQuery(seed(rq, finder)), strategy);
                proof {
                    if r is Ok {
                        let res = r->Ok_0->Read_0;
                        assert(resolves(&ReadQuery::RecordQuery(seeded(&rq, &model, id)), &res));
                    }
                }
                r
            },
            _ => Err(
                CoreError::Unsupported(
                    String::from_str("Only the read of one record can depend on a write"),
                ),
            ),
        }
    }
}

} // verus!
