//! Resolves the tree of a read request: each node is fetched, the values
//! of its scalar lists are loaded for the records that came back, and the
//! queries nested in it are resolved for the ids of those records.

use crate::error::SqlError;
use crate::read_ast::{
    is_collected_id, AggregateRecordsQuery, ListValues, ManyRecords, ManyRecordsQuery, QueryArguments,
    ReadQuery, ReadQueryResult, RecordQuery, RecordSelection, RelatedRecordsQuery, ResultContent,
    ScalarFieldRef, ScalarListValues, SelectedFields,
};
use crate::seqs::{concat_range, first_index, lemma_first_index, lemma_first_index_unique};
use crate::text::same_text;
use crate::values::{GraphqlId, SingleRecord};
use crate::write_ast::{RecordFinder, RelationFieldRef};
use vstd::prelude::*;

verus! {

/// What a connector offers for reading. Nothing is known of what the
/// methods give: they ask the database. Records are asked for with a
/// selection that holds the id field of the model.
pub trait ManagedDatabaseReader {
    /// Finds one record.
    fn get_single_record(
        &self,
        record_finder: &RecordFinder,
        selected_fields: &SelectedFields,
    ) -> Result<Option<SingleRecord>, SqlError>
        requires
            selects_scalar(selected_fields, selected_fields.id_field.name@),
    ;

    /// Filters the records of a model.
    fn get_many_records(
        &self,
        model: &str,
        query_arguments: &QueryArguments,
        selected_fields: &SelectedFields,
    ) -> Result<ManyRecords, SqlError>
        requires
            selects_scalar(selected_fields, selected_fields.id_field.name@),
    ;

    /// Filters the records related to the parents.
    fn get_related_records(
        &self,
        from_field: &RelationFieldRef,
        from_record_ids: &Vec<GraphqlId>,
        query_arguments: &QueryArguments,
        selected_fields: &SelectedFields,
    ) -> Result<ManyRecords, SqlError>
        requires
            selects_scalar(selected_fields, selected_fields.id_field.name@),
    ;

    /// Fetches the values of a scalar list for the records.
    fn get_scalar_list_values_by_record_ids(
        &self,
        list_field: &ScalarFieldRef,
        record_ids: &Vec<GraphqlId>,
    ) -> Result<Vec<ScalarListValues>, SqlError>;

    /// Counts the records of a model.
    fn count_by_model(&self, model: &str, query_arguments: &QueryArguments) -> Result<
        usize,
        SqlError,
    >;

    /// Counts the rows of a table.
    fn count_by_table(&self, database: &str, table: &str) -> Result<usize, SqlError>;
}

/// Whether the selection holds the scalar field called `name`.
pub open spec fn selects_scalar(fields: &SelectedFields, name: Seq<char>) -> bool {
    first_index(fields.scalar@.len() as int, |i: int| fields.scalar@[i].name@ == name)
        < fields.scalar@.len()
}

/// The scalar fields of a selection with the id field among them: it is
/// added at the end unless it is there.
pub open spec fn with_id_field(fields: &SelectedFields) -> Seq<ScalarFieldRef> {
    if selects_scalar(fields, fields.id_field.name@) {
        fields.scalar@
    } else {
        fields.scalar@.push(fields.id_field)
    }
}

/// The scalar list fields among the first `n` scalar fields, in their order.
pub open spec fn scalar_lists_upto(scalar: Seq<ScalarFieldRef>, n: int) -> Seq<ScalarFieldRef> {
    concat_range(
        n,
        |i: int|
            if scalar[i].is_list {
                seq![scalar[i]]
            } else {
                Seq::empty()
            },
    )
}

/// The scalar list fields of a selection, in their order.
pub open spec fn scalar_lists_of(scalar: Seq<ScalarFieldRef>) -> Seq<ScalarFieldRef> {
    scalar_lists_upto(scalar, scalar.len() as int)
}

impl ReadQuery {
    /// The name of the query.
    pub open spec fn name_of(&self) -> String {
        match self {
            ReadQuery::RecordQuery(q) => q.name,
            ReadQuery::ManyRecordsQuery(q) => q.name,
            ReadQuery::RelatedRecordsQuery(q) => q.name,
            ReadQuery::AggregateRecordsQuery(q) => q.name,
        }
    }

    /// The alias of the query.
    pub open spec fn alias_of(&self) -> Option<String> {
        match self {
            ReadQuery::RecordQuery(q) => q.alias,
            ReadQuery::ManyRecordsQuery(q) => q.alias,
            ReadQuery::RelatedRecordsQuery(q) => q.alias,
            ReadQuery::AggregateRecordsQuery(q) => q.alias,
        }
    }

    /// The names of the selected fields in the order of the request. A
    /// count selects none.
    pub open spec fn selection_order_of(&self) -> Seq<String> {
        match self {
            ReadQuery::RecordQuery(q) => q.selection_order@,
            ReadQuery::ManyRecordsQuery(q) => q.selection_order@,
            ReadQuery::RelatedRecordsQuery(q) => q.selection_order@,
            ReadQuery::AggregateRecordsQuery(q) => Seq::empty(),
        }
    }

    /// The name of the id field of the records that the query reads.
    pub open spec fn id_field_of(&self) -> String {
        match self {
            ReadQuery::RecordQuery(q) => q.selected_fields.id_field.name,
            ReadQuery::ManyRecordsQuery(q) => q.selected_fields.id_field.name,
            ReadQuery::RelatedRecordsQuery(q) => q.selected_fields.id_field.name,
            ReadQuery::AggregateRecordsQuery(q) => q.name,
        }
    }
}

/// Whether a result has the shape that its query asks for: the name and
/// alias of the query; for a count a number; else a selection that names
/// the selected fields in the order of the request and the id field of
/// the model.
pub open spec fn answers(query: &ReadQuery, res: &ReadQueryResult) -> bool {
    &&& res.name == query.name_of()
    &&& res.alias == query.alias_of()
    &&& match res.content {
        ResultContent::Count(_) => query is AggregateRecordsQuery,
        ResultContent::RecordSelection(sel) => !(query is AggregateRecordsQuery) && sel.fields@
            == query.selection_order_of() && sel.id_field@ == query.id_field_of()@,
    }
}

/// Whether the lists of a selection are those of the scalar list fields
/// that the query selects, one for each field and in their order.
pub open spec fn lists_answer(fields: &SelectedFields, lists: Seq<ListValues>) -> bool {
    let wanted = scalar_lists_of(with_id_field(fields));
    &&& lists.len() == wanted.len()
    &&& forall|i: int| 0 <= i < lists.len() ==> (#[trigger] lists[i]).field == wanted[i].name
}

/// Whether what is nested in a result answers what is nested in its
/// query, one by one and all the way down.
pub open spec fn nested_answer(queries: Seq<ReadQuery>, results: Seq<ReadQueryResult>) -> bool
    decreases queries,
{
    &&& results.len() == queries.len()
    &&& forall|i: int|
        0 <= i < queries.len() ==> resolves(&(#[trigger] queries[i]), &results[i])
}

/// Whether a result is a full answer to its query. It has the shape that
/// the query asks for. Every record in it has an id. Its lists are those
/// of the selected scalar list fields, and what is nested in it answers
/// what is nested in the query; only the read of one record that found
/// none has no records, no lists and nothing nested.
pub open spec fn resolves(query: &ReadQuery, res: &ReadQueryResult) -> bool
    decreases query,
{
    &&& answers(query, res)
    &&& match (query, res.content) {
        (ReadQuery::RecordQuery(q), ResultContent::RecordSelection(sel)) => {
            ||| (sel.scalars.records@.len() == 0 && sel.nested@.len() == 0 && sel.lists@.len() == 0)
            ||| (sel.scalars.records@.len() == 1 && sel.scalars.first_without_id(sel.id_field@)
                == 1 && lists_answer(&q.selected_fields, sel.lists@) && nested_answer(
                q.nested@,
                sel.nested@,
            ))
        },
        (ReadQuery::ManyRecordsQuery(q), ResultContent::RecordSelection(sel)) => {
            &&& sel.query_arguments == q.args
            &&& sel.scalars.first_without_id(sel.id_field@) == sel.scalars.records@.len()
            &&& lists_answer(&q.selected_fields, sel.lists@)
            &&& nested_answer(q.nested@, sel.nested@)
        },
        (ReadQuery::RelatedRecordsQuery(q), ResultContent::RecordSelection(sel)) => {
            &&& sel.query_arguments == q.args
            &&& sel.scalars.first_without_id(sel.id_field@) == sel.scalars.records@.len()
            &&& lists_answer(&q.selected_fields, sel.lists@)
            &&& nested_answer(q.nested@, sel.nested@)
        },
        (ReadQuery::AggregateRecordsQuery(_), ResultContent::Count(_)) => true,
        _ => false,
    }
}

/// Whether the query is the read of one record that names no finder: it
/// cannot be resolved.
pub open spec fn lacks_finder(query: &ReadQuery) -> bool {
    query matches ReadQuery::RecordQuery(q) && q.record_finder is None
}

/// What a count gives for what the connector counted: the number under the
/// name and alias of the query; a failure of the connector stays as it is.
pub open spec fn count_answer(query: &AggregateRecordsQuery, counted: Result<usize, SqlError>) -> Result<
    ReadQueryResult,
    SqlError,
> {
    match counted {
        Ok(n) => Ok(
            ReadQueryResult { name: query.name, alias: query.alias, content: ResultContent::Count(n) },
        ),
        Err(e) => Err(e),
    }
}

/// The result of a count for what the connector counted.
pub fn count_result(query: AggregateRecordsQuery, counted: Result<usize, SqlError>) -> (r: Result<
    ReadQueryResult,
    SqlError,
>)
    ensures
        r == count_answer(&query, counted),
{
    match counted {
        Ok(n) => Ok(
            ReadQueryResult { name: query.name, alias: query.alias, content: ResultContent::Count(n) },
        ),
        Err(e) => Err(e),
    }
}

/// The result of a query that selects records: it names the query, the
/// selected fields in the order of the request and the id field, and holds
/// the records with their lists and with what is nested in them.
pub fn record_selection(
    name: String,
    alias: Option<String>,
    fields: Vec<String>,
    scalars: ManyRecords,
    nested: Vec<ReadQueryResult>,
    lists: Vec<ListValues>,
    id_field: String,
    query_arguments: QueryArguments,
) -> (r: ReadQueryResult)
    ensures
        r == (ReadQueryResult {
            name,
            alias,
            content: ResultContent::RecordSelection(
                RecordSelection { fields, scalars, nested, lists, id_field, query_arguments },
            ),
        }),
{
    ReadQueryResult {
        name,
        alias,
        content: ResultContent::RecordSelection(
            RecordSelection { fields, scalars, nested, lists, id_field, query_arguments },
        ),
    }
}

/// What follows the search for one record: nothing where none was found;
/// else the record with its id, or the failure to read that id.
pub fn after_single_record(found: Option<SingleRecord>, id_field: &str) -> (r: Result<
    Option<(SingleRecord, GraphqlId)>,
    SqlError,
>)
    ensures
        found is None ==> r == Ok::<Option<(SingleRecord, GraphqlId)>, SqlError>(None),
        found matches Some(rec) ==> match r {
            Ok(Some((kept, id))) => kept == rec && is_collected_id(
                rec.field_names@,
                rec.values@,
                id_field,
                Ok(id),
            ),
            Ok(None) => false,
            Err(e) => is_collected_id(rec.field_names@, rec.values@, id_field, Err(e)),
        },
{
    match found {
        None => Ok(None),
        Some(record) => match record.collect_id(id_field) {
            Ok(id) => Ok(Some((record, id))),
            Err(e) => Err(e),
        },
    }
}

/// Whether a result is that of the read of one record that found none: it
/// names the query, the selected fields and the id field, and holds no
/// records, no lists and nothing nested.
pub open spec fn is_empty_selection(
    name: String,
    alias: Option<String>,
    fields: Vec<String>,
    id_field: String,
    res: &ReadQueryResult,
) -> bool {
    &&& res.name == name
    &&& res.alias == alias
    &&& res.content matches ResultContent::RecordSelection(sel)
    &&& sel.fields == fields
    &&& sel.id_field == id_field
    &&& sel.scalars.field_names@.len() == 0
    &&& sel.scalars.records@.len() == 0
    &&& sel.nested@.len() == 0
    &&& sel.lists@.len() == 0
    &&& sel.query_arguments.filter is None
    &&& sel.query_arguments.order_by is None
    &&& sel.query_arguments.skip is None
    &&& sel.query_arguments.take is None
    &&& sel.query_arguments.cursor is None
}

/// The result of the read of one record that found none.
pub fn no_record_found(name: String, alias: Option<String>, fields: Vec<String>, id_field: String) -> (r:
    ReadQueryResult)
    ensures
        is_empty_selection(name, alias, fields, id_field, &r),
{
    record_selection(
        name,
        alias,
        fields,
        ManyRecords::empty(),
        Vec::new(),
        Vec::new(),
        id_field,
        QueryArguments::empty(),
    )
}

/// Adds the id field of the model to the selection, unless it is selected:
/// the ids drive the queries nested in it.
pub fn inject_required_fields(selected_fields: SelectedFields) -> (r: SelectedFields)
    ensures
        r.scalar@ == with_id_field(&selected_fields),
        r.model == selected_fields.model,
        r.id_field == selected_fields.id_field,
        r.relation_inlined == selected_fields.relation_inlined,
        r.from_field == selected_fields.from_field,
        selects_scalar(&r, r.id_field.name@),
{
    let mut fields = selected_fields;
    let ghost p = |i: int| selected_fields.scalar@[i].name@ == selected_fields.id_field.name@;
    let mut i: usize = 0;
    let mut found = false;
    while i < fields.scalar.len() && !found
        invariant
            fields == selected_fields,
            0 <= i <= fields.scalar@.len(),
            p == (|i: int| selected_fields.scalar@[i].name@ == selected_fields.id_field.name@),
            !found ==> forall|j: int| 0 <= j < i ==> !#[trigger] p(j),
            found ==> selects_scalar(&selected_fields, selected_fields.id_field.name@),
        decreases fields.scalar@.len() - i + (if found { 0int } else { 1int }),
    {
        if same_text(fields.scalar[i].name.as_str(), fields.id_field.name.as_str()) {
            proof {
                lemma_first_index_unique(fields.scalar@.len() as int, p, i as int);
            }
            found = true;
        } else {
            i = i + 1;
        }
    }
    if !found {
        proof {
            lemma_first_index_unique(fields.scalar@.len() as int, p, i as int);
        }
        let id = fields.id_field.duplicate();
        fields.scalar.push(id);
        proof {
            let q = |j: int| fields.scalar@[j].name@ == fields.id_field.name@;
            lemma_first_index(fields.scalar@.len() as int, q);
            assert(q(fields.scalar@.len() - 1));
        }
    }
    fields
}

/// The scalar list fields of a selection, in their order.
pub fn scalar_lists(selected_fields: &SelectedFields) -> (r: Vec<ScalarFieldRef>)
    ensures
        r@ == scalar_lists_of(selected_fields.scalar@),
{
    let mut out: Vec<ScalarFieldRef> = Vec::new();
    let mut i: usize = 0;
    while i < selected_fields.scalar.len()
        invariant
            0 <= i <= selected_fields.scalar@.len(),
            out@ == scalar_lists_upto(selected_fields.scalar@, i as int),
        decreases selected_fields.scalar@.len() - i,
    {
        if selected_fields.scalar[i].is_list {
            out.push(selected_fields.scalar[i].duplicate());
        }
        i = i + 1;
    }
    out
}

/// Reads through a connector.
pub struct ReadQueryExecutor<R: ManagedDatabaseReader> {
    pub data_resolver: R,
}

impl<R: ManagedDatabaseReader> ReadQueryExecutor<R> {
    /// Resolves a query. A query for related records reads the records
    /// related to the parents with the given ids. The read of one record
    /// that names no finder is refused.
    pub fn execute(&self, query: ReadQuery, parent_ids: &Vec<GraphqlId>) -> (r: Result<
        ReadQueryResult,
        SqlError,
    >)
        ensures
            r matches Ok(res) ==> resolves(&query, &res),
            lacks_finder(&query) ==> (r matches Err(e) && e.is_internal(
                "a record query without finder"@,
            )),
        decreases query,
    {
        match query {
            ReadQuery::RecordQuery(q) => self.read_one(q),
            ReadQuery::ManyRecordsQuery(q) => self.read_many(q),
            ReadQuery::RelatedRecordsQuery(q) => self.read_related(q, parent_ids),
            ReadQuery::AggregateRecordsQuery(q) => self.aggregate(q),
        }
    }

    /// Resolves the queries nested in a query for the records with the
    /// given ids, in their order. The first failure ends the run; without
    /// nested queries there is nothing to do.
    fn execute_nested(&self, nested: Vec<ReadQuery>, ids: &Vec<GraphqlId>) -> (r: Result<
        Vec<ReadQueryResult>,
        SqlError,
    >)
        ensures
            r matches Ok(v) ==> nested_answer(nested@, v@),
            nested@.len() == 0 ==> r is Ok,
            (exists|i: int| 0 <= i < nested@.len() && lacks_finder(&nested@[i])) ==> r is Err,
        decreases nested@,
    {
        let ghost all = nested@;
        let mut rest = nested;
        let mut out: Vec<ReadQueryResult> = Vec::new();
        let ghost mut done: int = 0;
        while rest.len() > 0
            invariant
                0 <= done <= all.len(),
                all == nested@,
                rest@ == all.skip(done),
                out@.len() == done,
                forall|i: int| 0 <= i < done ==> resolves(&(#[trigger] all[i]), &out@[i]),
                forall|i: int| 0 <= i < done ==> !lacks_finder(#[trigger] &all[i]),
            decreases rest@.len(),
        {
            let q = rest.remove(0);
            match self.execute(q, ids) {
                Ok(res) => {
                    out.push(res);
                },
                Err(e) => {
                    return Err(e);
                },
            }
            proof {
                done = done + 1;
            }
        }
        Ok(out)
    }

    /// Reads one record, the values of its scalar lists, and what is
    /// nested in the query. Where no record is found the result holds no
    /// records, no lists and nothing nested. A query without finder fails.
    #[verifier::rlimit(40)]
    pub fn read_one(&self, query: RecordQuery) -> (r: Result<ReadQueryResult, SqlError>)
        ensures
            r matches Ok(res) ==> resolves(&ReadQuery::RecordQuery(query), &res),
            query.record_finder is None ==> (r matches Err(e) && e.is_internal(
                "a record query without finder"@,
            )),
        decreases query,
    {
        let RecordQuery { name, alias, record_finder, selected_fields, nested, selection_order } =
            query;
        let finder = match record_finder {
            Some(f) => f,
            None => {
                return Err(SqlError::internal("a record query without finder"));
            },
        };
        let selected_fields = inject_required_fields(selected_fields);
        let id_field = selected_fields.id_field.name.clone();
        let found = match self.data_resolver.get_single_record(&finder, &selected_fields) {
            Ok(s) => s,
            Err(e) => {
                return Err(e);
            },
        };
        let found = match after_single_record(found, id_field.as_str()) {
            Ok(f) => f,
            Err(e) => {
                return Err(e);
            },
        };
        match found {
            Some((record, id)) => {
                proof {
                    let rows = seq![record.values];
                    lemma_first_index_unique(
                        1,
                        |i: int|
                            crate::read_ast::id_in_row(record.field_names@, rows[i]@, id_field@)
                                is None,
                        1,
                    );
                }
                let mut ids: Vec<GraphqlId> = Vec::new();
                ids.push(id);
                let list_fields = scalar_lists(&selected_fields);
                let lists = match self.resolve_scalar_list_fields(&ids, list_fields) {
                    Ok(l) => l,
                    Err(e) => {
                        return Err(e);
                    },
                };
                let nested = match self.execute_nested(nested, &ids) {
                    Ok(n) => n,
                    Err(e) => {
                        return Err(e);
                    },
                };
                Ok(
                    record_selection(
                        name,
                        alias,
                        selection_order,
                        ManyRecords::from_single(record),
                        nested,
                        lists,
                        id_field,
                        QueryArguments::empty(),
                    ),
                )
            },
            None => Ok(no_record_found(name, alias, selection_order, id_field)),
        }
    }

    /// Reads the records of a model, the values of their scalar lists, and
    /// what is nested in the query.
    #[verifier::rlimit(40)]
    pub fn read_many(&self, query: ManyRecordsQuery) -> (r: Result<ReadQueryResult, SqlError>)
        ensures
            r matches Ok(res) ==> resolves(&ReadQuery::ManyRecordsQuery(query), &res),
        decreases query,
    {
        let ManyRecordsQuery { name, alias, model, args, selected_fields, nested, selection_order } =
            query;
        let selected_fields = inject_required_fields(selected_fields);
        let id_field = selected_fields.id_field.name.clone();
        let scalars = match self.data_resolver.get_many_records(
            model.as_str(),
            &args,
            &selected_fields,
        ) {
            Ok(s) => s,
            Err(e) => {
                return Err(e);
            },
        };
        let ids = match scalars.collect_ids(id_field.as_str()) {
            Ok(ids) => ids,
            Err(e) => {
                return Err(e);
            },
        };
        let list_fields = scalar_lists(&selected_fields);
        let lists = match self.resolve_scalar_list_fields(&ids, list_fields) {
            Ok(l) => l,
            Err(e) => {
                return Err(e);
            },
        };
        let nested = match self.execute_nested(nested, &ids) {
            Ok(n) => n,
            Err(e) => {
                return Err(e);
            },
        };
        Ok(
            record_selection(name, alias, selection_order, scalars, nested, lists, id_field, args),
        )
    }

    /// Reads the records related to the parents with the given ids, the
    /// values of their scalar lists, and what is nested in the query.
    #[verifier::rlimit(40)]
    pub fn read_related(&self, query: RelatedRecordsQuery, parent_ids: &Vec<GraphqlId>) -> (r:
        Result<ReadQueryResult, SqlError>)
        ensures
            r matches Ok(res) ==> resolves(&ReadQuery::RelatedRecordsQuery(query), &res),
        decreases query,
    {
        let RelatedRecordsQuery {
            name,
            alias,
            parent_field,
            args,
            selected_fields,
            nested,
            selection_order,
        } = query;
        let selected_fields = inject_required_fields(selected_fields);
        let id_field = selected_fields.id_field.name.clone();
        let scalars = match self.data_resolver.get_related_records(
            &parent_field,
            parent_ids,
            &args,
            &selected_fields,
        ) {
            Ok(s) => s,
            Err(e) => {
                return Err(e);
            },
        };
        let ids = match scalars.collect_ids(id_field.as_str()) {
            Ok(ids) => ids,
            Err(e) => {
                return Err(e);
            },
        };
        let list_fields = scalar_lists(&selected_fields);
        let lists = match self.resolve_scalar_list_fields(&ids, list_fields) {
            Ok(l) => l,
            Err(e) => {
                return Err(e);
            },
        };
        let nested = match self.execute_nested(nested, &ids) {
            Ok(n) => n,
            Err(e) => {
                return Err(e);
            },
        };
        Ok(
            record_selection(name, alias, selection_order, scalars, nested, lists, id_field, args),
        )
    }

    /// Counts the records of a model.
    pub fn aggregate(&self, query: AggregateRecordsQuery) -> (r: Result<ReadQueryResult, SqlError>)
        ensures
            r matches Ok(res) ==> resolves(&ReadQuery::AggregateRecordsQuery(query), &res),
    {
        let args = QueryArguments::empty();
        let counted = self.data_resolver.count_by_model(query.model.as_str(), &args);
        count_result(query, counted)
    }

    /// Loads the values of each of the list fields for the records with
    /// the given ids: one entry for each field, in their order. Without
    /// list fields the connector is not asked.
    pub fn resolve_scalar_list_fields(
        &self,
        record_ids: &Vec<GraphqlId>,
        list_fields: Vec<ScalarFieldRef>,
    ) -> (r: Result<Vec<ListValues>, SqlError>)
        ensures
            r matches Ok(v) ==> (v@.len() == list_fields@.len() && forall|i: int|
                0 <= i < v@.len() ==> (#[trigger] v@[i]).field == list_fields@[i].name),
            list_fields@.len() == 0 ==> r is Ok,
    {
        let mut results: Vec<ListValues> = Vec::new();
        let mut i: usize = 0;
        while i < list_fields.len()
            invariant
                0 <= i <= list_fields@.len(),
                results@.len() == i,
                forall|j: int| 0 <= j < i ==> (#[trigger] results@[j]).field == list_fields@[j].name,
            decreases list_fields@.len() - i,
        {
            let list_field = &list_fields[i];
            let values = match self.data_resolver.get_scalar_list_values_by_record_ids(
                list_field,
                record_ids,
            ) {
                Ok(v) => v,
                Err(e) => {
                    return Err(e);
                },
            };
            results.push(ListValues { field: list_field.name.clone(), values });
            i = i + 1;
        }
        Ok(results)
    }
}

} // verus!
