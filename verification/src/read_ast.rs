//! The tree of a read request and of its result.

use crate::error::SqlError;
use crate::seqs::{first_index, lemma_first_index_unique};
use crate::text::same_text;
use crate::values::{GraphqlId, PrismaValue, SingleRecord};
use crate::write_ast::{Filter, RecordFinder, RelationFieldRef};
use vstd::prelude::*;
use vstd::string::StringExecFns;

verus! {

/// A scalar field as a selection names it.
#[derive(Clone, Debug, PartialEq)]
pub struct ScalarFieldRef {
    pub model: String,
    pub name: String,
    pub db_name: String,
    pub is_list: bool,
}

impl ScalarFieldRef {
    /// A copy of the reference.
    pub fn duplicate(&self) -> (r: ScalarFieldRef)
        ensures
            r == *self,
    {
        ScalarFieldRef {
            model: self.model.clone(),
            name: self.name.clone(),
            db_name: self.db_name.clone(),
            is_list: self.is_list,
        }
    }
}

/// The fields that a query selects of the records of a model.
#[derive(Clone, Debug, PartialEq)]
pub struct SelectedFields {
    pub model: String,
    /// The id field of the model.
    pub id_field: ScalarFieldRef,
    pub scalar: Vec<ScalarFieldRef>,
    /// The relation fields that are kept in a column of the model's table.
    pub relation_inlined: Vec<RelationFieldRef>,
    /// The relation field through which the records are reached.
    pub from_field: Option<RelationFieldRef>,
}

/// The direction of an order.
#[derive(Clone, Copy, Debug, PartialEq, Eq, Structural)]
pub enum SortOrder {
    Ascending,
    Descending,
}

/// The field that a query orders by, and the direction.
#[derive(Clone, Debug, PartialEq)]
pub struct OrderBy {
    pub field: String,
    pub sort_order: SortOrder,
}

/// How the records of a query are filtered, ordered and paged.
#[derive(Debug, PartialEq)]
pub struct QueryArguments {
    pub filter: Option<Filter>,
    pub order_by: Option<OrderBy>,
    /// How many records are passed over.
    pub skip: Option<u32>,
    /// How many records are taken: from the start of the order where the
    /// number is positive, from its end where it is negative.
    pub take: Option<i64>,
    /// The id of the record at which the records start.
    pub cursor: Option<GraphqlId>,
}

/// The window of a paging query: how many records are passed over and how
/// many are taken.
#[derive(Clone, Copy, Debug, PartialEq, Eq, Structural)]
pub struct Window {
    pub skip: u64,
    pub take: Option<u64>,
}

impl Window {
    /// Whether the rows of the window can be numbered: the first row kept
    /// and the last row taken have a number.
    pub open spec fn fits(self) -> bool {
        &&& self.skip + 1 <= u64::MAX
        &&& self.take matches Some(t) ==> self.skip + t <= u64::MAX
    }
}

/// The size of a number.
pub open spec fn magnitude(n: i64) -> u64 {
    if n >= 0 {
        n as u64
    } else {
        (-n) as u64
    }
}

impl QueryArguments {
    /// No filter, no order and no paging.
    pub fn empty() -> (r: QueryArguments)
        ensures
            r.filter is None,
            r.order_by is None,
            r.skip is None,
            r.take is None,
            r.cursor is None,
    {
        QueryArguments { filter: None, order_by: None, skip: None, take: None, cursor: None }
    }

    /// Whether the query pages: it skips records, takes some, or starts at
    /// a cursor.
    pub open spec fn is_with_pagination_spec(&self) -> bool {
        self.skip is Some || self.take is Some || self.cursor is Some
    }

    /// Whether the query pages.
    pub fn is_with_pagination(&self) -> (r: bool)
        ensures
            r == self.is_with_pagination_spec(),
    {
        self.skip.is_some() || self.take.is_some() || self.cursor.is_some()
    }

    /// Whether the records are read from the end of the order.
    pub open spec fn is_reverse_order_spec(&self) -> bool {
        self.take matches Some(n) && n < 0
    }

    /// Whether the records are read from the end of the order: the query
    /// takes a negative number of them.
    pub fn is_reverse_order(&self) -> (r: bool)
        ensures
            r == self.is_reverse_order_spec(),
    {
        match self.take {
            Some(n) => n < 0,
            None => false,
        }
    }

    /// The window of the query: nothing is passed over unless the query
    /// says so, and as many records are taken as the size of `take` says.
    pub open spec fn window_spec(&self) -> Window {
        Window {
            skip: match self.skip {
                Some(n) => n as u64,
                None => 0,
            },
            take: match self.take {
                Some(n) => Some(magnitude(n)),
                None => None,
            },
        }
    }

    /// The window of the query.
    pub fn window(&self) -> (r: Window)
        ensures
            r == self.window_spec(),
            r.fits(),
    {
        let skip: u64 = match self.skip {
            Some(n) => n as u64,
            None => 0,
        };
        let take: Option<u64> = match self.take {
            Some(n) => Some(
                if n >= 0 {
                    n as u64
                } else if n == i64::MIN {
                    9223372036854775808u64
                } else {
                    (-n) as u64
                },
            ),
            None => None,
        };
        Window { skip, take }
    }
}

/// The read of one record.
#[derive(Debug, PartialEq)]
pub struct RecordQuery {
    pub name: String,
    pub alias: Option<String>,
    pub record_finder: Option<RecordFinder>,
    pub selected_fields: SelectedFields,
    pub nested: Vec<ReadQuery>,
    pub selection_order: Vec<String>,
}

/// The read of the records of a model.
#[derive(Debug, PartialEq)]
pub struct ManyRecordsQuery {
    pub name: String,
    pub alias: Option<String>,
    pub model: String,
    pub args: QueryArguments,
    pub selected_fields: SelectedFields,
    pub nested: Vec<ReadQuery>,
    pub selection_order: Vec<String>,
}

/// The read of the records related to the records of the query above.
#[derive(Debug, PartialEq)]
pub struct RelatedRecordsQuery {
    pub name: String,
    pub alias: Option<String>,
    pub parent_field: RelationFieldRef,
    pub args: QueryArguments,
    pub selected_fields: SelectedFields,
    pub nested: Vec<ReadQuery>,
    pub selection_order: Vec<String>,
}

/// The count of the records of a model.
#[derive(Debug, PartialEq)]
pub struct AggregateRecordsQuery {
    pub name: String,
    pub alias: Option<String>,
    pub model: String,
}

/// A node of the tree of a read request.
#[derive(Debug, PartialEq)]
pub enum ReadQuery {
    RecordQuery(RecordQuery),
    ManyRecordsQuery(ManyRecordsQuery),
    RelatedRecordsQuery(RelatedRecordsQuery),
    AggregateRecordsQuery(AggregateRecordsQuery),
}

/// Records of one shape: the names of their fields and, for each record, a
/// value for each field.
#[derive(Clone, Debug, PartialEq)]
pub struct ManyRecords {
    pub field_names: Vec<String>,
    pub records: Vec<Vec<PrismaValue>>,
}

/// The values of a scalar list of one record.
#[derive(Clone, Debug, PartialEq)]
pub struct ScalarListValues {
    pub record_id: GraphqlId,
    pub values: Vec<PrismaValue>,
}

/// The values of one scalar list field for a set of records.
#[derive(Clone, Debug, PartialEq)]
pub struct ListValues {
    pub field: String,
    pub values: Vec<ScalarListValues>,
}

/// The records that a query read, with their lists and with what is nested.
#[derive(Debug, PartialEq)]
pub struct RecordSelection {
    /// The names of the selected fields in the order of the request.
    pub fields: Vec<String>,
    pub scalars: ManyRecords,
    pub nested: Vec<ReadQueryResult>,
    pub lists: Vec<ListValues>,
    pub id_field: String,
    pub query_arguments: QueryArguments,
}

/// What a read gives: records or a count.
#[derive(Debug, PartialEq)]
pub enum ResultContent {
    RecordSelection(RecordSelection),
    Count(usize),
}

/// The result of a node of the tree of a read request.
#[derive(Debug, PartialEq)]
pub struct ReadQueryResult {
    pub name: String,
    pub alias: Option<String>,
    pub content: ResultContent,
}

/// Position of the first of the names that equals `name`; the number of
/// names if there is none.
pub open spec fn name_index(names: Seq<String>, name: Seq<char>) -> int {
    first_index(names.len() as int, |i: int| names[i]@ == name)
}

/// Position of the first of the names that equals `name`.
pub fn find_name(names: &Vec<String>, name: &str) -> (r: Option<usize>)
    ensures
        match r {
            Some(i) => i == name_index(names@, name@) && i < names@.len(),
            None => name_index(names@, name@) == names@.len(),
        },
{
    let ghost p = |i: int| names@[i]@ == name@;
    let mut i: usize = 0;
    while i < names.len()
        invariant
            0 <= i <= names@.len(),
            forall|j: int| 0 <= j < i ==> !#[trigger] p(j),
            p == (|i: int| names@[i]@ == name@),
        decreases names@.len() - i,
    {
        if same_text(names[i].as_str(), name) {
            proof {
                lemma_first_index_unique(names@.len() as int, p, i as int);
            }
            return Some(i);
        }
        i = i + 1;
    }
    proof {
        lemma_first_index_unique(names@.len() as int, p, i as int);
    }
    None
}

/// The id that a row holds under the field `id_field`, among fields called
/// as `names` says: the value at the first position with that name, if the
/// row reaches that far and the value stands for an id.
pub open spec fn id_in_row(names: Seq<String>, row: Seq<PrismaValue>, id_field: Seq<char>) -> Option<
    GraphqlId,
> {
    let i = name_index(names, id_field);
    if i < names.len() && i < row.len() {
        row[i].as_id()
    } else {
        None
    }
}

/// What `collect_id` gives: the id of the row, or the failure to read one.
pub open spec fn is_collected_id(
    names: Seq<String>,
    row: Seq<PrismaValue>,
    id_field: &str,
    r: Result<GraphqlId, SqlError>,
) -> bool {
    match id_in_row(names, row, id_field@) {
        Some(id) => r == Ok::<GraphqlId, SqlError>(id),
        None => r matches Err(SqlError::ConversionError { from, to }) && from@ == id_field@ && to@
            == "GraphqlId"@,
    }
}

fn id_of_row(names: &Vec<String>, row: &Vec<PrismaValue>, id_field: &str) -> (r: Result<
    GraphqlId,
    SqlError,
>)
    ensures
        is_collected_id(names@, row@, id_field, r),
{
    let found = match find_name(names, id_field) {
        Some(i) => if i < row.len() {
            row[i].to_id()
        } else {
            None
        },
        None => None,
    };
    match found {
        Some(id) => Ok(id),
        None => Err(
            SqlError::ConversionError {
                from: String::from_str(id_field),
                to: String::from_str("GraphqlId"),
            },
        ),
    }
}

impl SingleRecord {
    /// The id of the record: the value of the field `id_field`.
    pub fn collect_id(&self, id_field: &str) -> (r: Result<GraphqlId, SqlError>)
        ensures
            is_collected_id(self.field_names@, self.values@, id_field, r),
    {
        id_of_row(&self.field_names, &self.values, id_field)
    }
}

impl ManyRecords {
    /// No records and no fields.
    pub fn empty() -> (r: ManyRecords)
        ensures
            r.field_names@.len() == 0,
            r.records@.len() == 0,
    {
        ManyRecords { field_names: Vec::new(), records: Vec::new() }
    }

    /// The one record as records.
    pub fn from_single(record: SingleRecord) -> (r: ManyRecords)
        ensures
            r.field_names == record.field_names,
            r.records@ == seq![record.values],
    {
        let mut records: Vec<Vec<PrismaValue>> = Vec::new();
        records.push(record.values);
        ManyRecords { field_names: record.field_names, records }
    }

    /// Position of the first record without a readable id; the number of
    /// records if all have one.
    pub open spec fn first_without_id(&self, id_field: Seq<char>) -> int {
        first_index(
            self.records@.len() as int,
            |i: int| id_in_row(self.field_names@, self.records@[i]@, id_field) is None,
        )
    }

    /// The ids of the records, in their order.
    pub open spec fn ids(&self, id_field: Seq<char>) -> Seq<GraphqlId> {
        Seq::new(
            self.records@.len(),
            |i: int| id_in_row(self.field_names@, self.records@[i]@, id_field)->Some_0,
        )
    }

    /// The ids of the records, in their order; the failure to read
    /// one, if a record has none.
    pub fn collect_ids(&self, id_field: &str) -> (r: Result<Vec<GraphqlId>, SqlError>)
        ensures
            match r {
                Ok(ids) => self.first_without_id(id_field@) == self.records@.len() && ids@
                    == self.ids(id_field@),
                Err(e) => self.first_without_id(id_field@) < self.records@.len()
                    && is_collected_id(
                    self.field_names@,
                    self.records@[self.first_without_id(id_field@)]@,
                    id_field,
                    Err(e),
                ),
            },
    {
        let ghost p = |i: int| id_in_row(self.field_names@, self.records@[i]@, id_field@) is None;
        let mut out: Vec<GraphqlId> = Vec::new();
        let mut i: usize = 0;
        while i < self.records.len()
            invariant
                0 <= i <= self.records@.len(),
                p == (|i: int| id_in_row(self.field_names@, self.records@[i]@, id_field@) is None),
                forall|j: int| 0 <= j < i ==> !#[trigger] p(j),
                out@.len() == i,
                forall|j: int| 0 <= j < i ==> #[trigger] out@[j] == self.ids(id_field@)[j],
            decreases self.records@.len() - i,
        {
            match id_of_row(&self.field_names, &self.records[i], id_field) {
                Ok(id) => {
                    out.push(id);
                },
                Err(e) => {
                    proof {
                        lemma_first_index_unique(self.records@.len() as int, p, i as int);
                    }
                    return Err(e);
                },
            }
            i = i + 1;
        }
        proof {
            lemma_first_index_unique(self.records@.len() as int, p, i as int);
        }
        Ok(out)
    }
}

} // verus!
