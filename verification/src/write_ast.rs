//! The tree of a write request: the root write and the writes nested in it.

use crate::values::{GraphqlId, PrismaArgs, PrismaListValue, PrismaValue, SingleRecord};
use vstd::prelude::*;

verus! {

/// Identifies one record by the value of a unique field.
#[derive(Clone, Debug, PartialEq)]
pub struct RecordFinder {
    pub model: String,
    pub field: String,
    pub value: PrismaValue,
}

/// A comparison of a field with a value or with values.
#[derive(Clone, Debug, PartialEq)]
pub enum ScalarCondition {
    Equals(PrismaValue),
    NotEquals(PrismaValue),
    Contains(PrismaValue),
    StartsWith(PrismaValue),
    EndsWith(PrismaValue),
    LessThan(PrismaValue),
    LessThanOrEquals(PrismaValue),
    GreaterThan(PrismaValue),
    GreaterThanOrEquals(PrismaValue),
    In(Vec<PrismaValue>),
    NotIn(Vec<PrismaValue>),
}

/// A condition on one scalar field.
#[derive(Clone, Debug, PartialEq)]
pub struct ScalarFilter {
    pub field: String,
    pub condition: ScalarCondition,
}

/// A condition on the records of a model.
#[derive(Debug, PartialEq)]
pub enum Filter {
    And(Vec<Filter>),
    Or(Vec<Filter>),
    Not(Vec<Filter>),
    Scalar(ScalarFilter),
}

/// A relation field as a nested write sees it: the field on the parent, and
/// what is known of the field at the other end.
#[derive(Clone, Debug, PartialEq)]
pub struct RelationFieldRef {
    pub model: String,
    pub name: String,
    /// The column in which the field is kept, where it is kept in one.
    pub db_name: String,
    pub relation_name: String,
    pub is_list: bool,
    pub is_required: bool,
    pub related_model: String,
    pub related_is_list: bool,
    pub related_is_required: bool,
}

/// A list argument of a write: a field's name and the list for it.
#[derive(Clone, Debug, PartialEq)]
pub struct ListArg {
    pub name: String,
    pub value: PrismaListValue,
}

/// The writes nested in a write, one bag for each kind.
#[derive(Debug, PartialEq)]
pub struct NestedWriteQueries {
    pub creates: Vec<NestedCreateRecord>,
    pub updates: Vec<NestedUpdateRecord>,
    pub upserts: Vec<NestedUpsertRecord>,
    pub deletes: Vec<NestedDeleteRecord>,
    pub connects: Vec<NestedConnect>,
    pub sets: Vec<NestedSet>,
    pub disconnects: Vec<NestedDisconnect>,
    pub update_manys: Vec<NestedUpdateManyRecords>,
    pub delete_manys: Vec<NestedDeleteManyRecords>,
}

/// Creates a record related to the parent.
#[derive(Debug, PartialEq)]
pub struct NestedCreateRecord {
    pub relation_field: RelationFieldRef,
    pub non_list_args: PrismaArgs,
    pub list_args: Vec<ListArg>,
    pub top_is_create: bool,
    pub nested_writes: NestedWriteQueries,
}

/// Updates a record related to the parent.
#[derive(Debug, PartialEq)]
pub struct NestedUpdateRecord {
    pub relation_field: RelationFieldRef,
    pub where_: Option<RecordFinder>,
    pub non_list_args: PrismaArgs,
    pub list_args: Vec<ListArg>,
    pub nested_writes: NestedWriteQueries,
}

/// Updates a record related to the parent, or creates it if the parent has none.
#[derive(Debug, PartialEq)]
pub struct NestedUpsertRecord {
    pub relation_field: RelationFieldRef,
    pub where_: Option<RecordFinder>,
    pub create: NestedCreateRecord,
    pub update: NestedUpdateRecord,
}

/// Deletes a record related to the parent.
#[derive(Debug, PartialEq)]
pub struct NestedDeleteRecord {
    pub relation_field: RelationFieldRef,
    pub where_: Option<RecordFinder>,
}

/// Connects a record to the parent.
#[derive(Debug, PartialEq)]
pub struct NestedConnect {
    pub relation_field: RelationFieldRef,
    pub where_: RecordFinder,
    pub top_is_create: bool,
}

/// Makes the given records the records connected to the parent.
#[derive(Debug, PartialEq)]
pub struct NestedSet {
    pub relation_field: RelationFieldRef,
    pub wheres: Vec<RecordFinder>,
}

/// Disconnects a record from the parent.
#[derive(Debug, PartialEq)]
pub struct NestedDisconnect {
    pub relation_field: RelationFieldRef,
    pub where_: Option<RecordFinder>,
}

/// Updates the records related to the parent that meet a filter.
#[derive(Debug, PartialEq)]
pub struct NestedUpdateManyRecords {
    pub relation_field: RelationFieldRef,
    pub filter: Option<Filter>,
    pub non_list_args: PrismaArgs,
    pub list_args: Vec<ListArg>,
}

/// Deletes the records related to the parent that meet a filter.
#[derive(Debug, PartialEq)]
pub struct NestedDeleteManyRecords {
    pub relation_field: RelationFieldRef,
    pub filter: Option<Filter>,
}

/// Creates a record.
#[derive(Debug, PartialEq)]
pub struct CreateRecord {
    pub model: String,
    pub non_list_args: PrismaArgs,
    pub list_args: Vec<ListArg>,
    pub nested_writes: NestedWriteQueries,
}

/// Updates the record that the finder names.
#[derive(Debug, PartialEq)]
pub struct UpdateRecord {
    pub where_: RecordFinder,
    pub non_list_args: PrismaArgs,
    pub list_args: Vec<ListArg>,
    pub nested_writes: NestedWriteQueries,
}

/// Updates the record that the finder names, or creates it if there is none.
#[derive(Debug, PartialEq)]
pub struct UpsertRecord {
    pub where_: RecordFinder,
    pub create: CreateRecord,
    pub update: UpdateRecord,
}

/// Updates the records of a model that meet a filter.
#[derive(Debug, PartialEq)]
pub struct UpdateManyRecords {
    pub model: String,
    pub filter: Filter,
    pub non_list_args: PrismaArgs,
    pub list_args: Vec<ListArg>,
}

/// Deletes the record that the finder names.
#[derive(Debug, PartialEq)]
pub struct DeleteRecord {
    pub where_: RecordFinder,
}

/// Deletes the records of a model that meet a filter.
#[derive(Debug, PartialEq)]
pub struct DeleteManyRecords {
    pub model: String,
    pub filter: Filter,
}

/// Empties every table.
#[derive(Debug, PartialEq)]
pub struct ResetData {}

/// The write at the root of a request.
#[derive(Debug, PartialEq)]
pub enum RootWriteQuery {
    CreateRecord(Box<CreateRecord>),
    UpdateRecord(Box<UpdateRecord>),
    DeleteRecord(DeleteRecord),
    UpsertRecord(Box<UpsertRecord>),
    UpdateManyRecords(UpdateManyRecords),
    DeleteManyRecords(DeleteManyRecords),
    ResetData(ResetData),
}

/// What a write gives back of the records it touched.
#[derive(Clone, Debug, PartialEq)]
pub enum Identifier {
    Id(GraphqlId),
    Count(usize),
    Record(SingleRecord),
    Nothing,
}

/// The kind of write that a result comes from.
#[derive(Clone, Copy, Debug, PartialEq, Eq, Structural)]
pub enum WriteQueryResultType {
    Create,
    Update,
    Delete,
    Many,
    Unit,
}

/// The result of the write at the root.
#[derive(Clone, Debug, PartialEq)]
pub struct WriteQueryResult {
    pub identifier: Identifier,
    pub typ: WriteQueryResultType,
}

impl NestedWriteQueries {
    /// No nested writes.
    pub fn empty() -> (r: NestedWriteQueries)
        ensures
            r.creates@.len() == 0,
            r.updates@.len() == 0,
            r.upserts@.len() == 0,
            r.deletes@.len() == 0,
            r.connects@.len() == 0,
            r.sets@.len() == 0,
            r.disconnects@.len() == 0,
            r.update_manys@.len() == 0,
            r.delete_manys@.len() == 0,
    {
        NestedWriteQueries {
            creates: Vec::new(),
            updates: Vec::new(),
            upserts: Vec::new(),
            deletes: Vec::new(),
            connects: Vec::new(),
            sets: Vec::new(),
            disconnects: Vec::new(),
            update_manys: Vec::new(),
            delete_manys: Vec::new(),
        }
    }
}

} // verus!
