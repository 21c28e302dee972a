//! SQL statements as data: what a statement works on and what it binds.

use crate::values::{Arg, GraphqlId, PrismaValue};
use vstd::prelude::*;

verus! {

/// A table, with the database it lies in.
#[derive(Clone, Debug, PartialEq)]
pub struct TableName {
    pub database: Option<String>,
    pub name: String,
}

/// A table with its names as texts.
pub struct TableNameView {
    pub database: Option<Seq<char>>,
    pub name: Seq<char>,
}

impl View for TableName {
    type V = TableNameView;

    open spec fn view(&self) -> TableNameView {
        TableNameView {
            database: match self.database {
                Some(d) => Some(d@),
                None => None,
            },
            name: self.name@,
        }
    }
}

impl TableName {
    /// A copy of the name.
    pub fn duplicate(&self) -> (r: TableName)
        ensures
            r@ == self@,
    {
        TableName {
            database: match &self.database {
                Some(d) => Some(d.clone()),
                None => None,
            },
            name: self.name.clone(),
        }
    }
}

/// A column, with the table it belongs to and the name it is selected as.
#[derive(Clone, Debug, PartialEq)]
pub struct ColumnName {
    pub table: Option<TableName>,
    pub name: String,
    pub alias: Option<String>,
}

/// A column with its names as texts.
pub struct ColumnNameView {
    pub table: Option<TableNameView>,
    pub name: Seq<char>,
    pub alias: Option<Seq<char>>,
}

impl View for ColumnName {
    type V = ColumnNameView;

    open spec fn view(&self) -> ColumnNameView {
        ColumnNameView {
            table: match self.table {
                Some(t) => Some(t@),
                None => None,
            },
            name: self.name@,
            alias: match self.alias {
                Some(a) => Some(a@),
                None => None,
            },
        }
    }
}

impl ColumnName {
    /// A copy of the name.
    pub fn duplicate(&self) -> (r: ColumnName)
        ensures
            r@ == self@,
    {
        ColumnName {
            table: match &self.table {
                Some(t) => Some(t.duplicate()),
                None => None,
            },
            name: self.name.clone(),
            alias: match &self.alias {
                Some(a) => Some(a.clone()),
                None => None,
            },
        }
    }
}

/// A condition on one column.
#[derive(Clone, Debug, PartialEq)]
pub enum Comparison {
    Equals { column: ColumnName, value: GraphqlId },
    In { column: ColumnName, ids: Vec<GraphqlId> },
    IsNotNull { column: ColumnName },
}

/// A condition with its names as texts.
pub enum ComparisonView {
    Equals { column: ColumnNameView, value: GraphqlId },
    In { column: ColumnNameView, ids: Seq<GraphqlId> },
    IsNotNull { column: ColumnNameView },
}

impl View for Comparison {
    type V = ComparisonView;

    open spec fn view(&self) -> ComparisonView {
        match self {
            Comparison::Equals { column, value } => ComparisonView::Equals {
                column: column@,
                value: *value,
            },
            Comparison::In { column, ids } => ComparisonView::In { column: column@, ids: ids@ },
            Comparison::IsNotNull { column } => ComparisonView::IsNotNull { column: column@ },
        }
    }
}

impl ComparisonView {
    /// How many values the condition binds.
    pub open spec fn parameter_count(self) -> nat {
        match self {
            ComparisonView::Equals { .. } => 1,
            ComparisonView::In { column, ids } => ids.len(),
            ComparisonView::IsNotNull { .. } => 0,
        }
    }
}

/// How many values the conditions bind together.
pub open spec fn condition_parameters(cs: Seq<ComparisonView>) -> nat
    decreases cs.len(),
{
    if cs.len() == 0 {
        0
    } else {
        condition_parameters(cs.drop_last()) + cs.last().parameter_count()
    }
}

/// The conditions with their names as texts.
pub open spec fn comparison_views(cs: Seq<Comparison>) -> Seq<ComparisonView> {
    Seq::new(cs.len(), |i: int| cs[i]@)
}

/// An insert of rows: each row holds one value for each column.
#[derive(Clone, Debug, PartialEq)]
pub struct Insert {
    pub table: TableName,
    pub columns: Vec<String>,
    pub rows: Vec<Vec<PrismaValue>>,
    /// The columns whose values the statement gives back.
    pub returning: Vec<ColumnName>,
    /// Whether a row that is there already is left alone.
    pub on_conflict_do_nothing: bool,
}

/// An insert with its names as texts.
pub struct InsertView {
    pub table: TableNameView,
    pub columns: Seq<Seq<char>>,
    pub rows: Seq<Seq<PrismaValue>>,
    pub returning: Seq<ColumnNameView>,
    pub on_conflict_do_nothing: bool,
}

impl View for Insert {
    type V = InsertView;

    open spec fn view(&self) -> InsertView {
        InsertView {
            table: self.table@,
            columns: self.columns.deep_view(),
            rows: Seq::new(self.rows@.len(), |i: int| self.rows@[i]@),
            returning: Seq::new(self.returning@.len(), |i: int| self.returning@[i]@),
            on_conflict_do_nothing: self.on_conflict_do_nothing,
        }
    }
}

/// One assignment of an update.
pub struct Assignment {
    pub column: Seq<char>,
    pub value: PrismaValue,
}

/// An update of the rows that meet all conditions.
#[derive(Clone, Debug, PartialEq)]
pub struct Update {
    pub table: TableName,
    /// Column names and the values they are set to.
    pub assignments: Vec<Arg>,
    pub conditions: Vec<Comparison>,
}

/// An update with its names as texts.
pub struct UpdateView {
    pub table: TableNameView,
    pub assignments: Seq<Assignment>,
    pub conditions: Seq<ComparisonView>,
}

impl View for Update {
    type V = UpdateView;

    open spec fn view(&self) -> UpdateView {
        UpdateView {
            table: self.table@,
            assignments: Seq::new(
                self.assignments@.len(),
                |i: int|
                    Assignment {
                        column: self.assignments@[i].name@,
                        value: self.assignments@[i].value,
                    },
            ),
            conditions: comparison_views(self.conditions@),
        }
    }
}

impl UpdateView {
    /// How many values the statement binds.
    pub open spec fn parameter_count(self) -> nat {
        self.assignments.len() + condition_parameters(self.conditions)
    }
}

/// A delete of the rows that meet all conditions.
#[derive(Clone, Debug, PartialEq)]
pub struct Delete {
    pub table: TableName,
    pub conditions: Vec<Comparison>,
}

/// A delete with its names as texts.
pub struct DeleteView {
    pub table: TableNameView,
    pub conditions: Seq<ComparisonView>,
}

impl View for Delete {
    type V = DeleteView;

    open spec fn view(&self) -> DeleteView {
        DeleteView { table: self.table@, conditions: comparison_views(self.conditions@) }
    }
}

impl DeleteView {
    /// How many values the statement binds.
    pub open spec fn parameter_count(self) -> nat {
        condition_parameters(self.conditions)
    }
}

/// The deletes with their names as texts.
pub open spec fn delete_views(v: Seq<Delete>) -> Seq<DeleteView> {
    Seq::new(v.len(), |i: int| v[i]@)
}

/// The updates with their names as texts.
pub open spec fn update_views(v: Seq<Update>) -> Seq<UpdateView> {
    Seq::new(v.len(), |i: int| v[i]@)
}

/// The inserts with their names as texts.
pub open spec fn insert_views(v: Seq<Insert>) -> Seq<InsertView> {
    Seq::new(v.len(), |i: int| v[i]@)
}

/// The condition that a column holds one of the ids.
pub open spec fn in_ids(column: ColumnNameView, ids: Seq<GraphqlId>) -> Seq<ComparisonView> {
    seq![ComparisonView::In { column, ids }]
}

/// One condition binds as many values as it holds.
pub proof fn lemma_in_ids_parameters(column: ColumnNameView, ids: Seq<GraphqlId>)
    ensures
        condition_parameters(in_ids(column, ids)) == ids.len(),
{
    let cs = in_ids(column, ids);
    assert(condition_parameters(cs.drop_last()) == 0);
}

/// Makes the condition that a column holds one of the ids.
pub fn make_in_ids(column: ColumnName, ids: Vec<GraphqlId>) -> (r: Vec<Comparison>)
    ensures
        comparison_views(r@) == in_ids(column@, ids@),
{
    let mut v: Vec<Comparison> = Vec::new();
    v.push(Comparison::In { column, ids });
    v
}

} // verus!
