//! The statements that link and unlink the records of a relation, for a
//! relation stored in a join table and for one stored in a column.

use crate::datamodel::Datamodel;
use crate::query_builder::{
    as_column, as_table, create_relation_table_records, create_relation_table_records_with,
    field_column, model_table, relation_insert, RelationColumns,
};
use crate::relation::{RelationSide, RelationTable};
use crate::resolver::{TempManifestationHolder, TempRelationHolder};
use crate::seqs::{first_index, lemma_first_index_unique};
use crate::text::same_text;
use crate::write_ast::RelationFieldRef;
use crate::sql::{
    comparison_views, ColumnName, ColumnNameView, Comparison, ComparisonView, Delete, DeleteView,
    Insert, InsertView, TableName, TableNameView, Update, UpdateView, Assignment,
};
use crate::values::{Arg, GraphqlId, PrismaValue};
use vstd::prelude::*;

verus! {

/// Where the links of a relation are kept, as the parent of a nested write
/// sees it.
#[derive(Clone, Debug, PartialEq)]
pub enum RelationStorage {
    /// In a join table.
    Table(RelationColumns),
    /// In the column `link` of `table`, beside the id of the record that
    /// holds the link. `parent_holds` says whether that record is the parent.
    Inline { table: TableName, id: ColumnName, link: ColumnName, parent_holds: bool },
}

/// A statement that changes links.
#[derive(Clone, Debug, PartialEq)]
pub enum LinkStatement {
    Insert(Insert),
    Update(Update),
    Delete(Delete),
}

/// A statement that changes links, with its names as texts.
pub enum LinkStatementView {
    Insert(InsertView),
    Update(UpdateView),
    Delete(DeleteView),
}

impl View for LinkStatement {
    type V = LinkStatementView;

    open spec fn view(&self) -> LinkStatementView {
        match self {
            LinkStatement::Insert(i) => LinkStatementView::Insert(i@),
            LinkStatement::Update(u) => LinkStatementView::Update(u@),
            LinkStatement::Delete(d) => LinkStatementView::Delete(d@),
        }
    }
}

/// The condition that a column holds an id.
pub open spec fn holds(column: ColumnName, id: GraphqlId) -> ComparisonView {
    ComparisonView::Equals { column: column@, value: id }
}

/// The update that sets the link column to `value` in the rows that meet
/// the conditions.
pub open spec fn set_link(
    table: TableName,
    link: ColumnName,
    value: PrismaValue,
    conditions: Seq<ComparisonView>,
) -> LinkStatementView {
    LinkStatementView::Update(
        UpdateView {
            table: table@,
            assignments: seq![Assignment { column: link.name@, value }],
            conditions,
        },
    )
}

/// The delete of the rows of a join table that meet the conditions.
pub open spec fn unlink_rows(table: TableName, conditions: Seq<ComparisonView>) -> LinkStatementView {
    LinkStatementView::Delete(DeleteView { table: table@, conditions })
}

/// The statement that links parent and child. In a join table it inserts
/// their row, unless it is there. In a column, the record that holds the
/// link gets the id of the other.
pub open spec fn link_statement(
    storage: &RelationStorage,
    parent_id: GraphqlId,
    child_id: GraphqlId,
    fresh: Seq<String>,
) -> LinkStatementView {
    match storage {
        RelationStorage::Table(columns) => LinkStatementView::Insert(
            relation_insert(columns, parent_id, seq![child_id], fresh),
        ),
        RelationStorage::Inline { table, id, link, parent_holds } => if *parent_holds {
            set_link(*table, *link, PrismaValue::GraphqlId(child_id), seq![holds(*id, parent_id)])
        } else {
            set_link(*table, *link, PrismaValue::GraphqlId(parent_id), seq![holds(*id, child_id)])
        },
    }
}

/// The statement that removes every link of the parent.
pub open spec fn unlink_parent(storage: &RelationStorage, parent_id: GraphqlId) -> LinkStatementView {
    match storage {
        RelationStorage::Table(columns) => unlink_rows(
            columns.table,
            seq![holds(columns.parent_column, parent_id)],
        ),
        RelationStorage::Inline { table, id, link, parent_holds } => set_link(
            *table,
            *link,
            PrismaValue::Null,
            seq![
                holds(
                    if *parent_holds {
                        *id
                    } else {
                        *link
                    },
                    parent_id,
                ),
            ],
        ),
    }
}

/// The statement that removes every link of the child.
pub open spec fn unlink_child(storage: &RelationStorage, child_id: GraphqlId) -> LinkStatementView {
    match storage {
        RelationStorage::Table(columns) => unlink_rows(
            columns.table,
            seq![holds(columns.child_column, child_id)],
        ),
        RelationStorage::Inline { table, id, link, parent_holds } => set_link(
            *table,
            *link,
            PrismaValue::Null,
            seq![
                holds(
                    if *parent_holds {
                        *link
                    } else {
                        *id
                    },
                    child_id,
                ),
            ],
        ),
    }
}

/// The conditions that a row links the parent with the child.
pub open spec fn links_both(
    storage: &RelationStorage,
    parent_id: GraphqlId,
    child_id: GraphqlId,
) -> Seq<ComparisonView> {
    match storage {
        RelationStorage::Table(columns) => seq![
            holds(columns.parent_column, parent_id),
            holds(columns.child_column, child_id),
        ],
        RelationStorage::Inline { table, id, link, parent_holds } => if *parent_holds {
            seq![holds(*id, parent_id), holds(*link, child_id)]
        } else {
            seq![holds(*id, child_id), holds(*link, parent_id)]
        },
    }
}

/// The conditions that a row links the parent with some child.
pub open spec fn links_parent(storage: &RelationStorage, parent_id: GraphqlId) -> Seq<
    ComparisonView,
> {
    match storage {
        RelationStorage::Table(columns) => seq![holds(columns.parent_column, parent_id)],
        RelationStorage::Inline { table, id, link, parent_holds } => if *parent_holds {
            seq![holds(*id, parent_id), ComparisonView::IsNotNull { column: link@ }]
        } else {
            seq![holds(*link, parent_id)]
        },
    }
}

/// The statement that removes the link between the parent and the child.
pub open spec fn unlink_both(
    storage: &RelationStorage,
    parent_id: GraphqlId,
    child_id: GraphqlId,
) -> LinkStatementView {
    match storage {
        RelationStorage::Table(columns) => unlink_rows(
            columns.table,
            links_both(storage, parent_id, child_id),
        ),
        RelationStorage::Inline { table, id, link, parent_holds } => set_link(
            *table,
            *link,
            PrismaValue::Null,
            links_both(storage, parent_id, child_id),
        ),
    }
}

fn equals(column: &ColumnName, id: &GraphqlId) -> (r: Comparison)
    ensures
        r@ == holds(*column, *id),
{
    Comparison::Equals { column: column.duplicate(), value: id.duplicate() }
}

fn one(c: Comparison) -> (r: Vec<Comparison>)
    ensures
        comparison_views(r@) == seq![c@],
{
    let mut v: Vec<Comparison> = Vec::new();
    v.push(c);
    v
}

fn two(a: Comparison, b: Comparison) -> (r: Vec<Comparison>)
    ensures
        comparison_views(r@) == seq![a@, b@],
{
    let mut v: Vec<Comparison> = Vec::new();
    v.push(a);
    v.push(b);
    v
}

fn make_set_link(
    table: &TableName,
    link: &ColumnName,
    value: PrismaValue,
    conditions: Vec<Comparison>,
) -> (r: LinkStatement)
    ensures
        r@ == set_link(*table, *link, value, comparison_views(conditions@)),
{
    let mut assignments: Vec<Arg> = Vec::new();
    assignments.push(Arg { name: link.name.clone(), value });
    let u = Update { table: table.duplicate(), assignments, conditions };
    assert(u@.assignments =~= seq![Assignment { column: link.name@, value }]);
    LinkStatement::Update(u)
}

/// Builds the conditions that a row links the parent with the child.
pub fn both_linked(storage: &RelationStorage, parent_id: &GraphqlId, child_id: &GraphqlId) -> (r:
    Vec<Comparison>)
    ensures
        comparison_views(r@) == links_both(storage, *parent_id, *child_id),
{
    match storage {
        RelationStorage::Table(columns) => two(
            equals(&columns.parent_column, parent_id),
            equals(&columns.child_column, child_id),
        ),
        RelationStorage::Inline { table, id, link, parent_holds } => if *parent_holds {
            two(equals(id, parent_id), equals(link, child_id))
        } else {
            two(equals(id, child_id), equals(link, parent_id))
        },
    }
}

/// Builds the conditions that a row links the parent with some child.
pub fn parent_linked(storage: &RelationStorage, parent_id: &GraphqlId) -> (r: Vec<Comparison>)
    ensures
        comparison_views(r@) == links_parent(storage, *parent_id),
{
    match storage {
        RelationStorage::Table(columns) => one(equals(&columns.parent_column, parent_id)),
        RelationStorage::Inline { table, id, link, parent_holds } => if *parent_holds {
            two(equals(id, parent_id), Comparison::IsNotNull { column: link.duplicate() })
        } else {
            one(equals(link, parent_id))
        },
    }
}

/// Builds the statement that links parent and child, with the given fresh
/// id for the row of a join table that has an id column.
pub fn create_relation_with(
    storage: &RelationStorage,
    parent_id: &GraphqlId,
    child_id: &GraphqlId,
    fresh: &Vec<String>,
) -> (r: LinkStatement)
    requires
        storage matches RelationStorage::Table(columns) && columns.id_column is Some
            ==> fresh@.len() == 1,
    ensures
        r@ == link_statement(storage, *parent_id, *child_id, fresh@),
{
    match storage {
        RelationStorage::Table(columns) => {
            let mut children: Vec<GraphqlId> = Vec::new();
            children.push(child_id.duplicate());
            LinkStatement::Insert(
                create_relation_table_records_with(columns, parent_id, &children, fresh),
            )
        },
        RelationStorage::Inline { table, id, link, parent_holds } => if *parent_holds {
            make_set_link(
                table,
                link,
                PrismaValue::GraphqlId(child_id.duplicate()),
                one(equals(id, parent_id)),
            )
        } else {
            make_set_link(
                table,
                link,
                PrismaValue::GraphqlId(parent_id.duplicate()),
                one(equals(id, child_id)),
            )
        },
    }
}

/// Builds the statement that removes every link of the parent.
pub fn removal_by_parent(storage: &RelationStorage, parent_id: &GraphqlId) -> (r: LinkStatement)
    ensures
        r@ == unlink_parent(storage, *parent_id),
{
    match storage {
        RelationStorage::Table(columns) => LinkStatement::Delete(
            Delete {
                table: columns.table.duplicate(),
                conditions: one(equals(&columns.parent_column, parent_id)),
            },
        ),
        RelationStorage::Inline { table, id, link, parent_holds } => {
            let by = if *parent_holds {
                id
            } else {
                link
            };
            make_set_link(table, link, PrismaValue::Null, one(equals(by, parent_id)))
        },
    }
}

/// Builds the statement that removes every link of the child.
pub fn removal_by_child(storage: &RelationStorage, child_id: &GraphqlId) -> (r: LinkStatement)
    ensures
        r@ == unlink_child(storage, *child_id),
{
    match storage {
        RelationStorage::Table(columns) => LinkStatement::Delete(
            Delete {
                table: columns.table.duplicate(),
                conditions: one(equals(&columns.child_column, child_id)),
            },
        ),
        RelationStorage::Inline { table, id, link, parent_holds } => {
            let by = if *parent_holds {
                link
            } else {
                id
            };
            make_set_link(table, link, PrismaValue::Null, one(equals(by, child_id)))
        },
    }
}

/// Builds the statement that removes the link between parent and child.
pub fn removal_by_parent_and_child(
    storage: &RelationStorage,
    parent_id: &GraphqlId,
    child_id: &GraphqlId,
) -> (r: LinkStatement)
    ensures
        r@ == unlink_both(storage, *parent_id, *child_id),
{
    let conditions = both_linked(storage, parent_id, child_id);
    match storage {
        RelationStorage::Table(columns) => LinkStatement::Delete(
            Delete { table: columns.table.duplicate(), conditions },
        ),
        RelationStorage::Inline { table, id, link, parent_holds } => make_set_link(
            table,
            link,
            PrismaValue::Null,
            conditions,
        ),
    }
}

/// Builds the statement that links parent and child. The row of a join
/// table that has an id column gets a fresh id.
pub fn create_relation(storage: &RelationStorage, parent_id: &GraphqlId, child_id: &GraphqlId) -> (r:
    LinkStatement)
    ensures
        exists|fresh: Seq<String>| r@ == link_statement(storage, *parent_id, *child_id, fresh),
{
    match storage {
        RelationStorage::Table(columns) => {
            let mut children: Vec<GraphqlId> = Vec::new();
            children.push(child_id.duplicate());
            let insert = create_relation_table_records(columns, parent_id, &children);
            let r = LinkStatement::Insert(insert);
            proof {
                let fresh = choose|fresh: Seq<String>|
                    (columns.id_column is Some ==> fresh.len() == children@.len()) && insert@
                        == relation_insert(columns, *parent_id, children@, fresh);
                assert(r@ == link_statement(storage, *parent_id, *child_id, fresh));
            }
            r
        },
        RelationStorage::Inline { .. } => {
            let none: Vec<String> = Vec::new();
            let r = create_relation_with(storage, parent_id, child_id, &none);
            r
        },
    }
}

/// Whether `s` is where the links of the relation are kept, seen from the
/// side of the parent. A relation with a table of its own keeps them in
/// that table, with the column of the parent's side as the parent's. A
/// relation in a column keeps them in the table of the model on whose side
/// the column lies, beside the id of that model.
pub open spec fn is_storage_of(
    dm: &Datamodel,
    holder: &TempRelationHolder,
    parent_side: RelationSide,
    database: Seq<char>,
    s: &RelationStorage,
) -> bool {
    match holder.manifestation {
        TempManifestationHolder::Table { id_column } => {
            &&& s matches RelationStorage::Table(c)
            &&& c.table@ == (TableNameView {
                database: Some(database),
                name: holder.deep_view().table_name(),
            })
            &&& c.parent_column@ == (ColumnNameView {
                table: Some(c.table@),
                name: match parent_side {
                    RelationSide::A => "A"@,
                    RelationSide::B => "B"@,
                },
                alias: None,
            })
            &&& c.child_column@ == (ColumnNameView {
                table: Some(c.table@),
                name: match parent_side {
                    RelationSide::A => "B"@,
                    RelationSide::B => "A"@,
                },
                alias: None,
            })
            &&& c.id_column is Some <==> id_column is Some
            &&& c.id_column matches Some(x) ==> x@ == (ColumnNameView {
                table: Some(c.table@),
                name: id_column->Some_0@,
                alias: None,
            })
        },
        TempManifestationHolder::Inline { side, in_table_of_model, column } => {
            let m = dm.models@[match side {
                RelationSide::A => holder.model_a as int,
                RelationSide::B => holder.model_b as int,
            }];
            &&& s matches RelationStorage::Inline { table, id, link, parent_holds }
            &&& table@ == model_table(&m, database)
            &&& id@ == field_column(&m, database, &m.id_field_spec())
            &&& link@ == (ColumnNameView { table: Some(table@), name: column@, alias: None })
            &&& parent_holds == (side == parent_side)
        },
    }
}

/// Whether the model that keeps the column of an inline relation is in the
/// data model and has an id field.
pub open spec fn can_be_stored(dm: &Datamodel, holder: &TempRelationHolder) -> bool {
    match holder.manifestation {
        TempManifestationHolder::Table { .. } => true,
        TempManifestationHolder::Inline { side, in_table_of_model, column } => {
            let i = match side {
                RelationSide::A => holder.model_a as int,
                RelationSide::B => holder.model_b as int,
            };
            i < dm.models@.len() && dm.models@[i].has_id_field()
        },
    }
}

/// Where the links of a relation are kept, seen from the side of the
/// parent; nothing where the model that keeps the column cannot be found
/// or has no id.
pub fn storage_of(
    dm: &Datamodel,
    holder: &TempRelationHolder,
    parent_side: RelationSide,
    database: &str,
) -> (r: Option<RelationStorage>)
    ensures
        r is Some <==> can_be_stored(dm, holder),
        r matches Some(s) ==> is_storage_of(dm, holder, parent_side, database@, &s),
{
    match &holder.manifestation {
        TempManifestationHolder::Table { id_column } => {
            let table = RelationTable {
                table: holder.table_name(),
                model_a_column: holder.model_a_column(),
                model_b_column: holder.model_b_column(),
                id_column: match id_column {
                    Some(c) => Some(c.clone()),
                    None => None,
                },
            };
            Some(RelationStorage::Table(RelationColumns::of_side(&table, parent_side, database)))
        },
        TempManifestationHolder::Inline { side, in_table_of_model, column } => {
            let i = match side {
                RelationSide::A => holder.model_a,
                RelationSide::B => holder.model_b,
            };
            if i >= dm.models.len() {
                return None;
            }
            let m = &dm.models[i];
            match m.id_field() {
                Some(id) => {
                    let table = as_table(m, database);
                    let parent_holds = match (side, parent_side) {
                        (RelationSide::A, RelationSide::A) => true,
                        (RelationSide::B, RelationSide::B) => true,
                        _ => false,
                    };
                    Some(
                        RelationStorage::Inline {
                            id: as_column(m, database, id),
                            link: ColumnName {
                                table: Some(table.duplicate()),
                                name: column.clone(),
                                alias: None,
                            },
                            table,
                            parent_holds,
                        },
                    )
                },
                None => None,
            }
        },
    }
}

/// The columns under which the ids of parent and child stand where the
/// links are kept. For a relation in a column the record that holds the
/// link stands under its id column and the other under the link column.
pub open spec fn parent_and_child_columns(storage: &RelationStorage) -> (
    TableNameView,
    ColumnNameView,
    ColumnNameView,
) {
    match storage {
        RelationStorage::Table(c) => (c.table@, c.parent_column@, c.child_column@),
        RelationStorage::Inline { table, id, link, parent_holds } => if *parent_holds {
            (table@, id@, link@)
        } else {
            (table@, link@, id@)
        },
    }
}

/// The table and columns under which the ids of parent and child stand.
pub fn columns_of(storage: &RelationStorage) -> (r: RelationColumns)
    ensures
        (r.table@, r.parent_column@, r.child_column@) == parent_and_child_columns(storage),
        r.id_column is Some <==> (storage matches RelationStorage::Table(c) && c.id_column is Some),
{
    match storage {
        RelationStorage::Table(c) => RelationColumns {
            table: c.table.duplicate(),
            parent_column: c.parent_column.duplicate(),
            child_column: c.child_column.duplicate(),
            id_column: match &c.id_column {
                Some(x) => Some(x.duplicate()),
                None => None,
            },
        },
        RelationStorage::Inline { table, id, link, parent_holds } => {
            let (parent, child) = if *parent_holds {
                (id, link)
            } else {
                (link, id)
            };
            RelationColumns {
                table: table.duplicate(),
                parent_column: parent.duplicate(),
                child_column: child.duplicate(),
                id_column: None,
            }
        },
    }
}

/// The side on which a relation field stands in a relation: side A where
/// the field is the field of model A, else side B where it is the field of
/// model B; none where it is neither or the relation has another name.
pub open spec fn side_of(dm: &Datamodel, holder: &TempRelationHolder, field: &RelationFieldRef) -> Option<
    RelationSide,
> {
    if holder.name@ != field.relation_name@ || holder.model_a >= dm.models@.len()
        || holder.model_b >= dm.models@.len() || holder.field_a
        >= dm.models@[holder.model_a as int].fields@.len() || holder.field_b
        >= dm.models@[holder.model_b as int].fields@.len() {
        None
    } else if holder.model_a_name@ == field.model@
        && dm.models@[holder.model_a as int].fields@[holder.field_a as int].name@ == field.name@ {
        Some(RelationSide::A)
    } else if holder.model_b_name@ == field.model@
        && dm.models@[holder.model_b as int].fields@[holder.field_b as int].name@ == field.name@ {
        Some(RelationSide::B)
    } else {
        None
    }
}

/// Position of the first relation in which the field stands; the number of
/// relations if it stands in none.
pub open spec fn relation_index(
    dm: &Datamodel,
    relations: Seq<TempRelationHolder>,
    field: &RelationFieldRef,
) -> int {
    first_index(relations.len() as int, |k: int| side_of(dm, &relations[k], field) is Some)
}

fn find_side(dm: &Datamodel, holder: &TempRelationHolder, field: &RelationFieldRef) -> (r: Option<
    RelationSide,
>)
    ensures
        r == side_of(dm, holder, field),
{
    if !same_text(holder.name.as_str(), field.relation_name.as_str()) || holder.model_a
        >= dm.models.len() || holder.model_b >= dm.models.len() {
        return None;
    }
    let a = &dm.models[holder.model_a];
    let b = &dm.models[holder.model_b];
    if holder.field_a >= a.fields.len() || holder.field_b >= b.fields.len() {
        return None;
    }
    if same_text(holder.model_a_name.as_str(), field.model.as_str()) && same_text(
        a.fields[holder.field_a].name.as_str(),
        field.name.as_str(),
    ) {
        Some(RelationSide::A)
    } else if same_text(holder.model_b_name.as_str(), field.model.as_str()) && same_text(
        b.fields[holder.field_b].name.as_str(),
        field.name.as_str(),
    ) {
        Some(RelationSide::B)
    } else {
        None
    }
}

/// The relation of a relation field among the given relations, by its
/// position, and the side on which the field stands in it.
pub fn relation_of(
    dm: &Datamodel,
    relations: &Vec<TempRelationHolder>,
    field: &RelationFieldRef,
) -> (r: Option<(usize, RelationSide)>)
    ensures
        match r {
            Some((k, side)) => k == relation_index(dm, relations@, field) && k < relations@.len()
                && Some(side) == side_of(dm, &relations@[k as int], field),
            None => relation_index(dm, relations@, field) == relations@.len(),
        },
{
    let ghost p = |k: int| side_of(dm, &relations@[k], field) is Some;
    let mut k: usize = 0;
    while k < relations.len()
        invariant
            0 <= k <= relations@.len(),
            p == (|k: int| side_of(dm, &relations@[k], field) is Some),
            forall|j: int| 0 <= j < k ==> !#[trigger] p(j),
        decreases relations@.len() - k,
    {
        if let Some(side) = find_side(dm, &relations[k], field) {
            proof {
                lemma_first_index_unique(relations@.len() as int, p, k as int);
            }
            return Some((k, side));
        }
        k = k + 1;
    }
    proof {
        lemma_first_index_unique(relations@.len() as int, p, k as int);
    }
    None
}

} // verus!
