//! Builds the selects of reads: the columns of a selection, the ids of the
//! records that a filter meets, and the records related to a set of parents.

use crate::query_builder::RelationColumns;
use crate::read_ast::{OrderBy, QueryArguments, SelectedFields, SortOrder, Window};
use crate::seqs::concat_range;
use crate::sql::{ColumnName, ColumnNameView, Comparison, TableName, TableNameView};
use crate::values::{GraphqlId, PrismaValue};
use crate::write_ast::Filter;
use vstd::prelude::*;
use vstd::string::StringExecFns;

verus! {

/// The alias of the join table in the select of related records.
pub open spec fn table_alias() -> Seq<char> {
    "RelationTable"@
}

/// The alias under which the id of the related record is selected.
pub open spec fn related_model_alias() -> Seq<char> {
    "__RelatedModel__"@
}

/// The alias under which the id of the parent is selected.
pub open spec fn parent_model_alias() -> Seq<char> {
    "__ParentModel__"@
}

/// A column of the table `table`.
pub open spec fn column_of(table: TableNameView, name: Seq<char>) -> ColumnNameView {
    ColumnNameView { table: Some(table), name, alias: None }
}

/// A column of the join table, under its alias, selected as `alias`.
pub open spec fn aliased_relation_column(name: Seq<char>, alias: Seq<char>) -> ColumnNameView {
    ColumnNameView {
        table: Some(TableNameView { database: None, name: table_alias() }),
        name,
        alias: Some(alias),
    }
}

/// The column of the scalar field at `i`, unless the field is a list.
pub open spec fn scalar_column(fields: &SelectedFields, table: TableNameView, i: int) -> Seq<
    ColumnNameView,
> {
    let f = fields.scalar@[i];
    if f.is_list {
        Seq::empty()
    } else {
        seq![column_of(table, f.db_name@)]
    }
}

/// The columns of the first `n` scalar fields of a selection.
pub open spec fn scalar_columns_upto(fields: &SelectedFields, table: TableNameView, n: int) -> Seq<
    ColumnNameView,
> {
    concat_range(n, |i: int| scalar_column(fields, table, i))
}

/// The columns of the first `n` inlined relation fields of a selection.
pub open spec fn inlined_columns_upto(fields: &SelectedFields, table: TableNameView, n: int) -> Seq<
    ColumnNameView,
> {
    Seq::new(n as nat, |i: int| column_of(table, fields.relation_inlined@[i].db_name@))
}

/// The two columns of the join table that a selection reached through a
/// relation field adds: the id of the related record and the id of the
/// parent, each under its alias.
pub open spec fn relation_columns(relation: Option<RelationColumns>) -> Seq<ColumnNameView> {
    match relation {
        Some(r) => seq![
            aliased_relation_column(r.child_column.name@, related_model_alias()),
            aliased_relation_column(r.parent_column.name@, parent_model_alias()),
        ],
        None => Seq::empty(),
    }
}

/// The columns of a selection: those of its scalar fields that are no
/// lists, those of its inlined relation fields, and, where it is reached
/// through a relation, the two of the join table.
pub open spec fn selected_columns(
    fields: &SelectedFields,
    table: TableNameView,
    relation: Option<RelationColumns>,
) -> Seq<ColumnNameView> {
    scalar_columns_upto(fields, table, fields.scalar@.len() as int) + inlined_columns_upto(
        fields,
        table,
        fields.relation_inlined@.len() as int,
    ) + relation_columns(relation)
}

/// The columns with their names as texts.
pub open spec fn column_views(v: Seq<ColumnName>) -> Seq<ColumnNameView> {
    Seq::new(v.len(), |i: int| v[i]@)
}

fn make_column(table: &TableName, name: &String) -> (r: ColumnName)
    ensures
        r@ == column_of(table@, name@),
{
    ColumnName { table: Some(table.duplicate()), name: name.clone(), alias: None }
}

fn make_aliased(name: &String, alias: &str) -> (r: ColumnName)
    ensures
        r@ == aliased_relation_column(name@, alias@),
{
    ColumnName {
        table: Some(TableName { database: None, name: String::from_str("RelationTable") }),
        name: name.clone(),
        alias: Some(String::from_str(alias)),
    }
}

/// The columns of a selection of the records in `table`. `relation` is the
/// join table through which the records are reached, seen from the parent.
pub fn columns(fields: &SelectedFields, table: &TableName, relation: Option<&RelationColumns>) -> (r:
    Vec<ColumnName>)
    requires
        relation is Some <==> fields.from_field is Some,
    ensures
        column_views(r@) == selected_columns(
            fields,
            table@,
            match relation {
                Some(x) => Some(*x),
                None => None,
            },
        ),
{
    let mut result: Vec<ColumnName> = Vec::new();
    let mut i: usize = 0;
    while i < fields.scalar.len()
        invariant
            0 <= i <= fields.scalar@.len(),
            column_views(result@) == scalar_columns_upto(fields, table@, i as int),
        decreases fields.scalar@.len() - i,
    {
        let f = &fields.scalar[i];
        if !f.is_list {
            let c = make_column(table, &f.db_name);
            result.push(c);
        }
        i = i + 1;
    }
    let ghost scalars = column_views(result@);
    let mut j: usize = 0;
    while j < fields.relation_inlined.len()
        invariant
            0 <= j <= fields.relation_inlined@.len(),
            column_views(result@) == scalars + inlined_columns_upto(fields, table@, j as int),
        decreases fields.relation_inlined@.len() - j,
    {
        let ghost before = column_views(result@);
        let c = make_column(table, &fields.relation_inlined[j].db_name);
        result.push(c);
        assert(column_views(result@) =~= before + seq![c@]);
        j = j + 1;
    }
    if let Some(r) = relation {
        let c1 = make_aliased(&r.child_column.name, "__RelatedModel__");
        let c2 = make_aliased(&r.parent_column.name, "__ParentModel__");
        result.push(c1);
        result.push(c2);
    }
    result
}

/// How the rows that a cursor keeps compare with the row of the cursor.
#[derive(Clone, Copy, Debug, PartialEq, Eq, Structural)]
pub enum CursorComparison {
    GreaterOrEqual,
    LessOrEqual,
}

/// The condition of a cursor: the rows whose value in the order column
/// compares as said with the value that the row with the cursor's id has
/// there.
#[derive(Clone, Debug, PartialEq)]
pub struct CursorCondition {
    pub table: TableName,
    pub id_column: ColumnName,
    pub cursor: GraphqlId,
    pub order_column: ColumnName,
    pub comparison: CursorComparison,
}

/// One condition of a select.
#[derive(Debug, PartialEq)]
pub enum SelectCondition<'a> {
    /// The records meet the filter.
    Filter(&'a Filter),
    /// The column holds one of the ids.
    In { column: ColumnName, ids: Vec<GraphqlId> },
    /// The column holds one of the values that the select gives.
    InSelect { column: ColumnName, select: Box<Select<'a>> },
    /// The column holds the value.
    Equals { column: ColumnName, value: PrismaValue },
    /// The column meets the comparison.
    Compare(Comparison),
    /// The row stands at or behind the row of a cursor.
    Cursor(CursorCondition),
}

/// One column by which the rows are ordered.
#[derive(Clone, Debug, PartialEq)]
pub struct OrderColumn {
    pub column: ColumnName,
    pub descending: bool,
}

/// A select of the rows of a table that meet all conditions.
#[derive(Debug, PartialEq)]
pub struct Select<'a> {
    pub table: TableName,
    pub columns: Vec<ColumnName>,
    pub conditions: Vec<SelectCondition<'a>>,
    pub ordering: Vec<OrderColumn>,
    pub limit: Option<usize>,
}

/// Selects the ids of the records of a table that meet a filter.
pub fn filter_ids<'a>(table: TableName, id_column: ColumnName, filter: &'a Filter) -> (r: Select<'a>)
    ensures
        r.table == table,
        r.columns@ == seq![id_column],
        r.conditions@ == seq![SelectCondition::Filter(filter)],
        r.ordering@.len() == 0,
        r.limit is None,
{
    let mut columns: Vec<ColumnName> = Vec::new();
    columns.push(id_column);
    let mut conditions: Vec<SelectCondition<'a>> = Vec::new();
    conditions.push(SelectCondition::Filter(filter));
    Select { table, columns, conditions, ordering: Vec::new(), limit: None }
}

/// Selects the given columns of the records of a table whose column
/// `finder_column` holds the value.
pub fn get_records<'a>(
    table: TableName,
    columns: Vec<ColumnName>,
    finder_column: ColumnName,
    value: PrismaValue,
) -> (r: Select<'a>)
    ensures
        r.table == table,
        r.columns == columns,
        r.conditions@ == seq![SelectCondition::Equals { column: finder_column, value }],
        r.ordering@.len() == 0,
        r.limit is None,
{
    let mut conditions: Vec<SelectCondition<'a>> = Vec::new();
    conditions.push(SelectCondition::Equals { column: finder_column, value });
    Select { table, columns, conditions, ordering: Vec::new(), limit: None }
}

/// The select cut down to its first row.
pub fn first_row_of<'a>(select: Select<'a>) -> (r: Select<'a>)
    ensures
        r.table == select.table,
        r.columns == select.columns,
        r.conditions == select.conditions,
        r.ordering == select.ordering,
        r.limit == Some(1usize),
{
    let Select { table, columns, conditions, ordering, limit: _ } = select;
    Select { table, columns, conditions, ordering, limit: Some(1) }
}

/// Whether the condition says that the column holds one of the ids.
pub open spec fn is_in_ids(c: SelectCondition, column: ColumnNameView, ids: Seq<GraphqlId>) -> bool {
    &&& c matches SelectCondition::In { column: x, ids: y }
    &&& x@ == column
    &&& y@ == ids
}

/// Whether the condition says that the column `name` holds one of the child
/// ids that the join table holds for the parents.
pub open spec fn is_among_children(
    c: SelectCondition,
    relation: &RelationColumns,
    name: Seq<char>,
    parent_ids: Seq<GraphqlId>,
) -> bool {
    &&& c matches SelectCondition::InSelect { column, select }
    &&& column@ == (ColumnNameView { table: None, name, alias: None })
    &&& select.table@ == relation.table@
    &&& select.columns@.len() == 1
    &&& select.columns@[0]@ == relation.child_column@
    &&& select.conditions@.len() == 1
    &&& is_in_ids(select.conditions@[0], relation.parent_column@, parent_ids)
    &&& select.ordering@.len() == 0
    &&& select.limit is None
}

/// Selects the ids of the children of the given parents: the records of
/// the child table whose id is among the child ids that the join table
/// holds for the parents, and which meet the filter if there is one.
pub fn filter_ids_by_parents<'a>(
    relation: &RelationColumns,
    child_table: TableName,
    child_id_column: ColumnName,
    parent_ids: Vec<GraphqlId>,
    selector: Option<&'a Filter>,
) -> (r: Select<'a>)
    ensures
        r.table == child_table,
        r.columns@ == seq![child_id_column],
        r.ordering@.len() == 0,
        r.limit is None,
        r.conditions@.len() == (if selector is Some {
            2int
        } else {
            1int
        }),
        is_among_children(r.conditions@[0], relation, child_id_column.name@, parent_ids@),
        selector matches Some(f) ==> r.conditions@[1] == SelectCondition::Filter(f),
{
    let mut sub_columns: Vec<ColumnName> = Vec::new();
    sub_columns.push(relation.child_column.duplicate());
    let mut sub_conditions: Vec<SelectCondition<'a>> = Vec::new();
    sub_conditions.push(
        SelectCondition::In { column: relation.parent_column.duplicate(), ids: parent_ids },
    );
    let subselect = Select {
        table: relation.table.duplicate(),
        columns: sub_columns,
        conditions: sub_conditions,
        ordering: Vec::new(),
        limit: None,
    };
    let mut conditions: Vec<SelectCondition<'a>> = Vec::new();
    conditions.push(
        SelectCondition::InSelect {
            column: ColumnName { table: None, name: child_id_column.name.clone(), alias: None },
            select: Box::new(subselect),
        },
    );
    if let Some(f) = selector {
        conditions.push(SelectCondition::Filter(f));
    }
    let mut columns: Vec<ColumnName> = Vec::new();
    columns.push(child_id_column);
    Select { table: child_table, columns, conditions, ordering: Vec::new(), limit: None }
}

/// What a select of related records starts from.
#[derive(Debug, PartialEq)]
pub struct ManyRelatedRecordsBaseQuery<'a> {
    /// The join table, seen from the parent.
    pub relation: RelationColumns,
    pub from_record_ids: Vec<GraphqlId>,
    /// The select of the related records, joined with the join table.
    pub query: Select<'a>,
    pub order_by: Option<OrderBy>,
    pub is_reverse_order: bool,
    /// The conditions of the filter.
    pub condition: Vec<SelectCondition<'a>>,
    /// The conditions of the cursor.
    pub cursor: Vec<SelectCondition<'a>>,
}

/// How the related records of many parents are selected when the query
/// pages.
#[derive(Clone, Copy, Debug, PartialEq, Eq, Structural)]
pub enum ManyRelatedRecordsStrategy {
    /// With a row number counted within the records of each parent.
    RowNumber,
    /// With one select for each parent, united.
    UnionAll,
}

/// A column of the join table under its alias.
pub open spec fn relation_table_column(name: Seq<char>) -> ColumnNameView {
    ColumnNameView {
        table: Some(TableNameView { database: None, name: table_alias() }),
        name,
        alias: None,
    }
}

/// The order of related records: first by the field that the query names,
/// then by the id of the related record in the join table. Read from the
/// end, both directions turn.
pub open spec fn internal_order(
    second: ColumnNameView,
    order_by: Option<OrderBy>,
    reverse: bool,
) -> Seq<(ColumnNameView, bool)> {
    match order_by {
        Some(o) => seq![
            (
                ColumnNameView { table: None, name: o.field@, alias: None },
                (o.sort_order == SortOrder::Descending) != reverse,
            ),
            (second, reverse),
        ],
        None => seq![(second, reverse)],
    }
}

/// The order columns with their names as texts.
pub open spec fn ordering_views(v: Seq<OrderColumn>) -> Seq<(ColumnNameView, bool)> {
    Seq::new(v.len(), |i: int| (v[i].column@, v[i].descending))
}

/// Whether `r` is the select for a query that does not page: the select
/// of the base with the conditions that a parent is among the given ones,
/// of filter and of cursor, in the internal order.
pub open spec fn is_unpaged_select(base: &ManyRelatedRecordsBaseQuery, r: &Select) -> bool {
    &&& r.table == base.query.table
    &&& r.columns == base.query.columns
    &&& r.limit == base.query.limit
    &&& r.conditions@.len() == base.query.conditions@.len() + 1 + base.condition@.len()
        + base.cursor@.len()
    &&& r.conditions@.take(base.query.conditions@.len() as int) == base.query.conditions@
    &&& is_in_ids(
        r.conditions@[base.query.conditions@.len() as int],
        relation_table_column(base.relation.parent_column.name@),
        base.from_record_ids@,
    )
    &&& r.conditions@.skip(base.query.conditions@.len() as int + 1) == base.condition@
        + base.cursor@
    &&& ordering_views(r.ordering@) == ordering_views(base.query.ordering@) + internal_order(
        relation_table_column(base.relation.child_column.name@),
        base.order_by,
        base.is_reverse_order,
    )
}

/// The select of the related records of the given parents for a query that
/// does not page: the records whose parent column in the join table holds
/// one of the parent ids and which meet the conditions of filter and
/// cursor, in the internal order.
#[verifier::rlimit(40)]
pub fn without_pagination<'a>(base: ManyRelatedRecordsBaseQuery<'a>) -> (r: Select<'a>)
    ensures
        is_unpaged_select(&base, &r),
{
    let ManyRelatedRecordsBaseQuery {
        relation,
        from_record_ids,
        query,
        order_by,
        is_reverse_order,
        condition,
        cursor,
    } = base;
    let Select { table, columns, conditions, ordering, limit } = query;
    let mut conditions = conditions;
    let mut ordering = ordering;
    let mut condition = condition;
    let mut cursor = cursor;
    let ghost c0 = conditions@;
    let ghost o0 = ordering_views(ordering@);
    conditions.push(
        SelectCondition::In {
            column: ColumnName {
                table: Some(TableName { database: None, name: String::from_str("RelationTable") }),
                name: relation.parent_column.name.clone(),
                alias: None,
            },
            ids: from_record_ids,
        },
    );
    conditions.append(&mut condition);
    conditions.append(&mut cursor);
    let second = ColumnName {
        table: Some(TableName { database: None, name: String::from_str("RelationTable") }),
        name: relation.child_column.name.clone(),
        alias: None,
    };
    match order_by {
        Some(o) => {
            let descending = match o.sort_order {
                SortOrder::Descending => !is_reverse_order,
                SortOrder::Ascending => is_reverse_order,
            };
            ordering.push(
                OrderColumn {
                    column: ColumnName { table: None, name: o.field.clone(), alias: None },
                    descending,
                },
            );
            ordering.push(OrderColumn { column: second, descending: is_reverse_order });
        },
        None => {
            ordering.push(OrderColumn { column: second, descending: is_reverse_order });
        },
    }
    assert(ordering_views(ordering@) =~= o0 + internal_order(
        relation_table_column(base.relation.child_column.name@),
        base.order_by,
        base.is_reverse_order,
    ));
    assert(conditions@.take(c0.len() as int) =~= c0);
    assert(conditions@.skip(c0.len() as int + 1) =~= base.condition@ + base.cursor@);
    Select { table, columns, conditions, ordering, limit }
}

/// The select of the related records of many parents for a query that
/// pages.
#[derive(Debug, PartialEq)]
pub enum PagedSelect<'a> {
    /// The rows of `select` are numbered from one within the rows of each
    /// parent, in the given order; the rows from `from_row` up to `to_row`
    /// are kept.
    RowNumber {
        select: Select<'a>,
        partition_by: ColumnName,
        order: Vec<OrderColumn>,
        from_row: u64,
        to_row: Option<u64>,
    },
    /// One select for each parent: `select` with the condition that the
    /// parent column holds the id of that parent, passing over `skip` rows
    /// and taking `take`; the selects are united.
    UnionAll {
        select: Select<'a>,
        parent_column: ColumnName,
        parent_ids: Vec<GraphqlId>,
        skip: u64,
        take: Option<u64>,
    },
}

/// Whether `r` is the select for a paging query by row numbers: the select
/// of the base with the conditions that a parent is among the given ones,
/// of filter and of cursor; rows are counted within each parent in the
/// internal order, and kept from behind those passed over up to the last
/// one taken.
pub open spec fn is_row_number_select(
    base: &ManyRelatedRecordsBaseQuery,
    w: Window,
    r: &PagedSelect,
) -> bool {
    &&& r matches PagedSelect::RowNumber { select, partition_by, order, from_row, to_row }
    &&& select.table == base.query.table
    &&& select.columns == base.query.columns
    &&& select.ordering == base.query.ordering
    &&& select.limit == base.query.limit
    &&& select.conditions@.len() == base.query.conditions@.len() + 1 + base.condition@.len()
        + base.cursor@.len()
    &&& select.conditions@.take(base.query.conditions@.len() as int) == base.query.conditions@
    &&& is_in_ids(
        select.conditions@[base.query.conditions@.len() as int],
        relation_table_column(base.relation.parent_column.name@),
        base.from_record_ids@,
    )
    &&& select.conditions@.skip(base.query.conditions@.len() as int + 1) == base.condition@
        + base.cursor@
    &&& partition_by@ == relation_table_column(base.relation.parent_column.name@)
    &&& ordering_views(order@) == internal_order(
        relation_table_column(base.relation.child_column.name@),
        base.order_by,
        base.is_reverse_order,
    )
    &&& from_row == w.skip + 1
    &&& to_row == match w.take {
        Some(t) => Some((w.skip + t) as u64),
        None => None,
    }
}

/// Whether `r` is the select for a paging query by union: for each of the
/// given parents the select of the base with the conditions of filter and
/// of cursor, in the internal order, within the window.
pub open spec fn is_union_all_select(
    base: &ManyRelatedRecordsBaseQuery,
    w: Window,
    r: &PagedSelect,
) -> bool {
    &&& r matches PagedSelect::UnionAll { select, parent_column, parent_ids, skip, take }
    &&& select.table == base.query.table
    &&& select.columns == base.query.columns
    &&& select.limit == base.query.limit
    &&& select.conditions@ == base.query.conditions@ + base.condition@ + base.cursor@
    &&& ordering_views(select.ordering@) == ordering_views(base.query.ordering@) + internal_order(
        relation_table_column(base.relation.child_column.name@),
        base.order_by,
        base.is_reverse_order,
    )
    &&& parent_column@ == relation_table_column(base.relation.parent_column.name@)
    &&& parent_ids == base.from_record_ids
    &&& skip == w.skip
    &&& take == w.take
}

fn relation_column(name: &String) -> (r: ColumnName)
    ensures
        r@ == relation_table_column(name@),
{
    ColumnName {
        table: Some(TableName { database: None, name: String::from_str("RelationTable") }),
        name: name.clone(),
        alias: None,
    }
}

fn push_internal_order(
    ordering: &mut Vec<OrderColumn>,
    second: ColumnName,
    order_by: &Option<OrderBy>,
    reverse: bool,
)
    ensures
        ordering_views(final(ordering)@) == ordering_views(old(ordering)@) + internal_order(
            second@,
            *order_by,
            reverse,
        ),
{
    match order_by {
        Some(o) => {
            let descending = match o.sort_order {
                SortOrder::Descending => !reverse,
                SortOrder::Ascending => reverse,
            };
            ordering.push(
                OrderColumn {
                    column: ColumnName { table: None, name: o.field.clone(), alias: None },
                    descending,
                },
            );
            ordering.push(OrderColumn { column: second, descending: reverse });
        },
        None => {
            ordering.push(OrderColumn { column: second, descending: reverse });
        },
    }
    assert(ordering_views(ordering@) =~= ordering_views(old(ordering)@) + internal_order(
        second@,
        *order_by,
        reverse,
    ));
}

/// The select of the related records of the given parents for a query that
/// pages, in the way of the backend: by row numbers, or by a union of one
/// select for each parent.
#[verifier::rlimit(40)]
pub fn with_pagination<'a>(
    strategy: ManyRelatedRecordsStrategy,
    base: ManyRelatedRecordsBaseQuery<'a>,
    window: Window,
) -> (r: PagedSelect<'a>)
    requires
        window.fits(),
    ensures
        strategy == ManyRelatedRecordsStrategy::RowNumber ==> is_row_number_select(
            &base,
            window,
            &r,
        ),
        strategy == ManyRelatedRecordsStrategy::UnionAll ==> is_union_all_select(
            &base,
            window,
            &r,
        ),
{
    let ManyRelatedRecordsBaseQuery {
        relation,
        from_record_ids,
        query,
        order_by,
        is_reverse_order,
        condition,
        cursor,
    } = base;
    let Select { table, columns, conditions, ordering, limit } = query;
    let mut conditions = conditions;
    let mut condition = condition;
    let mut cursor = cursor;
    let ghost c0 = conditions@;
    let parent = relation_column(&relation.parent_column.name);
    let second = relation_column(&relation.child_column.name);
    match strategy {
        ManyRelatedRecordsStrategy::RowNumber => {
            conditions.push(
                SelectCondition::In {
                    column: relation_column(&relation.parent_column.name),
                    ids: from_record_ids,
                },
            );
            conditions.append(&mut condition);
            conditions.append(&mut cursor);
            let mut order: Vec<OrderColumn> = Vec::new();
            push_internal_order(&mut order, second, &order_by, is_reverse_order);
            proof {
                assert(conditions@.take(c0.len() as int) =~= c0);
                assert(conditions@.skip(c0.len() as int + 1) =~= base.condition@ + base.cursor@);
                assert(ordering_views(order@) =~= internal_order(
                    second@,
                    order_by,
                    is_reverse_order,
                ));
            }
            PagedSelect::RowNumber {
                select: Select { table, columns, conditions, ordering, limit },
                partition_by: parent,
                order,
                from_row: window.skip + 1,
                to_row: match window.take {
                    Some(t) => Some(window.skip + t),
                    None => None,
                },
            }
        },
        ManyRelatedRecordsStrategy::UnionAll => {
            conditions.append(&mut condition);
            conditions.append(&mut cursor);
            let mut ordering = ordering;
            push_internal_order(&mut ordering, second, &order_by, is_reverse_order);
            PagedSelect::UnionAll {
                select: Select { table, columns, conditions, ordering, limit },
                parent_column: parent,
                parent_ids: from_record_ids,
                skip: window.skip,
                take: window.take,
            }
        },
    }
}

/// Which rows a cursor keeps: those from the row of the cursor on in the
/// order in which the rows are read. Read from the start, an ascending
/// order keeps the greater values and a descending one the lesser; read
/// from the end it is the other way round.
pub open spec fn cursor_comparison(sort_order: SortOrder, reverse: bool) -> CursorComparison {
    if (sort_order == SortOrder::Descending) != reverse {
        CursorComparison::LessOrEqual
    } else {
        CursorComparison::GreaterOrEqual
    }
}

/// Whether `r` is the condition of the cursor of a query on the records
/// of a table: none without cursor; else on the column that the query
/// orders by, or on the id column in ascending order where it orders by
/// none.
pub open spec fn is_cursor_condition(
    args: &QueryArguments,
    table: &TableName,
    id_column: &ColumnName,
    r: Option<CursorCondition>,
) -> bool {
    match args.cursor {
        None => r is None,
        Some(id) => {
            &&& r matches Some(c)
            &&& c.table@ == table@
            &&& c.id_column@ == id_column@
            &&& c.cursor == id
            &&& c.order_column@ == match args.order_by {
                Some(o) => column_of(table@, o.field@),
                None => id_column@,
            }
            &&& c.comparison == cursor_comparison(
                match args.order_by {
                    Some(o) => o.sort_order,
                    None => SortOrder::Ascending,
                },
                args.is_reverse_order_spec(),
            )
        },
    }
}

/// The condition of the cursor of a query on the records of a table.
pub fn cursor_condition(args: &QueryArguments, table: &TableName, id_column: &ColumnName) -> (r:
    Option<CursorCondition>)
    ensures
        is_cursor_condition(args, table, id_column, r),
{
    let id = match &args.cursor {
        Some(id) => id,
        None => {
            return None;
        },
    };
    let reverse = args.is_reverse_order();
    let (order_column, descending) = match &args.order_by {
        Some(o) => (
            make_column(table, &o.field),
            match o.sort_order {
                SortOrder::Descending => true,
                SortOrder::Ascending => false,
            },
        ),
        None => (id_column.duplicate(), false),
    };
    Some(
        CursorCondition {
            table: table.duplicate(),
            id_column: id_column.duplicate(),
            cursor: id.duplicate(),
            order_column,
            comparison: if descending != reverse {
                CursorComparison::LessOrEqual
            } else {
                CursorComparison::GreaterOrEqual
            },
        },
    )
}

/// The select of the related records of many parents.
#[derive(Debug, PartialEq)]
pub enum RelatedSelect<'a> {
    Plain(Select<'a>),
    Paged(PagedSelect<'a>),
}

/// The select of the related records of the given parents for a query with
/// the given arguments: a plain select for a query that does not page; for
/// one that pages, the select in the way of the backend, within the window
/// of the query.
pub fn related_records<'a>(
    strategy: ManyRelatedRecordsStrategy,
    base: ManyRelatedRecordsBaseQuery<'a>,
    args: &QueryArguments,
) -> (r: RelatedSelect<'a>)
    ensures
        !args.is_with_pagination_spec() ==> (r matches RelatedSelect::Plain(s)
            && is_unpaged_select(&base, &s)),
        args.is_with_pagination_spec() && strategy == ManyRelatedRecordsStrategy::RowNumber ==> (
        r matches RelatedSelect::Paged(p) && is_row_number_select(&base, args.window_spec(), &p)),
        args.is_with_pagination_spec() && strategy == ManyRelatedRecordsStrategy::UnionAll ==> (
        r matches RelatedSelect::Paged(p) && is_union_all_select(&base, args.window_spec(), &p)),
{
    if args.is_with_pagination() {
        RelatedSelect::Paged(with_pagination(strategy, base, args.window()))
    } else {
        RelatedSelect::Plain(without_pagination(base))
    }
}

} // verus!
