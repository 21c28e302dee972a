//! Builds the statements of writes: inserts, updates and deletes, with the
//! ids of a statement cut into chunks that the drivers accept.

use crate::datamodel::{Field, FieldArity, FieldType, Model, ScalarType};
use crate::error::SqlError;
use crate::lowering::is_scalar;
use crate::seqs::{concat_range, first_index, lemma_first_index_unique};
use crate::sql::{
    delete_views, in_ids, insert_views, lemma_in_ids_parameters, make_in_ids,
    update_views, Assignment, ColumnName, ColumnNameView, Comparison, ComparisonView, Delete,
    DeleteView, Insert, InsertView, TableName, TableNameView, Update, UpdateView,
};
use crate::text::concat3;
use crate::values::{Arg, GraphqlId, PrismaArgs, PrismaListValue, PrismaValue};
use vstd::prelude::*;
use vstd::string::StringExecFns;

verus! {

/// The most ids that one statement binds.
pub const PARAMETER_LIMIT: usize = 10000;

/// A fresh collision-resistant id from the cuid crate. It is made of the
/// time, a counter, the host and random numbers: nothing is known of it.
#[verifier::external_body]
fn fresh_cuid() -> (r: String) {
    cuid::cuid1()
}

/// Into how many chunks `n` ids are cut.
pub open spec fn chunk_count(n: int) -> int {
    (n + 9999) / 10000
}

/// The `k`-th chunk of the ids: up to ten thousand of them, from the
/// position `10000 * k` on.
pub open spec fn chunk(ids: Seq<GraphqlId>, k: int) -> Seq<GraphqlId> {
    ids.subrange(
        10000 * k,
        if 10000 * k + 10000 <= ids.len() {
            10000 * k + 10000
        } else {
            ids.len() as int
        },
    )
}

fn take_chunk(ids: &Vec<GraphqlId>, k: usize) -> (r: Vec<GraphqlId>)
    requires
        0 <= k < chunk_count(ids@.len() as int),
    ensures
        r@ == chunk(ids@, k as int),
        0 < r@.len() <= PARAMETER_LIMIT,
{
    let n = ids.len();
    let start = k * PARAMETER_LIMIT;
    let end = if n - start >= PARAMETER_LIMIT {
        start + PARAMETER_LIMIT
    } else {
        n
    };
    let mut out: Vec<GraphqlId> = Vec::new();
    let mut i = start;
    while i < end
        invariant
            start <= i <= end <= ids@.len(),
            out@ == ids@.subrange(start as int, i as int),
        decreases end - i,
    {
        out.push(ids[i].duplicate());
        i = i + 1;
    }
    out
}

fn count_chunks(ids: &Vec<GraphqlId>) -> (r: usize)
    ensures
        r == chunk_count(ids@.len() as int),
{
    let n = ids.len();
    if n % PARAMETER_LIMIT == 0 {
        n / PARAMETER_LIMIT
    } else {
        n / PARAMETER_LIMIT + 1
    }
}

/// The table of a model in a database.
pub open spec fn model_table(model: &Model, database: Seq<char>) -> TableNameView {
    TableNameView { database: Some(database), name: model.db_name_view() }
}

/// The column of a field of a model.
pub open spec fn field_column(model: &Model, database: Seq<char>, f: &Field) -> ColumnNameView {
    ColumnNameView {
        table: Some(model_table(model, database)),
        name: f.db_name_view(),
        alias: None,
    }
}

/// The column of the id of a model.
pub open spec fn id_column(model: &Model, database: Seq<char>) -> ColumnNameView {
    field_column(model, database, &model.id_field_spec())
}

/// The side table of a scalar list field of a model.
pub open spec fn scalar_list_table(model: &Model, database: Seq<char>, f: &Field) -> TableNameView {
    TableNameView {
        database: Some(database),
        name: model.db_name_view() + "_"@ + f.db_name_view(),
    }
}

/// The column of a side table that holds the id of the record.
pub open spec fn node_id_column(table: TableNameView) -> ColumnNameView {
    ColumnNameView { table: Some(table), name: "nodeId"@, alias: None }
}

/// The table of a model in a database.
pub fn as_table(model: &Model, database: &str) -> (r: TableName)
    ensures
        r@ == model_table(model, database@),
{
    TableName { database: Some(String::from_str(database)), name: model.db_name() }
}

/// The column of a field of a model.
pub fn as_column(model: &Model, database: &str, f: &Field) -> (r: ColumnName)
    ensures
        r@ == field_column(model, database@, f),
{
    ColumnName { table: Some(as_table(model, database)), name: f.db_name(), alias: None }
}

fn id_of(model: &Model) -> (r: &Field)
    requires
        model.has_id_field(),
    ensures
        *r == model.id_field_spec(),
{
    match model.id_field() {
        Some(f) => f,
        None => vstd::pervasive::unreached(),
    }
}

/// The side table of a scalar list.
#[derive(Clone, Debug, PartialEq)]
pub struct ScalarListTable {
    pub table: TableName,
}

impl ScalarListTable {
    /// The side table of a scalar list field of a model.
    pub fn of_field(model: &Model, database: &str, f: &Field) -> (r: ScalarListTable)
        ensures
            r.table@ == scalar_list_table(model, database@, f),
    {
        ScalarListTable {
            table: TableName {
                database: Some(String::from_str(database)),
                name: concat3(model.db_name().as_str(), "_", f.db_name().as_str()),
            },
        }
    }

    /// The column of the side table that holds the id of the record.
    pub fn node_id_column(&self) -> (r: ColumnName)
        ensures
            r@ == node_id_column(self.table@),
    {
        ColumnName {
            table: Some(self.table.duplicate()),
            name: String::from_str("nodeId"),
            alias: None,
        }
    }
}

// ---------------------------------------------------------------------------
// Deletes
// ---------------------------------------------------------------------------
/// The deletes of the rows of one table whose column holds one of the ids:
/// one statement for each chunk of the ids.
pub open spec fn chunked_deletes(table: TableNameView, column: ColumnNameView, ids: Seq<GraphqlId>) -> Seq<
    DeleteView,
> {
    Seq::new(
        chunk_count(ids.len() as int) as nat,
        |k: int| DeleteView { table, conditions: in_ids(column, chunk(ids, k)) },
    )
}

/// Deletes the rows of a table whose column holds one of the ids, one
/// statement for each chunk of the ids. No statement binds more than ten
/// thousand values.
pub fn delete_in_chunks(table: &TableName, ids: &Vec<GraphqlId>, column: &ColumnName) -> (r: Vec<
    Delete,
>)
    ensures
        delete_views(r@) == chunked_deletes(table@, column@, ids@),
        forall|i: int|
            0 <= i < r@.len() ==> (#[trigger] r@[i])@.parameter_count() <= PARAMETER_LIMIT,
{
    let count = count_chunks(ids);
    let mut out: Vec<Delete> = Vec::new();
    let mut k: usize = 0;
    while k < count
        invariant
            count == chunk_count(ids@.len() as int),
            0 <= k <= count,
            out@.len() == k,
            forall|i: int|
                0 <= i < k ==> (#[trigger] out@[i])@ == chunked_deletes(table@, column@, ids@)[i],
            forall|i: int|
                0 <= i < k ==> (#[trigger] out@[i])@.parameter_count() <= PARAMETER_LIMIT,
        decreases count - k,
    {
        let part = take_chunk(ids, k);
        proof {
            lemma_in_ids_parameters(column@, part@);
        }
        let d = Delete { table: table.duplicate(), conditions: make_in_ids(column.duplicate(), part) };
        out.push(d);
        k = k + 1;
    }
    out
}

/// The column `nodeId`, without table.
pub open spec fn bare_node_id_column() -> ColumnNameView {
    ColumnNameView { table: None, name: "nodeId"@, alias: None }
}

/// Deletes the values that the records with the given ids have in a scalar
/// list, one statement for each chunk of the ids.
pub fn delete_scalar_list_values(scalar_list_table: &ScalarListTable, ids: &Vec<GraphqlId>) -> (r:
    Vec<Delete>)
    ensures
        delete_views(r@) == chunked_deletes(scalar_list_table.table@, bare_node_id_column(), ids@),
        forall|i: int|
            0 <= i < r@.len() ==> (#[trigger] r@[i])@.parameter_count() <= PARAMETER_LIMIT,
{
    let column = ColumnName { table: None, name: String::from_str("nodeId"), alias: None };
    delete_in_chunks(&scalar_list_table.table, ids, &column)
}

/// The delete in the side table of the field at `j`, where that field is a
/// scalar list.
pub open spec fn list_delete(model: &Model, database: Seq<char>, part: Seq<GraphqlId>, j: int) -> Seq<
    DeleteView,
> {
    let f = model.fields@[j];
    if f.arity == FieldArity::List && f.is_scalar_spec() {
        let table = scalar_list_table(model, database, &f);
        seq![DeleteView { table, conditions: in_ids(node_id_column(table), part) }]
    } else {
        Seq::empty()
    }
}

/// The deletes in the side tables of the scalar lists among the first `n`
/// fields.
pub open spec fn list_deletes_upto(model: &Model, database: Seq<char>, part: Seq<GraphqlId>, n: int) -> Seq<
    DeleteView,
> {
    concat_range(n, |j: int| list_delete(model, database, part, j))
}

/// The deletes for one chunk of ids: first in the side table of every
/// scalar list of the model, then in the table of the model.
pub open spec fn chunk_deletes(model: &Model, database: Seq<char>, part: Seq<GraphqlId>) -> Seq<
    DeleteView,
> {
    list_deletes_upto(model, database, part, model.fields@.len() as int) + seq![
        DeleteView {
            table: model_table(model, database),
            conditions: in_ids(id_column(model, database), part),
        },
    ]
}

/// The deletes for the first `n` chunks of the ids.
pub open spec fn deletes_upto(model: &Model, database: Seq<char>, ids: Seq<GraphqlId>, n: int) -> Seq<
    DeleteView,
> {
    concat_range(n, |k: int| chunk_deletes(model, database, chunk(ids, k)))
}

/// The deletes of the records with the given ids, chunk by chunk.
pub open spec fn delete_many_statements(model: &Model, database: Seq<char>, ids: Seq<GraphqlId>) -> Seq<
    DeleteView,
> {
    deletes_upto(model, database, ids, chunk_count(ids.len() as int))
}

/// Deletes the records with the given ids. The ids are cut into chunks;
/// for each chunk the values in the side tables go first, then the records.
/// No statement binds more than ten thousand values.
#[verifier::rlimit(40)]
pub fn delete_many(model: &Model, database: &str, ids: &Vec<GraphqlId>) -> (r: Vec<Delete>)
    requires
        model.has_id_field(),
    ensures
        delete_views(r@) == delete_many_statements(model, database@, ids@),
        forall|i: int|
            0 <= i < r@.len() ==> (#[trigger] r@[i])@.parameter_count() <= PARAMETER_LIMIT,
{
    let count = count_chunks(ids);
    let id = id_of(model);
    let mut out: Vec<Delete> = Vec::new();
    let mut k: usize = 0;
    while k < count
        invariant
            model.has_id_field(),
            *id == model.id_field_spec(),
            count == chunk_count(ids@.len() as int),
            0 <= k <= count,
            delete_views(out@) == deletes_upto(model, database@, ids@, k as int),
            forall|i: int|
                0 <= i < out@.len() ==> (#[trigger] out@[i])@.parameter_count() <= PARAMETER_LIMIT,
        decreases count - k,
    {
        let part = take_chunk(ids, k);
        let ghost before = delete_views(out@);
        let mut j: usize = 0;
        while j < model.fields.len()
            invariant
                0 <= j <= model.fields@.len(),
                part@.len() <= PARAMETER_LIMIT,
                delete_views(out@) == before + list_deletes_upto(
                    model,
                    database@,
                    part@,
                    j as int,
                ),
                forall|i: int|
                    0 <= i < out@.len() ==> (#[trigger] out@[i])@.parameter_count()
                        <= PARAMETER_LIMIT,
            decreases model.fields@.len() - j,
        {
            let f = &model.fields[j];
            let ghost mid = delete_views(out@);
            if f.is_list() && is_scalar(f) {
                let table = ScalarListTable::of_field(model, database, f);
                let column = table.node_id_column();
                proof {
                    lemma_in_ids_parameters(column@, part@);
                }
                let d = Delete {
                    table: table.table,
                    conditions: make_in_ids(column, copy_ids(&part)),
                };
                out.push(d);
                assert(delete_views(out@) =~= mid + seq![d@]);
            }
            assert(delete_views(out@) =~= before + list_deletes_upto(
                model,
                database@,
                part@,
                j + 1,
            ));
            j = j + 1;
        }
        let ghost mid = delete_views(out@);
        let column = as_column(model, database, id);
        proof {
            lemma_in_ids_parameters(column@, part@);
        }
        let d = Delete { table: as_table(model, database), conditions: make_in_ids(column, part) };
        out.push(d);
        assert(delete_views(out@) =~= mid + seq![d@]);
        assert(delete_views(out@) =~= before + chunk_deletes(
            model,
            database@,
            chunk(ids@, k as int),
        ));
        k = k + 1;
    }
    out
}

fn copy_ids(v: &Vec<GraphqlId>) -> (r: Vec<GraphqlId>)
    ensures
        r@ == v@,
{
    let mut out: Vec<GraphqlId> = Vec::new();
    let mut i: usize = 0;
    while i < v.len()
        invariant
            0 <= i <= v@.len(),
            out@ == v@.take(i as int),
        decreases v@.len() - i,
    {
        out.push(v[i].duplicate());
        i = i + 1;
    }
    out
}

// ---------------------------------------------------------------------------
// Updates
// ---------------------------------------------------------------------------
/// Whether every argument names a field of the model.
pub open spec fn args_are_fields(model: &Model, args: &PrismaArgs) -> bool {
    forall|i: int| 0 <= i < args.args@.len() ==> model.has_field(#[trigger] args.args@[i].name@)
}

/// The field that the argument at `i` names.
pub open spec fn field_of_arg(model: &Model, args: &PrismaArgs, i: int) -> Field {
    model.fields@[model.field_index(args.args@[i].name@)]
}

/// Position of the first argument that sets a required field to null; the
/// number of arguments if there is none.
pub open spec fn first_null_for_required(model: &Model, args: &PrismaArgs) -> int {
    first_index(
        args.args@.len() as int,
        |i: int|
            field_of_arg(model, args, i).arity == FieldArity::Required && args.args@[i].value
                == PrismaValue::Null,
    )
}

/// The assignments of an update: for each argument the column of its field
/// and its value.
pub open spec fn assignments_upto(model: &Model, args: &PrismaArgs, n: int) -> Seq<Assignment> {
    Seq::new(
        n as nat,
        |i: int|
            Assignment {
                column: field_of_arg(model, args, i).db_name_view(),
                value: args.args@[i].value,
            },
    )
}

/// How many ids one statement of an update selects: what the limit leaves
/// beside the values that the statement sets, and none where those fill it.
pub open spec fn update_group_size(args: &PrismaArgs) -> int {
    if args.args@.len() < PARAMETER_LIMIT {
        PARAMETER_LIMIT - args.args@.len()
    } else {
        0
    }
}

/// Into how many groups of at most `size` ids `n` ids are cut.
pub open spec fn group_count(n: int, size: int) -> nat
    decreases n,
{
    if n <= 0 || size <= 0 {
        0
    } else if n <= size {
        1
    } else {
        1 + group_count(n - size, size)
    }
}

/// The `k`-th group of the ids: up to `size` of them, from the position
/// `size * k` on.
pub open spec fn group(ids: Seq<GraphqlId>, size: int, k: int) -> Seq<GraphqlId> {
    ids.subrange(
        size * k,
        if size * k + size <= ids.len() {
            size * k + size
        } else {
            ids.len() as int
        },
    )
}

/// Every group starts within the ids.
pub proof fn lemma_group_start(n: int, size: int, k: int)
    requires
        0 <= k < group_count(n, size),
    ensures
        size > 0,
        0 <= size * k < n,
    decreases n,
{
    if k > 0 {
        assert(n > size);
        lemma_group_start(n - size, size, k - 1);
        assert(size * k == size * (k - 1) + size) by (nonlinear_arith);
    } else {
        assert(size * k == 0) by (nonlinear_arith)
            requires
                k == 0,
        ;
    }
}

/// The updates of the records with the given ids: one statement for each
/// group of the ids, all with the same assignments. A group holds as many
/// ids as the limit leaves beside the assignments.
pub open spec fn update_many_statements(
    model: &Model,
    database: Seq<char>,
    ids: Seq<GraphqlId>,
    args: &PrismaArgs,
) -> Seq<UpdateView> {
    Seq::new(
        group_count(ids.len() as int, update_group_size(args)),
        |k: int|
            UpdateView {
                table: model_table(model, database),
                assignments: assignments_upto(model, args, args.args@.len() as int),
                conditions: in_ids(id_column(model, database), group(ids, update_group_size(args), k)),
            },
    )
}

/// What `update_many` gives: a failure where an argument sets a required
/// field to null, for the first such argument, whatever the ids; else
/// nothing without arguments or ids; a failure where the arguments alone
/// fill a statement; else the statements.
pub open spec fn is_update_many(
    model: &Model,
    database: Seq<char>,
    ids: Seq<GraphqlId>,
    args: &PrismaArgs,
    r: Result<Vec<Update>, SqlError>,
) -> bool {
    let bad = first_null_for_required(model, args);
    if bad < args.args@.len() {
        r == Err::<Vec<Update>, SqlError>(
            SqlError::FieldCannotBeNull { field: field_of_arg(model, args, bad).name },
        )
    } else if args.args@.len() == 0 || ids.len() == 0 {
        r matches Ok(v) && v@.len() == 0
    } else if args.args@.len() >= PARAMETER_LIMIT {
        r matches Err(e) && e.is_internal("an update sets more values than a statement binds"@)
    } else {
        r matches Ok(v) && update_views(v@) == update_many_statements(model, database, ids, args)
    }
}

fn copy_args(v: &Vec<Arg>) -> (r: Vec<Arg>)
    ensures
        r@ == v@,
{
    let mut out: Vec<Arg> = Vec::new();
    let mut i: usize = 0;
    while i < v.len()
        invariant
            0 <= i <= v@.len(),
            out@ == v@.take(i as int),
        decreases v@.len() - i,
    {
        out.push(Arg { name: v[i].name.clone(), value: v[i].value.duplicate() });
        i = i + 1;
    }
    out
}

fn copy_range(ids: &Vec<GraphqlId>, start: usize, end: usize) -> (r: Vec<GraphqlId>)
    requires
        start <= end <= ids@.len(),
    ensures
        r@ == ids@.subrange(start as int, end as int),
{
    let mut out: Vec<GraphqlId> = Vec::new();
    let mut i = start;
    while i < end
        invariant
            start <= i <= end <= ids@.len(),
            out@ == ids@.subrange(start as int, i as int),
        decreases end - i,
    {
        out.push(ids[i].duplicate());
        i = i + 1;
    }
    out
}

/// Updates the records with the given ids. An argument that sets a
/// required field to null is refused before any statement is made. The ids
/// are cut into groups, with one statement for each group; a group holds
/// as many ids as the limit of ten thousand leaves beside the values that
/// the statement sets, so that no statement binds more than ten thousand
/// values.
#[verifier::rlimit(40)]
pub fn update_many(model: &Model, database: &str, ids: &Vec<GraphqlId>, args: &PrismaArgs) -> (r:
    Result<Vec<Update>, SqlError>)
    requires
        model.has_id_field(),
        args_are_fields(model, args),
    ensures
        is_update_many(model, database@, ids@, args, r),
        r matches Ok(v) ==> forall|i: int|
            0 <= i < v@.len() ==> (#[trigger] v@[i])@.parameter_count() <= PARAMETER_LIMIT,
{
    let ghost p = |i: int|
        field_of_arg(model, args, i).arity == FieldArity::Required && args.args@[i].value
            == PrismaValue::Null;
    let mut set: Vec<Arg> = Vec::new();
    let mut i: usize = 0;
    while i < args.args.len()
        invariant
            args_are_fields(model, args),
            0 <= i <= args.args@.len(),
            p == (|i: int|
                field_of_arg(model, args, i).arity == FieldArity::Required && args.args@[i].value
                    == PrismaValue::Null),
            forall|j: int| 0 <= j < i ==> !#[trigger] p(j),
            set@.len() == i,
            forall|j: int|
                0 <= j < i ==> (#[trigger] set@[j]).name@ == field_of_arg(
                    model,
                    args,
                    j,
                ).db_name_view() && set@[j].value == args.args@[j].value,
        decreases args.args@.len() - i,
    {
        let arg = &args.args[i];
        let field = match model.find_field(arg.name.as_str()) {
            Some(f) => f,
            None => vstd::pervasive::unreached(),
        };
        if field.is_required() && arg.value.is_null() {
            proof {
                lemma_first_index_unique(args.args@.len() as int, p, i as int);
            }
            return Err(SqlError::FieldCannotBeNull { field: field.name.clone() });
        }
        set.push(Arg { name: field.db_name(), value: arg.value.duplicate() });
        i = i + 1;
    }
    proof {
        lemma_first_index_unique(args.args@.len() as int, p, i as int);
    }
    if args.args.len() == 0 || ids.len() == 0 {
        return Ok(Vec::new());
    }
    if args.args.len() >= PARAMETER_LIMIT {
        return Err(SqlError::internal("an update sets more values than a statement binds"));
    }
    let size = PARAMETER_LIMIT - args.args.len();
    let n = ids.len();
    let id = id_of(model);
    let mut out: Vec<Update> = Vec::new();
    let mut start: usize = 0;
    let mut k: usize = 0;
    while start < n
        invariant
            model.has_id_field(),
            *id == model.id_field_spec(),
            n == ids@.len(),
            size == update_group_size(args),
            0 < size,
            size + args.args@.len() == PARAMETER_LIMIT,
            0 <= k <= start <= n,
            start < n ==> start == size * k,
            group_count(n as int, size as int) == k + group_count(n - start, size as int),
            group_count(n as int, size as int) == update_many_statements(
                model,
                database@,
                ids@,
                args,
            ).len(),
            out@.len() == k,
            set@.len() == args.args@.len(),
            forall|j: int|
                0 <= j < set@.len() ==> (#[trigger] set@[j]).name@ == field_of_arg(
                    model,
                    args,
                    j,
                ).db_name_view() && set@[j].value == args.args@[j].value,
            forall|i: int|
                0 <= i < k ==> (#[trigger] out@[i])@ == update_many_statements(
                    model,
                    database@,
                    ids@,
                    args,
                )[i],
            forall|i: int|
                0 <= i < k ==> (#[trigger] out@[i])@.parameter_count() <= PARAMETER_LIMIT,
        decreases n - start,
    {
        let rest = n - start;
        let take = if rest >= size {
            size
        } else {
            rest
        };
        let part = copy_range(ids, start, start + take);
        assert(part@ == group(ids@, size as int, k as int));
        let column = as_column(model, database, id);
        proof {
            lemma_in_ids_parameters(column@, part@);
            assert(size * (k + 1) == size * k + size) by (nonlinear_arith);
        }
        let u = Update {
            table: as_table(model, database),
            assignments: copy_args(&set),
            conditions: make_in_ids(column, part),
        };
        assert(u@.assignments =~= assignments_upto(model, args, args.args@.len() as int));
        out.push(u);
        start = start + take;
        k = k + 1;
    }
    assert(update_views(out@) =~= update_many_statements(model, database@, ids@, args));
    Ok(out)
}

/// No statement of `update_many` binds more than ten thousand values, the
/// values that it sets and the ids that it selects taken together.
pub proof fn lemma_update_many_within_limit(
    model: &Model,
    database: Seq<char>,
    ids: Seq<GraphqlId>,
    args: &PrismaArgs,
    k: int,
)
    requires
        0 <= k < update_many_statements(model, database, ids, args).len(),
    ensures
        update_many_statements(model, database, ids, args)[k].parameter_count() <= PARAMETER_LIMIT,
        crate::sql::condition_parameters(
            update_many_statements(model, database, ids, args)[k].conditions,
        ) > 0,
{
    let size = update_group_size(args);
    lemma_group_start(ids.len() as int, size, k);
    lemma_in_ids_parameters(id_column(model, database), group(ids, size, k));
}


// ---------------------------------------------------------------------------
// Creates
// ---------------------------------------------------------------------------
/// The value that the arguments give for the id of the model, unless it is
/// missing or null.
pub open spec fn supplied_id(model: &Model, args: &PrismaArgs) -> Option<PrismaValue> {
    let name = model.id_field_spec().name@;
    if args.has_arg(name) && args.value_of(name) != PrismaValue::Null {
        Some(args.value_of(name))
    } else {
        None
    }
}

/// Whether the create needs an id of its own making: the database gives
/// none and the arguments hold none.
pub open spec fn needs_fresh_id(model: &Model, args: &PrismaArgs) -> bool {
    !model.id_field_spec().is_auto_generated_spec() && supplied_id(model, args) is None
}

/// Whether a record can be created: the model has an id field; and unless
/// the database gives the id, either the arguments hold a value that stands
/// for an id, or the id is a string, for which an id can be made.
pub open spec fn can_create(model: &Model, args: &PrismaArgs) -> bool {
    &&& model.has_id_field()
    &&& model.id_field_spec().is_auto_generated_spec() || match supplied_id(model, args) {
        Some(v) => v.as_id() is Some,
        None => model.id_field_spec().field_type == FieldType::Base(ScalarType::String),
    }
}

/// The id that the create gives back: none where the database makes it,
/// else the one in the arguments or, without one, the fresh one.
pub open spec fn returned_id(model: &Model, args: &PrismaArgs, fresh: GraphqlId) -> Option<
    GraphqlId,
> {
    if model.id_field_spec().is_auto_generated_spec() {
        None
    } else {
        match supplied_id(model, args) {
            Some(v) => v.as_id(),
            None => Some(fresh),
        }
    }
}

/// The value that the insert holds for the field at `j`: the fresh id for
/// the id field where one is needed, else the argument for the field, if
/// there is one.
pub open spec fn inserted_value(model: &Model, args: &PrismaArgs, fresh: GraphqlId, j: int) -> Option<
    PrismaValue,
> {
    let f = model.fields@[j];
    if j == model.id_field_index() && needs_fresh_id(model, args) {
        Some(PrismaValue::GraphqlId(fresh))
    } else if args.has_arg(f.name@) {
        Some(args.value_of(f.name@))
    } else {
        None
    }
}

/// The columns of the values that the insert holds for the first `n` fields.
pub open spec fn inserted_columns_upto(model: &Model, args: &PrismaArgs, fresh: GraphqlId, n: int) -> Seq<
    Seq<char>,
> {
    concat_range(
        n,
        |j: int|
            match inserted_value(model, args, fresh, j) {
                Some(_) => seq![model.fields@[j].db_name_view()],
                None => Seq::empty(),
            },
    )
}

/// The values that the insert holds for the first `n` fields.
pub open spec fn inserted_values_upto(model: &Model, args: &PrismaArgs, fresh: GraphqlId, n: int) -> Seq<
    PrismaValue,
> {
    concat_range(
        n,
        |j: int|
            match inserted_value(model, args, fresh, j) {
                Some(v) => seq![v],
                None => Seq::empty(),
            },
    )
}

/// The insert of a record: one row with the values of the fields that have
/// one, in the order of the fields; it gives back the id.
pub open spec fn create_statement(
    model: &Model,
    database: Seq<char>,
    args: &PrismaArgs,
    fresh: GraphqlId,
) -> InsertView {
    let n = model.fields@.len() as int;
    InsertView {
        table: model_table(model, database),
        columns: inserted_columns_upto(model, args, fresh, n),
        rows: seq![inserted_values_upto(model, args, fresh, n)],
        returning: seq![id_column(model, database)],
        on_conflict_do_nothing: false,
    }
}

/// Says whether a record can be created from the arguments.
pub fn check_create(model: &Model, args: &PrismaArgs) -> (r: bool)
    ensures
        r == can_create(model, args),
{
    match model.id_field() {
        None => false,
        Some(id) => {
            if id.is_auto_generated() {
                true
            } else {
                match args.get_field_value(id.name.as_str()) {
                    Some(v) => if v.is_null() {
                        is_string_field(id)
                    } else {
                        v.to_id().is_some()
                    },
                    None => is_string_field(id),
                }
            }
        },
    }
}

fn is_string_field(f: &Field) -> (r: bool)
    ensures
        r == (f.field_type == FieldType::Base(ScalarType::String)),
{
    match &f.field_type {
        FieldType::Base(ScalarType::String) => true,
        _ => false,
    }
}

fn must_make_id(model: &Model, args: &PrismaArgs) -> (r: bool)
    requires
        model.has_id_field(),
    ensures
        r == needs_fresh_id(model, args),
{
    let id = id_of(model);
    if id.is_auto_generated() {
        false
    } else {
        match args.get_field_value(id.name.as_str()) {
            Some(v) => v.is_null(),
            None => true,
        }
    }
}

/// Builds the insert of a record, with `fresh` as its id where an id has to
/// be made.
#[verifier::rlimit(40)]
pub fn create_record_with(model: &Model, database: &str, args: &PrismaArgs, fresh: GraphqlId) -> (r:
    (Insert, Option<GraphqlId>))
    requires
        can_create(model, args),
    ensures
        r.0@ == create_statement(model, database@, args, fresh),
        r.1 == returned_id(model, args, fresh),
{
    let id = id_of(model);
    let make = must_make_id(model, args);
    let return_id = if id.is_auto_generated() {
        None
    } else if make {
        Some(fresh.duplicate())
    } else {
        match args.get_field_value(id.name.as_str()) {
            Some(v) => v.to_id(),
            None => None,
        }
    };
    let id_position = match model.id_field_position() {
        Some(i) => i,
        None => vstd::pervasive::unreached(),
    };
    let mut columns: Vec<String> = Vec::new();
    let mut values: Vec<PrismaValue> = Vec::new();
    let mut j: usize = 0;
    while j < model.fields.len()
        invariant
            0 <= j <= model.fields@.len(),
            make == needs_fresh_id(model, args),
            id_position == model.id_field_index(),
            columns.deep_view() == inserted_columns_upto(model, args, fresh, j as int),
            values@ == inserted_values_upto(model, args, fresh, j as int),
        decreases model.fields@.len() - j,
    {
        let f = &model.fields[j];
        let value = if j == id_position && make {
            Some(PrismaValue::GraphqlId(fresh.duplicate()))
        } else {
            match args.get_field_value(f.name.as_str()) {
                Some(v) => Some(v.duplicate()),
                None => None,
            }
        };
        if let Some(v) = value {
            let c = f.db_name();
            columns.push(c);
            values.push(v);
        }
        j = j + 1;
    }
    let mut rows: Vec<Vec<PrismaValue>> = Vec::new();
    rows.push(values);
    let mut returning: Vec<ColumnName> = Vec::new();
    returning.push(as_column(model, database, id));
    let insert = Insert {
        table: as_table(model, database),
        columns,
        rows,
        returning,
        on_conflict_do_nothing: false,
    };
    assert(insert@.rows =~= seq![values@]);
    assert(insert@.returning =~= seq![id_column(model, database@)]);
    (insert, return_id)
}

/// Builds the insert of a record. Where the database does not make the id
/// and the arguments hold none, a fresh id is made and inserted.
pub fn create_record(model: &Model, database: &str, args: &PrismaArgs) -> (r: (
    Insert,
    Option<GraphqlId>,
))
    requires
        can_create(model, args),
    ensures
        exists|fresh: String|
            r.0@ == create_statement(model, database@, args, GraphqlId::String(fresh)) && r.1
                == returned_id(model, args, GraphqlId::String(fresh)),
{
    let fresh = if must_make_id(model, args) {
        fresh_cuid()
    } else {
        String::new()
    };
    let ghost witness = fresh;
    let r = create_record_with(model, database, args, GraphqlId::String(fresh));
    assert(r.0@ == create_statement(model, database@, args, GraphqlId::String(witness)) && r.1
        == returned_id(model, args, GraphqlId::String(witness)));
    r
}

// ---------------------------------------------------------------------------
// Rows of relation tables
// ---------------------------------------------------------------------------
/// The join table of a relation as one of its fields sees it: the column
/// of the field's own model is the parent's, the other the child's.
#[derive(Clone, Debug, PartialEq)]
pub struct RelationColumns {
    pub table: TableName,
    pub parent_column: ColumnName,
    pub child_column: ColumnName,
    pub id_column: Option<ColumnName>,
}

/// The join table seen from one side: the column of that side is the
/// parent's, the column of the other side the child's.
pub open spec fn columns_from_side(
    table: &crate::relation::RelationTable,
    side: crate::relation::RelationSide,
    database: Seq<char>,
) -> (TableNameView, Seq<char>, Seq<char>, Option<Seq<char>>) {
    let name = TableNameView { database: Some(database), name: table.table@ };
    match side {
        crate::relation::RelationSide::A => (
            name,
            table.model_a_column@,
            table.model_b_column@,
            table.id_column.deep_view(),
        ),
        crate::relation::RelationSide::B => (
            name,
            table.model_b_column@,
            table.model_a_column@,
            table.id_column.deep_view(),
        ),
    }
}

impl RelationColumns {
    /// The join table of a relation as the field on the given side sees it.
    pub fn of_side(
        table: &crate::relation::RelationTable,
        side: crate::relation::RelationSide,
        database: &str,
    ) -> (r: RelationColumns)
        ensures
            r.table@ == columns_from_side(table, side, database@).0,
            r.parent_column@ == (ColumnNameView {
                table: Some(r.table@),
                name: columns_from_side(table, side, database@).1,
                alias: None,
            }),
            r.child_column@ == (ColumnNameView {
                table: Some(r.table@),
                name: columns_from_side(table, side, database@).2,
                alias: None,
            }),
            r.id_column is Some <==> table.id_column is Some,
            r.id_column matches Some(c) ==> c@ == (ColumnNameView {
                table: Some(r.table@),
                name: table.id_column->Some_0@,
                alias: None,
            }),
    {
        let name = TableName { database: Some(String::from_str(database)), name: table.table.clone() };
        let (parent, child) = match side {
            crate::relation::RelationSide::A => (&table.model_a_column, &table.model_b_column),
            crate::relation::RelationSide::B => (&table.model_b_column, &table.model_a_column),
        };
        RelationColumns {
            parent_column: ColumnName {
                table: Some(name.duplicate()),
                name: parent.clone(),
                alias: None,
            },
            child_column: ColumnName { table: Some(name.duplicate()), name: child.clone(), alias: None },
            id_column: match &table.id_column {
                Some(c) => Some(
                    ColumnName { table: Some(name.duplicate()), name: c.clone(), alias: None },
                ),
                None => None,
            },
            table: name,
        }
    }
}

/// The names of the columns of a row of a join table.
pub open spec fn relation_row_columns(field: &RelationColumns) -> Seq<Seq<char>> {
    seq![field.parent_column.name@, field.child_column.name@] + match field.id_column {
        Some(c) => seq![c.name@],
        None => Seq::empty(),
    }
}

/// The row that links a parent and the child at `i`; where the table has
/// an id column, the row gets the fresh id at `i`.
pub open spec fn relation_row(
    field: &RelationColumns,
    parent_id: GraphqlId,
    child_ids: Seq<GraphqlId>,
    fresh: Seq<String>,
    i: int,
) -> Seq<PrismaValue> {
    seq![PrismaValue::GraphqlId(parent_id), PrismaValue::GraphqlId(child_ids[i])] + (
    if field.id_column is Some {
        seq![PrismaValue::String(fresh[i])]
    } else {
        Seq::empty()
    })
}

/// The insert that links a parent with each of the children. A link that
/// is there already is left alone.
pub open spec fn relation_insert(
    field: &RelationColumns,
    parent_id: GraphqlId,
    child_ids: Seq<GraphqlId>,
    fresh: Seq<String>,
) -> InsertView {
    InsertView {
        table: field.table@,
        columns: relation_row_columns(field),
        rows: Seq::new(child_ids.len(), |i: int| relation_row(field, parent_id, child_ids, fresh, i)),
        returning: Seq::empty(),
        on_conflict_do_nothing: true,
    }
}

/// Builds the insert that links a parent with each of the children, with
/// the given fresh ids for the rows where the table has an id column.
pub fn create_relation_table_records_with(
    field: &RelationColumns,
    parent_id: &GraphqlId,
    child_ids: &Vec<GraphqlId>,
    fresh: &Vec<String>,
) -> (r: Insert)
    requires
        field.id_column is Some ==> fresh@.len() == child_ids@.len(),
    ensures
        r@ == relation_insert(field, *parent_id, child_ids@, fresh@),
{
    let mut columns: Vec<String> = Vec::new();
    columns.push(field.parent_column.name.clone());
    columns.push(field.child_column.name.clone());
    if let Some(c) = &field.id_column {
        columns.push(c.name.clone());
    }
    assert(columns.deep_view() =~= relation_row_columns(field));
    let generate_ids = field.id_column.is_some();
    let mut rows: Vec<Vec<PrismaValue>> = Vec::new();
    let mut i: usize = 0;
    while i < child_ids.len()
        invariant
            0 <= i <= child_ids@.len(),
            generate_ids == (field.id_column is Some),
            generate_ids ==> fresh@.len() == child_ids@.len(),
            rows@.len() == i,
            forall|k: int|
                0 <= k < i ==> (#[trigger] rows@[k])@ == relation_row(
                    field,
                    *parent_id,
                    child_ids@,
                    fresh@,
                    k,
                ),
        decreases child_ids@.len() - i,
    {
        let mut row: Vec<PrismaValue> = Vec::new();
        row.push(PrismaValue::GraphqlId(parent_id.duplicate()));
        row.push(PrismaValue::GraphqlId(child_ids[i].duplicate()));
        if generate_ids {
            row.push(PrismaValue::String(fresh[i].clone()));
        }
        rows.push(row);
        i = i + 1;
    }
    let insert = Insert {
        table: field.table.duplicate(),
        columns,
        rows,
        returning: Vec::new(),
        on_conflict_do_nothing: true,
    };
    assert(insert@.rows =~= relation_insert(field, *parent_id, child_ids@, fresh@).rows);
    assert(insert@.returning =~= Seq::empty());
    insert
}

fn fresh_cuids(n: usize) -> (r: Vec<String>)
    ensures
        r@.len() == n,
{
    let mut out: Vec<String> = Vec::new();
    let mut i: usize = 0;
    while i < n
        invariant
            0 <= i <= n,
            out@.len() == i,
        decreases n - i,
    {
        out.push(fresh_cuid());
        i = i + 1;
    }
    out
}

/// Builds the insert that links a parent with each of the children. Where
/// the table has an id column each row gets a fresh id.
pub fn create_relation_table_records(
    field: &RelationColumns,
    parent_id: &GraphqlId,
    child_ids: &Vec<GraphqlId>,
) -> (r: Insert)
    ensures
        exists|fresh: Seq<String>|
            (field.id_column is Some ==> fresh.len() == child_ids@.len()) && r@ == relation_insert(
                field,
                *parent_id,
                child_ids@,
                fresh,
            ),
{
    let fresh = if field.id_column.is_some() {
        fresh_cuids(child_ids.len())
    } else {
        Vec::new()
    };
    let r = create_relation_table_records_with(field, parent_id, child_ids, &fresh);
    assert((field.id_column is Some ==> fresh@.len() == child_ids@.len()) && r@ == relation_insert(
        field,
        *parent_id,
        child_ids@,
        fresh@,
    ));
    r
}

/// The delete that unlinks a parent from the given children.
pub open spec fn relation_delete(
    field: &RelationColumns,
    parent_id: GraphqlId,
    child_ids: Seq<GraphqlId>,
) -> DeleteView {
    DeleteView {
        table: field.table@,
        conditions: seq![
            ComparisonView::Equals { column: field.parent_column@, value: parent_id },
            ComparisonView::In { column: field.child_column@, ids: child_ids },
        ],
    }
}

/// Builds the delete that unlinks a parent from the given children.
pub fn delete_relation_table_records(
    field: &RelationColumns,
    parent_id: &GraphqlId,
    child_ids: &Vec<GraphqlId>,
) -> (r: Delete)
    ensures
        r@ == relation_delete(field, *parent_id, child_ids@),
{
    let mut conditions: Vec<Comparison> = Vec::new();
    conditions.push(
        Comparison::Equals { column: field.parent_column.duplicate(), value: parent_id.duplicate() },
    );
    conditions.push(
        Comparison::In { column: field.child_column.duplicate(), ids: copy_ids(child_ids) },
    );
    let d = Delete { table: field.table.duplicate(), conditions };
    assert(d@.conditions =~= relation_delete(field, *parent_id, child_ids@).conditions);
    d
}

// ---------------------------------------------------------------------------
// Values of scalar lists
// ---------------------------------------------------------------------------
/// The row of the value at `i` of a list: its position, which is the
/// thousandfold of its place counted from one, the value, and the id of the
/// record.
pub open spec fn list_row(list: Seq<PrismaValue>, id: GraphqlId, i: int) -> Seq<PrismaValue> {
    seq![PrismaValue::Int(((i + 1) * 1000) as i64), list[i], PrismaValue::GraphqlId(id)]
}

/// The insert of the values of a list for one record.
pub open spec fn list_insert(table: TableNameView, list: Seq<PrismaValue>, id: GraphqlId) -> InsertView {
    InsertView {
        table,
        columns: seq!["position"@, "value"@, "nodeId"@],
        rows: Seq::new(list.len(), |i: int| list_row(list, id, i)),
        returning: Seq::empty(),
        on_conflict_do_nothing: false,
    }
}

/// What `create_scalar_list_value` gives: nothing without a list or for an
/// empty one, else the insert of its values.
pub open spec fn scalar_list_insert(
    table: TableNameView,
    list_value: &PrismaListValue,
    id: GraphqlId,
) -> Option<InsertView> {
    match list_value {
        Some(l) => if l@.len() == 0 {
            None
        } else {
            Some(list_insert(table, l@, id))
        },
        None => None,
    }
}

/// Whether the positions of the values of a list fit a 64-bit integer.
pub open spec fn list_fits(list_value: &PrismaListValue) -> bool {
    list_value matches Some(l) ==> l@.len() * 1000 <= i64::MAX
}

/// Builds the insert of the values of a list for one record.
pub fn create_scalar_list_value(
    scalar_list_table: TableName,
    list_value: &PrismaListValue,
    id: &GraphqlId,
) -> (r: Option<Insert>)
    requires
        list_fits(list_value),
    ensures
        match r {
            Some(i) => Some(i@) == scalar_list_insert(scalar_list_table@, list_value, *id),
            None => scalar_list_insert(scalar_list_table@, list_value, *id) is None,
        },
{
    let list = match list_value {
        Some(l) => l,
        None => {
            return None;
        },
    };
    if list.len() == 0 {
        return None;
    }
    let mut columns: Vec<String> = Vec::new();
    columns.push(String::from_str("position"));
    columns.push(String::from_str("value"));
    columns.push(String::from_str("nodeId"));
    assert(columns.deep_view() =~= seq!["position"@, "value"@, "nodeId"@]);
    let mut rows: Vec<Vec<PrismaValue>> = Vec::new();
    let mut i: usize = 0;
    while i < list.len()
        invariant
            0 <= i <= list@.len(),
            list@.len() * 1000 <= i64::MAX,
            rows@.len() == i,
            forall|k: int| 0 <= k < i ==> (#[trigger] rows@[k])@ == list_row(list@, *id, k),
        decreases list@.len() - i,
    {
        let position: i64 = (i as i64 + 1) * 1000;
        let mut row: Vec<PrismaValue> = Vec::new();
        row.push(PrismaValue::Int(position));
        row.push(list[i].duplicate());
        row.push(PrismaValue::GraphqlId(id.duplicate()));
        rows.push(row);
        i = i + 1;
    }
    let insert = Insert {
        table: scalar_list_table,
        columns,
        rows,
        returning: Vec::new(),
        on_conflict_do_nothing: false,
    };
    assert(insert@.rows =~= list_insert(scalar_list_table@, list@, *id).rows);
    assert(insert@.returning =~= Seq::empty());
    Some(insert)
}

/// The inserts that give each of the records the values of the list: one
/// for each record, or none without a list or for an empty one.
pub open spec fn list_inserts(
    table: TableNameView,
    list_value: &PrismaListValue,
    ids: Seq<GraphqlId>,
) -> Seq<InsertView> {
    match list_value {
        Some(l) => if l@.len() == 0 {
            Seq::empty()
        } else {
            Seq::new(ids.len(), |i: int| list_insert(table, l@, ids[i]))
        },
        None => Seq::empty(),
    }
}

/// Replaces the values that the records with the given ids have in a
/// scalar list: the deletes of the old values, chunk by chunk, and the
/// inserts of the new ones, record by record. Without ids there is nothing
/// to do.
pub fn update_scalar_list_values(
    scalar_list_table: &ScalarListTable,
    list_value: &PrismaListValue,
    ids: Vec<GraphqlId>,
) -> (r: (Vec<Delete>, Vec<Insert>))
    requires
        list_fits(list_value),
    ensures
        delete_views(r.0@) == chunked_deletes(
            scalar_list_table.table@,
            bare_node_id_column(),
            ids@,
        ),
        insert_views(r.1@) == list_inserts(scalar_list_table.table@, list_value, ids@),
{
    if ids.len() == 0 {
        let d: Vec<Delete> = Vec::new();
        let i: Vec<Insert> = Vec::new();
        assert(delete_views(d@) =~= chunked_deletes(
            scalar_list_table.table@,
            bare_node_id_column(),
            ids@,
        ));
        return (d, i);
    }
    let deletes = delete_scalar_list_values(scalar_list_table, &ids);
    let mut inserts: Vec<Insert> = Vec::new();
    let mut i: usize = 0;
    while i < ids.len()
        invariant
            0 <= i <= ids@.len(),
            list_fits(list_value),
            insert_views(inserts@) == list_inserts(
                scalar_list_table.table@,
                list_value,
                ids@.take(i as int),
            ),
        decreases ids@.len() - i,
    {
        let ghost before = insert_views(inserts@);
        if let Some(x) = create_scalar_list_value(
            scalar_list_table.table.duplicate(),
            list_value,
            &ids[i],
        ) {
            inserts.push(x);
            assert(insert_views(inserts@) =~= before + seq![x@]);
        }
        assert(insert_views(inserts@) =~= list_inserts(
            scalar_list_table.table@,
            list_value,
            ids@.take(i + 1),
        ));
        i = i + 1;
    }
    (deletes, inserts)
}

} // verus!
