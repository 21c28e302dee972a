//! What a transaction does with the rows that come back from the database:
//! picks the first, reads ids, and names the failure where nothing came.

use crate::datamodel::{Field, FieldArity, FieldType, Model, ScalarType};
use crate::error::{RecordFinderInfo, SqlError};
use crate::seqs::{concat_range, first_index, lemma_first_index_unique};
use crate::values::{GraphqlId, PrismaValue, SingleRecord};
use crate::query_builder::{as_column, as_table, field_column};
use crate::read_builder::column_views;
use crate::sql::{ColumnName, ColumnNameView};
use crate::write_ast::{Filter, RecordFinder, RelationFieldRef, ScalarCondition, ScalarFilter};
use vstd::prelude::*;
use vstd::string::StringExecFns;

verus! {

/// A row as it comes back: one value for each selected column.
#[derive(Clone, Debug, PartialEq)]
pub struct SqlRow {
    pub values: Vec<PrismaValue>,
}

/// What a raw query gives: the rows of a select, each value under the name
/// of its column, or the number of rows that a statement changed.
#[derive(Clone, Debug, PartialEq)]
pub enum RawJson {
    Rows(Vec<Vec<RawJsonField>>),
    Changes(u64),
}

/// A value of a row of a raw select, under the name of its column.
#[derive(Clone, Debug, PartialEq)]
pub struct RawJsonField {
    pub name: String,
    pub value: PrismaValue,
}

/// The finder as a failure reports it.
pub open spec fn finder_info(finder: &RecordFinder) -> RecordFinderInfo {
    RecordFinderInfo { model: finder.model, field: finder.field, value: finder.value }
}

/// The finder as a failure reports it.
pub fn make_finder_info(finder: &RecordFinder) -> (r: RecordFinderInfo)
    ensures
        r == finder_info(finder),
{
    RecordFinderInfo {
        model: finder.model.clone(),
        field: finder.field.clone(),
        value: finder.value.duplicate(),
    }
}

/// The first of the rows; without rows the record does not exist.
pub fn find(rows: Vec<SqlRow>) -> (r: Result<SqlRow, SqlError>)
    ensures
        rows@.len() > 0 ==> r == Ok::<SqlRow, SqlError>(rows@[0]),
        rows@.len() == 0 ==> r == Err::<SqlRow, SqlError>(SqlError::RecordDoesNotExist),
{
    let mut rows = rows;
    if rows.len() > 0 {
        Ok(rows.remove(0))
    } else {
        Err(SqlError::RecordDoesNotExist)
    }
}

/// What `find_int` gives: the first value of the row where it is an
/// integer, else the failure to read one.
pub open spec fn is_found_int(row: &SqlRow, r: Result<i64, SqlError>) -> bool {
    if row.values@.len() > 0 && row.values@[0] is Int {
        r == Ok::<i64, SqlError>(row.values@[0]->Int_0)
    } else {
        r matches Err(SqlError::ConversionError { from, to }) && from@ == "PrismaValue"@ && to@
            == "i64"@
    }
}

/// The first value of a row as an integer.
pub fn find_int(row: &SqlRow) -> (r: Result<i64, SqlError>)
    ensures
        is_found_int(row, r),
{
    if row.values.len() > 0 {
        if let PrismaValue::Int(i) = &row.values[0] {
            return Ok(*i);
        }
    }
    Err(
        SqlError::ConversionError {
            from: String::from_str("PrismaValue"),
            to: String::from_str("i64"),
        },
    )
}

/// The first of the ids; without ids no record matches the finder.
pub fn find_id(ids: Vec<GraphqlId>, record_finder: &RecordFinder) -> (r: Result<GraphqlId, SqlError>)
    ensures
        ids@.len() > 0 ==> r == Ok::<GraphqlId, SqlError>(ids@[0]),
        ids@.len() == 0 ==> r == Err::<GraphqlId, SqlError>(
            SqlError::RecordNotFound { finder: finder_info(record_finder) },
        ),
{
    let mut ids = ids;
    if ids.len() > 0 {
        Ok(ids.remove(0))
    } else {
        Err(SqlError::RecordNotFound { finder: make_finder_info(record_finder) })
    }
}

/// The first of the ids of the children of a parent; without ids parent
/// and child are not connected.
pub fn find_id_by_parent(ids: Vec<GraphqlId>, parent_field: &RelationFieldRef) -> (r: Result<
    GraphqlId,
    SqlError,
>)
    ensures
        ids@.len() > 0 ==> r == Ok::<GraphqlId, SqlError>(ids@[0]),
        ids@.len() == 0 ==> r == Err::<GraphqlId, SqlError>(
            SqlError::RecordsNotConnected {
                relation: parent_field.relation_name,
                parent: parent_field.model,
                child: parent_field.related_model,
            },
        ),
{
    let mut ids = ids;
    if ids.len() > 0 {
        Ok(ids.remove(0))
    } else {
        Err(
            SqlError::RecordsNotConnected {
                relation: parent_field.relation_name.clone(),
                parent: parent_field.model.clone(),
                child: parent_field.related_model.clone(),
            },
        )
    }
}

/// A failure to find a row becomes the failure to find the record that
/// the finder names; any other failure stays as it is.
pub fn not_found_for(e: SqlError, record_finder: &RecordFinder) -> (r: SqlError)
    ensures
        e is RecordDoesNotExist ==> r == (SqlError::RecordNotFound {
            finder: finder_info(record_finder),
        }),
        !(e is RecordDoesNotExist) ==> r == e,
{
    match e {
        SqlError::RecordDoesNotExist => SqlError::RecordNotFound {
            finder: make_finder_info(record_finder),
        },
        e => e,
    }
}

/// The record of a row, under the given field names; a failure to find the
/// row becomes the failure to find the record.
pub fn find_record(
    row: Result<SqlRow, SqlError>,
    record_finder: &RecordFinder,
    field_names: Vec<String>,
) -> (r: Result<SingleRecord, SqlError>)
    ensures
        match row {
            Ok(x) => r == Ok::<SingleRecord, SqlError>(
                SingleRecord { field_names, values: x.values },
            ),
            Err(e) => r is Err && (e is RecordDoesNotExist ==> r->Err_0 == (SqlError::RecordNotFound {
                finder: finder_info(record_finder),
            })) && (!(e is RecordDoesNotExist) ==> r->Err_0 == e),
        },
{
    match row {
        Ok(x) => Ok(SingleRecord { field_names, values: x.values }),
        Err(e) => Err(not_found_for(e, record_finder)),
    }
}

/// Whether a value can be read as an id.
pub open spec fn is_id_value(v: PrismaValue) -> bool {
    v.as_id() is Some
}

/// The ids of the values of the first `n` rows, row by row.
pub open spec fn ids_upto(rows: Seq<SqlRow>, n: int) -> Seq<GraphqlId> {
    concat_range(
        n,
        |i: int| Seq::new(rows[i].values@.len(), |j: int| rows[i].values@[j].as_id()->Some_0),
    )
}

/// Whether every value of every row can be read as an id.
pub open spec fn all_are_ids(rows: Seq<SqlRow>) -> bool {
    forall|i: int, j: int|
        0 <= i < rows.len() && 0 <= j < rows[i].values@.len() ==> is_id_value(
            #[trigger] rows[i].values@[j],
        )
}

/// The ids that the rows hold: every value of every row, row by row. A
/// value that cannot be read as an id is a failure.
pub fn select_ids(rows: &Vec<SqlRow>) -> (r: Result<Vec<GraphqlId>, SqlError>)
    ensures
        r is Ok <==> all_are_ids(rows@),
        r matches Ok(ids) ==> ids@ == ids_upto(rows@, rows@.len() as int),
        r matches Err(e) ==> e is ConversionError,
{
    let mut out: Vec<GraphqlId> = Vec::new();
    let mut i: usize = 0;
    while i < rows.len()
        invariant
            0 <= i <= rows@.len(),
            out@ == ids_upto(rows@, i as int),
            forall|a: int, b: int|
                0 <= a < i && 0 <= b < rows@[a].values@.len() ==> is_id_value(
                    #[trigger] rows@[a].values@[b],
                ),
        decreases rows@.len() - i,
    {
        let row = &rows[i];
        let ghost before = out@;
        let ghost target = Seq::new(row.values@.len(), |j: int| row.values@[j].as_id()->Some_0);
        let mut j: usize = 0;
        while j < row.values.len()
            invariant
                0 <= i < rows@.len(),
                *row == rows@[i as int],
                0 <= j <= row.values@.len(),
                target == Seq::new(row.values@.len(), |j: int| row.values@[j].as_id()->Some_0),
                out@ == before + target.take(j as int),
                forall|b: int| 0 <= b < j ==> is_id_value(#[trigger] row.values@[b]),
            decreases row.values@.len() - j,
        {
            match row.values[j].to_id() {
                Some(id) => {
                    out.push(id);
                },
                None => {
                    return Err(
                        SqlError::ConversionError {
                            from: String::from_str("PrismaValue"),
                            to: String::from_str("GraphqlId"),
                        },
                    );
                },
            }
            j = j + 1;
        }
        i = i + 1;
    }
    Ok(out)
}

/// Whether no row is longer than the list of column names.
pub open spec fn rows_fit(columns: Seq<String>, rows: Seq<SqlRow>) -> bool {
    forall|i: int| 0 <= i < rows.len() ==> (#[trigger] rows[i]).values@.len() <= columns.len()
}

/// The rows of a raw select: in each row every value stands under the name
/// of its column.
pub fn raw_json_rows(columns: &Vec<String>, rows: &Vec<SqlRow>) -> (r: RawJson)
    requires
        rows_fit(columns@, rows@),
    ensures
        r matches RawJson::Rows(v) && v@.len() == rows@.len() && forall|i: int, j: int|
            0 <= i < rows@.len() ==> (#[trigger] v@[i])@.len() == rows@[i].values@.len() && (0 <= j
                < rows@[i].values@.len() ==> (#[trigger] v@[i]@[j]).name == columns@[j]
                && v@[i]@[j].value == rows@[i].values@[j]),
{
    let mut result: Vec<Vec<RawJsonField>> = Vec::new();
    let mut i: usize = 0;
    while i < rows.len()
        invariant
            rows_fit(columns@, rows@),
            0 <= i <= rows@.len(),
            result@.len() == i,
            forall|a: int, b: int|
                0 <= a < i ==> (#[trigger] result@[a])@.len() == rows@[a].values@.len() && (0 <= b
                    < rows@[a].values@.len() ==> (#[trigger] result@[a]@[b]).name == columns@[b]
                    && result@[a]@[b].value == rows@[a].values@[b]),
        decreases rows@.len() - i,
    {
        let row = &rows[i];
        let mut object: Vec<RawJsonField> = Vec::new();
        let mut j: usize = 0;
        while j < row.values.len()
            invariant
                row.values@.len() <= columns@.len(),
                0 <= j <= row.values@.len(),
                object@.len() == j,
                forall|b: int|
                    0 <= b < j ==> (#[trigger] object@[b]).name == columns@[b] && object@[b].value
                        == row.values@[b],
            decreases row.values@.len() - j,
        {
            object.push(RawJsonField { name: columns[j].clone(), value: row.values[j].duplicate() });
            j = j + 1;
        }
        result.push(object);
        i = i + 1;
    }
    RawJson::Rows(result)
}

/// What a raw statement that is no select gives: the number of rows that
/// it changed.
pub fn raw_json_changes(changes: u64) -> (r: RawJson)
    ensures
        r == RawJson::Changes(changes),
{
    RawJson::Changes(changes)
}

/// The type that a selected column is read as.
#[derive(Clone, Copy, Debug, PartialEq, Eq, Structural)]
pub enum TypeIdentifier {
    String,
    Float,
    Boolean,
    Enum,
    DateTime,
    GraphQLID,
    Int,
}

/// Whether a value is of the type that the identifier names. Null is of
/// every type; an id may also come as a string or an integer.
pub open spec fn conforms(v: PrismaValue, ident: TypeIdentifier) -> bool {
    v is Null || match ident {
        TypeIdentifier::String => v is String,
        TypeIdentifier::Float => v is Float,
        TypeIdentifier::Boolean => v is Boolean,
        TypeIdentifier::Enum => v is Enum,
        TypeIdentifier::DateTime => v is DateTime,
        TypeIdentifier::GraphQLID => v is GraphqlId || v is String || v is Int,
        TypeIdentifier::Int => v is Int,
    }
}

/// Whether a row holds one value for each identifier, each of its type.
pub open spec fn row_conforms(row: Seq<PrismaValue>, idents: Seq<TypeIdentifier>) -> bool {
    row.len() == idents.len() && forall|j: int|
        0 <= j < row.len() ==> conforms(#[trigger] row[j], idents[j])
}

/// Position of the first row that does not conform; the number of rows if
/// all do.
pub open spec fn first_bad_row(rows: Seq<Vec<PrismaValue>>, idents: Seq<TypeIdentifier>) -> int {
    first_index(rows.len() as int, |i: int| !row_conforms(rows[i]@, idents))
}

fn value_conforms(v: &PrismaValue, ident: TypeIdentifier) -> (r: bool)
    ensures
        r == conforms(*v, ident),
{
    match v {
        PrismaValue::Null => true,
        PrismaValue::String(_) => match ident {
            TypeIdentifier::String => true,
            TypeIdentifier::GraphQLID => true,
            _ => false,
        },
        PrismaValue::Float(_) => match ident {
            TypeIdentifier::Float => true,
            _ => false,
        },
        PrismaValue::Boolean(_) => match ident {
            TypeIdentifier::Boolean => true,
            _ => false,
        },
        PrismaValue::Enum(_) => match ident {
            TypeIdentifier::Enum => true,
            _ => false,
        },
        PrismaValue::DateTime(_) => match ident {
            TypeIdentifier::DateTime => true,
            _ => false,
        },
        PrismaValue::Int(_) => match ident {
            TypeIdentifier::Int => true,
            TypeIdentifier::GraphQLID => true,
            _ => false,
        },
        PrismaValue::GraphqlId(_) => match ident {
            TypeIdentifier::GraphQLID => true,
            _ => false,
        },
    }
}

fn check_row(row: &Vec<PrismaValue>, idents: &Vec<TypeIdentifier>) -> (r: bool)
    ensures
        r == row_conforms(row@, idents@),
{
    if row.len() != idents.len() {
        return false;
    }
    let mut j: usize = 0;
    while j < row.len()
        invariant
            row@.len() == idents@.len(),
            0 <= j <= row@.len(),
            forall|k: int| 0 <= k < j ==> conforms(#[trigger] row@[k], idents@[k]),
        decreases row@.len() - j,
    {
        if !value_conforms(&row[j], idents[j]) {
            return false;
        }
        j = j + 1;
    }
    true
}

/// The rows of a result as rows of the expected types: every row must
/// hold one value of the right type for each identifier. The first row
/// that does not is a failure.
pub fn filter(result_set: Vec<Vec<PrismaValue>>, idents: &Vec<TypeIdentifier>) -> (r: Result<
    Vec<SqlRow>,
    SqlError,
>)
    ensures
        match r {
            Ok(rows) => first_bad_row(result_set@, idents@) == result_set@.len() && rows@.len()
                == result_set@.len() && forall|i: int|
                0 <= i < rows@.len() ==> (#[trigger] rows@[i]).values == result_set@[i],
            Err(e) => first_bad_row(result_set@, idents@) < result_set@.len()
                && e is ConversionError,
        },
{
    let ghost all = result_set@;
    let ghost p = |i: int| !row_conforms(all[i]@, idents@);
    let mut rest = result_set;
    let mut sql_rows: Vec<SqlRow> = Vec::new();
    let ghost mut done: int = 0;
    while rest.len() > 0
        invariant
            0 <= done <= all.len(),
            all == result_set@,
            rest@ == all.skip(done),
            p == (|i: int| !row_conforms(all[i]@, idents@)),
            forall|j: int| 0 <= j < done ==> !#[trigger] p(j),
            sql_rows@.len() == done,
            forall|i: int| 0 <= i < done ==> (#[trigger] sql_rows@[i]).values == all[i],
        decreases rest@.len(),
    {
        let row = rest.remove(0);
        if !check_row(&row, idents) {
            proof {
                lemma_first_index_unique(all.len() as int, p, done);
            }
            return Err(
                SqlError::ConversionError {
                    from: String::from_str("PrismaValue"),
                    to: String::from_str("TypeIdentifier"),
                },
            );
        }
        sql_rows.push(SqlRow { values: row });
        proof {
            done = done + 1;
        }
    }
    proof {
        lemma_first_index_unique(all.len() as int, p, done);
    }
    Ok(sql_rows)
}

/// The type that the values of a field are read as: that of its scalar
/// type, with an enum as its own kind; an id that is a string is read as
/// an id. Decimals and relations are not read.
pub open spec fn type_identifier_of(f: &Field) -> Option<TypeIdentifier> {
    match f.field_type {
        FieldType::Base(ScalarType::Int) => Some(TypeIdentifier::Int),
        FieldType::Base(ScalarType::Float) => Some(TypeIdentifier::Float),
        FieldType::Base(ScalarType::Boolean) => Some(TypeIdentifier::Boolean),
        FieldType::Base(ScalarType::DateTime) => Some(TypeIdentifier::DateTime),
        FieldType::Base(ScalarType::String) => Some(
            if f.is_id_spec() {
                TypeIdentifier::GraphQLID
            } else {
                TypeIdentifier::String
            },
        ),
        FieldType::Base(ScalarType::Decimal) => None,
        FieldType::Enum(_) => Some(TypeIdentifier::Enum),
        FieldType::Relation(_) => None,
    }
}

/// The type that the values of a field are read as.
pub fn type_identifier(f: &Field) -> (r: Option<TypeIdentifier>)
    ensures
        r == type_identifier_of(f),
{
    match &f.field_type {
        FieldType::Base(ScalarType::Int) => Some(TypeIdentifier::Int),
        FieldType::Base(ScalarType::Float) => Some(TypeIdentifier::Float),
        FieldType::Base(ScalarType::Boolean) => Some(TypeIdentifier::Boolean),
        FieldType::Base(ScalarType::DateTime) => Some(TypeIdentifier::DateTime),
        FieldType::Base(ScalarType::String) => Some(
            if f.is_id() {
                TypeIdentifier::GraphQLID
            } else {
                TypeIdentifier::String
            },
        ),
        FieldType::Base(ScalarType::Decimal) => None,
        FieldType::Enum(_) => Some(TypeIdentifier::Enum),
        FieldType::Relation(_) => None,
    }
}

/// A raw SQL string.
#[derive(Clone, Debug, PartialEq)]
pub struct RawQuery(pub String);

/// Whether the character is one of the letters of `select` at place `i`,
/// in either case.
pub open spec fn is_select_letter(c: char, i: int) -> bool {
    if i == 0 {
        c == 's' || c == 'S'
    } else if i == 1 {
        c == 'e' || c == 'E'
    } else if i == 2 {
        c == 'l' || c == 'L'
    } else if i == 3 {
        c == 'e' || c == 'E'
    } else if i == 4 {
        c == 'c' || c == 'C'
    } else {
        c == 't' || c == 'T'
    }
}

/// Whether a statement is a select: it starts with the word `select`, in
/// any case, and the word ends there or a space follows.
pub open spec fn is_select_text(s: Seq<char>) -> bool {
    &&& s.len() >= 6
    &&& forall|i: int| 0 <= i < 6 ==> is_select_letter(#[trigger] s[i], i)
    &&& s.len() > 6 ==> s[6] == ' '
}

fn select_letter(c: char, i: usize) -> (r: bool)
    requires
        i < 6,
    ensures
        r == is_select_letter(c, i as int),
{
    if i == 0 {
        c == 's' || c == 'S'
    } else if i == 1 {
        c == 'e' || c == 'E'
    } else if i == 2 {
        c == 'l' || c == 'L'
    } else if i == 3 {
        c == 'e' || c == 'E'
    } else if i == 4 {
        c == 'c' || c == 'C'
    } else {
        c == 't' || c == 'T'
    }
}

impl RawQuery {
    /// Whether the statement is a select, which gives rows; any other gives
    /// the number of rows that it changed.
    pub fn is_select(&self) -> (r: bool)
        ensures
            r == is_select_text(self.0@),
    {
        let s = self.0.as_str();
        let n = s.unicode_len();
        if n < 6 {
            return false;
        }
        let mut i: usize = 0;
        while i < 6
            invariant
                0 <= i <= 6,
                s@ == self.0@,
                n == s@.len(),
                n >= 6,
                forall|k: int| 0 <= k < i ==> is_select_letter(#[trigger] s@[k], k),
            decreases 6 - i,
        {
            if !select_letter(s.get_char(i), i) {
                return false;
            }
            i = i + 1;
        }
        n == 6 || s.get_char(6) == ' '
    }
}

/// The finder as a filter: the field of the finder equals its value.
pub fn finder_filter(finder: &RecordFinder) -> (r: Filter)
    ensures
        r == Filter::Scalar(
            ScalarFilter { field: finder.field, condition: ScalarCondition::Equals(finder.value) },
        ),
{
    Filter::Scalar(
        ScalarFilter {
            field: finder.field.clone(),
            condition: ScalarCondition::Equals(finder.value.duplicate()),
        },
    )
}

/// What is selected of a full record: for each field that is read, its
/// name, its column and the type that its values are read as.
#[derive(Clone, Debug, PartialEq)]
pub struct RecordColumns {
    pub names: Vec<String>,
    pub columns: Vec<ColumnName>,
    pub idents: Vec<TypeIdentifier>,
}

/// Whether the field at `j` is read with a full record: it is no list and
/// its values are read as some type.
pub open spec fn is_read(model: &Model, j: int) -> bool {
    model.fields@[j].arity != FieldArity::List && type_identifier_of(&model.fields@[j]) is Some
}

/// The names of the fields among the first `n` that are read with a full
/// record.
pub open spec fn read_names_upto(model: &Model, n: int) -> Seq<String> {
    concat_range(
        n,
        |j: int|
            if is_read(model, j) {
                seq![model.fields@[j].name]
            } else {
                Seq::empty()
            },
    )
}

/// The columns of the fields among the first `n` that are read with a
/// full record.
pub open spec fn read_columns_upto(model: &Model, database: Seq<char>, n: int) -> Seq<
    ColumnNameView,
> {
    concat_range(
        n,
        |j: int|
            if is_read(model, j) {
                seq![field_column(model, database, &model.fields@[j])]
            } else {
                Seq::empty()
            },
    )
}

/// The types that the fields among the first `n` that are read with a full
/// record are read as.
pub open spec fn read_idents_upto(model: &Model, n: int) -> Seq<TypeIdentifier> {
    concat_range(
        n,
        |j: int|
            if is_read(model, j) {
                seq![type_identifier_of(&model.fields@[j])->Some_0]
            } else {
                Seq::empty()
            },
    )
}

/// What is selected of a full record of a model: every scalar field that
/// is no list, in the order of the fields.
pub fn record_columns(model: &Model, database: &str) -> (r: RecordColumns)
    ensures
        r.names@ == read_names_upto(model, model.fields@.len() as int),
        column_views(r.columns@) == read_columns_upto(
            model,
            database@,
            model.fields@.len() as int,
        ),
        r.idents@ == read_idents_upto(model, model.fields@.len() as int),
{
    let mut names: Vec<String> = Vec::new();
    let mut columns: Vec<ColumnName> = Vec::new();
    let mut idents: Vec<TypeIdentifier> = Vec::new();
    let mut j: usize = 0;
    while j < model.fields.len()
        invariant
            0 <= j <= model.fields@.len(),
            names@ == read_names_upto(model, j as int),
            column_views(columns@) == read_columns_upto(model, database@, j as int),
            idents@ == read_idents_upto(model, j as int),
        decreases model.fields@.len() - j,
    {
        let field = &model.fields[j];
        if !field.is_list() {
            if let Some(ident) = type_identifier(field) {
                names.push(field.name.clone());
                let c = as_column(model, database, field);
                columns.push(c);
                idents.push(ident);
            }
        }
        j = j + 1;
    }
    RecordColumns { names, columns, idents }
}

} // verus!
