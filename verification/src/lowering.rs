//! Lowering of field types and default values to what a SQL column holds.

use crate::datamodel::{
    Datamodel, Field, FieldArity, FieldType, ScalarType, ScalarValue, Timestamp,
};
use crate::sql_schema::{ColumnArity, ColumnType, ColumnTypeFamily};
use crate::text::{int_text, int_to_text};
use itertools::Itertools;
use vstd::prelude::*;
use vstd::string::StringExecFns;

verus! {

/// The text that chrono shows for the UTC date and time that lies `secs`
/// seconds and `nanos` nanoseconds after the Unix epoch, time zone included;
/// `None` where chrono has no date and time for them.
pub uninterp spec fn utc_datetime_text(secs: int, nanos: int) -> Option<Seq<char>>;

/// Calls chrono's `DateTime::from_timestamp` and, where that gives a date
/// and time, its `Display`. That writes the date and time, a space and the
/// offset, which for UTC is the word `UTC`: so the text ends in ` UTC`.
#[verifier::external_body]
fn format_utc(secs: i64, nanos: u32) -> (r: Option<String>)
    ensures
        r.deep_view() == utc_datetime_text(secs as int, nanos as int),
        r matches Some(s) ==> s@.len() >= 4 && s@.subrange(s@.len() - 4, s@.len() as int)
            == seq![' ', 'U', 'T', 'C'],
{
    match chrono::DateTime::from_timestamp(secs, nanos) {
        Some(t) => Some(t.to_string()),
        None => None,
    }
}

/// The parts with `sep` between each two neighbours.
pub open spec fn joined(parts: Seq<Seq<char>>, sep: Seq<char>) -> Seq<char>
    decreases parts.len(),
{
    if parts.len() == 0 {
        Seq::empty()
    } else if parts.len() == 1 {
        parts[0]
    } else {
        joined(parts.drop_last(), sep) + sep + parts.last()
    }
}

/// Calls itertools' `join` on the strings: the result holds each of them as
/// it is, with `sep` between each two neighbours.
#[verifier::external_body]
pub(crate) fn join(parts: &Vec<String>, sep: &str) -> (r: String)
    ensures
        r@ == joined(parts.deep_view(), sep@),
{
    parts.iter().join(sep)
}

/// The column type family of a scalar type. Decimal has none.
pub open spec fn family_of_scalar(t: ScalarType) -> Option<ColumnTypeFamily> {
    match t {
        ScalarType::Int => Some(ColumnTypeFamily::Int),
        ScalarType::Float => Some(ColumnTypeFamily::Float),
        ScalarType::Boolean => Some(ColumnTypeFamily::Boolean),
        ScalarType::String => Some(ColumnTypeFamily::String),
        ScalarType::DateTime => Some(ColumnTypeFamily::DateTime),
        ScalarType::Decimal => None,
    }
}

/// The column type family of a field: that of its scalar type, String for an
/// enum, none for a relation.
pub open spec fn family_of(f: &Field) -> Option<ColumnTypeFamily> {
    match f.field_type {
        FieldType::Base(t) => family_of_scalar(t),
        FieldType::Enum(_) => Some(ColumnTypeFamily::String),
        FieldType::Relation(_) => None,
    }
}

/// The arity of the column of a field of the given arity.
pub open spec fn column_arity_of(a: FieldArity) -> ColumnArity {
    match a {
        FieldArity::Required => ColumnArity::Required,
        FieldArity::List => ColumnArity::List,
        FieldArity::Optional => ColumnArity::Nullable,
    }
}

/// The column type of a scalar type, where it has one.
pub fn column_type_for_scalar_type(scalar_type: &ScalarType) -> (r: Option<ColumnType>)
    ensures
        r is Some <==> family_of_scalar(*scalar_type) is Some,
        r matches Some(t) ==> Some(t.family) == family_of_scalar(*scalar_type),
{
    match scalar_type {
        ScalarType::Int => Some(ColumnType::pure(ColumnTypeFamily::Int)),
        ScalarType::Float => Some(ColumnType::pure(ColumnTypeFamily::Float)),
        ScalarType::Boolean => Some(ColumnType::pure(ColumnTypeFamily::Boolean)),
        ScalarType::String => Some(ColumnType::pure(ColumnTypeFamily::String)),
        ScalarType::DateTime => Some(ColumnType::pure(ColumnTypeFamily::DateTime)),
        ScalarType::Decimal => None,
    }
}

/// The column type of a field, where it has one.
pub fn column_type(field: &Field) -> (r: Option<ColumnType>)
    ensures
        r is Some <==> family_of(field) is Some,
        r matches Some(t) ==> Some(t.family) == family_of(field),
{
    match &field.field_type {
        FieldType::Base(scalar) => column_type_for_scalar_type(scalar),
        FieldType::Enum(_) => column_type_for_scalar_type(&ScalarType::String),
        FieldType::Relation(_) => None,
    }
}

/// The arity of the column of a field.
pub fn column_arity(field: &Field) -> (r: ColumnArity)
    ensures
        r == column_arity_of(field.arity),
{
    match &field.arity {
        FieldArity::Required => ColumnArity::Required,
        FieldArity::List => ColumnArity::List,
        FieldArity::Optional => ColumnArity::Nullable,
    }
}

/// Whether the field holds a base scalar or an enum value.
pub fn is_scalar(field: &Field) -> (r: bool)
    ensures
        r == field.is_scalar_spec(),
{
    match field.field_type {
        FieldType::Base(_) => true,
        FieldType::Enum(_) => true,
        _ => false,
    }
}

/// A date and time as a literal: what chrono shows for it, without the time
/// zone at the end.
pub open spec fn datetime_literal(t: Timestamp) -> Option<Seq<char>> {
    match utc_datetime_text(t.secs as int, t.nanos as int) {
        Some(s) => Some(s.subrange(0, s.len() - 4)),
        None => None,
    }
}

/// The literal of a value. A call has none.
pub open spec fn value_literal(v: &ScalarValue) -> Option<Seq<char>> {
    match v {
        ScalarValue::Boolean(b) => Some(
            if *b {
                "true"@
            } else {
                "false"@
            },
        ),
        ScalarValue::Int(x) => Some(int_text(*x as int)),
        ScalarValue::Float(s) => Some(s@),
        ScalarValue::Decimal(s) => Some(s@),
        ScalarValue::String(s) => Some(s@),
        ScalarValue::DateTime(t) => datetime_literal(*t),
        ScalarValue::ConstantLiteral(s) => Some(s@),
        ScalarValue::Expression(_, _, _) => None,
    }
}

/// The literal of the zero value of a type: `false`, `0`, the empty string,
/// the Unix epoch, the first value of an enum. A relation has none, nor has
/// an enum that the data model lacks or that is empty.
pub open spec fn zero_literal(dm: &Datamodel, t: &FieldType) -> Option<Seq<char>> {
    match t {
        FieldType::Base(ScalarType::Boolean) => Some("false"@),
        FieldType::Base(ScalarType::Int) => Some("0"@),
        FieldType::Base(ScalarType::Float) => Some("0"@),
        FieldType::Base(ScalarType::String) => Some(""@),
        FieldType::Base(ScalarType::Decimal) => Some("0"@),
        FieldType::Base(ScalarType::DateTime) => datetime_literal(Timestamp { secs: 0, nanos: 0 }),
        FieldType::Enum(name) => if dm.has_enum(name@) && dm.enum_named(name@).values@.len() > 0 {
            Some(dm.enum_named(name@).values@[0]@)
        } else {
            None
        },
        FieldType::Relation(_) => None,
    }
}

/// The literal that a field's column falls back on: that of its default
/// value, or of the zero value of its type where the default is a call or
/// is not there.
pub open spec fn default_literal(dm: &Datamodel, f: &Field) -> Option<Seq<char>> {
    match f.default_value {
        Some(ScalarValue::Expression(_, _, _)) => zero_literal(dm, &f.field_type),
        Some(v) => value_literal(&v),
        None => zero_literal(dm, &f.field_type),
    }
}

/// The default of a field's column: none for an id field, else its literal.
pub open spec fn column_default(dm: &Datamodel, f: &Field) -> Option<Seq<char>> {
    if f.is_id_spec() {
        None
    } else {
        default_literal(dm, f)
    }
}

/// The text of a date and time without the time zone that ends it: all but
/// the last four characters, a space and the three letters of the zone.
pub fn without_time_zone(text: &str) -> (r: String)
    requires
        text@.len() >= 4,
    ensures
        r@ == text@.subrange(0, text@.len() - 4),
{
    let n = text.unicode_len();
    String::from_str(text.substring_char(0, n - 4))
}

fn lower_datetime(t: &Timestamp) -> (r: Option<String>)
    ensures
        r.deep_view() == datetime_literal(*t),
{
    match format_utc(t.secs, t.nanos) {
        Some(s) => Some(without_time_zone(s.as_str())),
        None => None,
    }
}

fn lower_value(v: &ScalarValue) -> (r: Option<String>)
    ensures
        r.deep_view() == value_literal(v),
{
    match v {
        ScalarValue::Boolean(b) => Some(
            if *b {
                String::from_str("true")
            } else {
                String::from_str("false")
            },
        ),
        ScalarValue::Int(x) => Some(int_to_text(*x)),
        ScalarValue::Float(s) => Some(s.clone()),
        ScalarValue::Decimal(s) => Some(s.clone()),
        ScalarValue::String(s) => Some(s.clone()),
        ScalarValue::DateTime(t) => lower_datetime(t),
        ScalarValue::ConstantLiteral(s) => Some(s.clone()),
        ScalarValue::Expression(_, _, _) => None,
    }
}

/// The literal of the zero value of a type.
pub fn default_migration_value(field_type: &FieldType, datamodel: &Datamodel) -> (r: Option<
    String,
>)
    ensures
        r.deep_view() == zero_literal(datamodel, field_type),
{
    match field_type {
        FieldType::Base(ScalarType::Boolean) => Some(String::from_str("false")),
        FieldType::Base(ScalarType::Int) => Some(String::from_str("0")),
        FieldType::Base(ScalarType::Float) => Some(String::from_str("0")),
        FieldType::Base(ScalarType::String) => Some(String::from_str("")),
        FieldType::Base(ScalarType::Decimal) => Some(String::from_str("0")),
        FieldType::Base(ScalarType::DateTime) => lower_datetime(&Timestamp { secs: 0, nanos: 0 }),
        FieldType::Enum(name) => {
            match datamodel.find_enum(name.as_str()) {
                Some(e) => {
                    if e.values.len() > 0 {
                        Some(e.values[0].clone())
                    } else {
                        None
                    }
                },
                None => None,
            }
        },
        FieldType::Relation(_) => None,
    }
}

impl Field {
    /// The literal that this field's column falls back on, where it has one.
    pub fn migration_value(&self, datamodel: &Datamodel) -> (r: Option<String>)
        ensures
            r.deep_view() == default_literal(datamodel, self),
    {
        match &self.default_value {
            Some(ScalarValue::Expression(_, _, _)) => default_migration_value(
                &self.field_type,
                datamodel,
            ),
            Some(v) => lower_value(v),
            None => default_migration_value(&self.field_type, datamodel),
        }
    }

    /// The default of this field's column: none for an id field.
    pub fn migration_value_new(&self, datamodel: &Datamodel) -> (r: Option<String>)
        ensures
            r.deep_view() == column_default(datamodel, self),
    {
        if self.is_id() {
            None
        } else {
            self.migration_value(datamodel)
        }
    }
}

} // verus!
