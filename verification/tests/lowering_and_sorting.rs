use prisma_core::calculator::{check, CalculatorError, SqlSchemaCalculator};
use prisma_core::datamodel::{
    Datamodel, Enum, Field, FieldArity, FieldType, IdInfo, IdStrategy, IndexDefinition, IndexType,
    Model, ScalarType, ScalarValue, Timestamp,
};
use prisma_core::lowering::{
    column_arity, column_type, default_migration_value, is_scalar, without_time_zone,
};
use prisma_core::sorting::sort_by_name;
use prisma_core::sql_schema::{self, Column, ColumnArity, ColumnType, ColumnTypeFamily};
use prisma_core::text::{concat2, concat3, int_to_text, nat_to_text, same_text, str_le};

fn int_id() -> Field {
    let mut f = Field::new("id", FieldType::Base(ScalarType::Int));
    f.id_info = Some(IdInfo {
        strategy: IdStrategy::Auto,
        sequence: None,
    });
    f
}

fn scalar(name: &str, t: ScalarType) -> Field {
    Field::new(name, FieldType::Base(t))
}

fn with_default(name: &str, t: ScalarType, v: ScalarValue) -> Field {
    let mut f = scalar(name, t);
    f.default_value = Some(v);
    f
}

fn single_model(fields: Vec<Field>) -> Datamodel {
    let mut m = Model::new("Thing");
    m.add_field(int_id());
    for f in fields {
        m.add_field(f);
    }
    let mut dm = Datamodel::new();
    dm.add_model(m);
    dm
}

fn default_of(dm: &Datamodel, column: &str) -> Option<String> {
    let schema = SqlSchemaCalculator::calculate(dm).unwrap();
    schema.tables[0]
        .columns
        .iter()
        .find(|c| c.name == column)
        .unwrap()
        .default
        .clone()
}

#[test]
fn text_helpers() {
    assert!(same_text("abc", "abc"));
    assert!(!same_text("abc", "abd"));
    assert_eq!(concat2("ab", "cd"), "abcd");
    assert_eq!(concat3("a", ".", "b"), "a.b");
    assert_eq!(nat_to_text(0), "0");
    assert_eq!(nat_to_text(9), "9");
    assert_eq!(nat_to_text(10), "10");
    assert_eq!(nat_to_text(1234567890), "1234567890");
    assert_eq!(int_to_text(0), "0");
    assert_eq!(int_to_text(-7), "-7");
    assert_eq!(int_to_text(i32::MAX), "2147483647");
    assert_eq!(int_to_text(i32::MIN), "-2147483648");
}

#[test]
fn strings_are_ordered_by_their_bytes() {
    assert!(str_le("", ""));
    assert!(str_le("", "a"));
    assert!(!str_le("a", ""));
    assert!(str_le("a", "a"));
    assert!(str_le("a", "b"));
    assert!(!str_le("b", "a"));
    assert!(str_le("ab", "abc"));
    assert!(!str_le("abc", "ab"));
    assert!(str_le("B", "a"));
    assert!(str_le("Z", "a"));
    assert!(str_le("z", "\u{e9}"));
    for (a, b) in [
        ("nodeId", "position"),
        ("position", "value"),
        ("A", "B"),
        ("id", "title"),
    ] {
        assert_eq!(str_le(a, b), a <= b);
        assert_eq!(str_le(b, a), b <= a);
    }
}

fn col(name: &str, family: ColumnTypeFamily) -> Column {
    Column {
        name: name.to_string(),
        tpe: ColumnType::pure(family),
        arity: ColumnArity::Required,
        default: None,
        auto_increment: false,
    }
}

#[test]
fn sorting_is_ascending_and_stable() {
    let sorted = sort_by_name(vec![
        col("b", ColumnTypeFamily::Int),
        col("a", ColumnTypeFamily::String),
        col("c", ColumnTypeFamily::Int),
        col("a", ColumnTypeFamily::Boolean),
        col("B", ColumnTypeFamily::Float),
    ]);
    let names: Vec<&str> = sorted.iter().map(|c| c.name.as_str()).collect();
    assert_eq!(names, vec!["B", "a", "a", "b", "c"]);
    assert_eq!(sorted[1].tpe.family, ColumnTypeFamily::String);
    assert_eq!(sorted[2].tpe.family, ColumnTypeFamily::Boolean);
    assert!(sort_by_name(Vec::new()).is_empty());
}

#[test]
fn columns_of_every_table_ascend() {
    let dm = single_model(vec![
        scalar("zeta", ScalarType::String),
        scalar("alpha", ScalarType::Int),
        scalar("Mid", ScalarType::Boolean),
    ]);
    let schema = SqlSchemaCalculator::calculate(&dm).unwrap();
    for table in &schema.tables {
        for pair in table.columns.windows(2) {
            assert!(pair[0].name <= pair[1].name);
        }
    }
    let names: Vec<&str> = schema.tables[0]
        .columns
        .iter()
        .map(|c| c.name.as_str())
        .collect();
    assert_eq!(names, vec!["Mid", "alpha", "id", "zeta"]);
}

#[test]
fn calculation_is_deterministic() {
    let dm = single_model(vec![
        scalar("b", ScalarType::String),
        scalar("a", ScalarType::Int),
        with_default(
            "c",
            ScalarType::DateTime,
            ScalarValue::DateTime(Timestamp { secs: 5, nanos: 0 }),
        ),
    ]);
    assert_eq!(
        SqlSchemaCalculator::calculate(&dm),
        SqlSchemaCalculator::calculate(&dm)
    );
}

#[test]
fn zero_values_are_the_defaults_of_fields_without_default() {
    let dm = single_model(vec![
        scalar("b", ScalarType::Boolean),
        scalar("i", ScalarType::Int),
        scalar("f", ScalarType::Float),
        scalar("s", ScalarType::String),
        scalar("d", ScalarType::DateTime),
    ]);
    assert_eq!(default_of(&dm, "b"), Some("false".to_string()));
    assert_eq!(default_of(&dm, "i"), Some("0".to_string()));
    assert_eq!(default_of(&dm, "f"), Some("0".to_string()));
    assert_eq!(default_of(&dm, "s"), Some("".to_string()));
    assert_eq!(
        default_of(&dm, "d"),
        Some("1970-01-01 00:00:00".to_string())
    );
    assert_eq!(default_of(&dm, "id"), None);
}

#[test]
fn defaults_are_lowered_to_literals() {
    let dm = single_model(vec![
        with_default("b", ScalarType::Boolean, ScalarValue::Boolean(true)),
        with_default("i", ScalarType::Int, ScalarValue::Int(-42)),
        with_default(
            "f",
            ScalarType::Float,
            ScalarValue::Float("1.5".to_string()),
        ),
        with_default(
            "s",
            ScalarType::String,
            ScalarValue::String("hello".to_string()),
        ),
        with_default(
            "d",
            ScalarType::DateTime,
            ScalarValue::DateTime(Timestamp {
                secs: 1431648000,
                nanos: 0,
            }),
        ),
        with_default(
            "e",
            ScalarType::String,
            ScalarValue::Expression("now".to_string(), ScalarType::String, Vec::new()),
        ),
    ]);
    assert_eq!(default_of(&dm, "b"), Some("true".to_string()));
    assert_eq!(default_of(&dm, "i"), Some("-42".to_string()));
    assert_eq!(default_of(&dm, "f"), Some("1.5".to_string()));
    assert_eq!(default_of(&dm, "s"), Some("hello".to_string()));
    assert_eq!(
        default_of(&dm, "d"),
        Some("2015-05-15 00:00:00".to_string())
    );
    assert_eq!(default_of(&dm, "e"), Some("".to_string()));
}

#[test]
fn enum_fields_are_strings_and_default_to_the_first_value() {
    let mut dm = single_model(vec![
        Field::new("color", FieldType::Enum("Color".to_string())),
        {
            let mut f = Field::new("shade", FieldType::Enum("Color".to_string()));
            f.default_value = Some(ScalarValue::ConstantLiteral("BLUE".to_string()));
            f
        },
    ]);
    dm.add_enum(Enum {
        name: "Color".to_string(),
        values: vec!["RED".to_string(), "BLUE".to_string()],
        database_name: None,
        documentation: None,
    });
    let schema = SqlSchemaCalculator::calculate(&dm).unwrap();
    let color = schema.tables[0]
        .columns
        .iter()
        .find(|c| c.name == "color")
        .unwrap();
    assert_eq!(color.tpe.family, ColumnTypeFamily::String);
    assert_eq!(color.default, Some("RED".to_string()));
    assert_eq!(default_of(&dm, "shade"), Some("BLUE".to_string()));
    assert_eq!(
        default_migration_value(&FieldType::Enum("Color".to_string()), &dm),
        Some("RED".to_string())
    );
    assert_eq!(
        default_migration_value(&FieldType::Enum("Nope".to_string()), &dm),
        None
    );
}

#[test]
fn problems_stop_the_calculation() {
    let decimal = single_model(vec![scalar("price", ScalarType::Decimal)]);
    assert_eq!(
        SqlSchemaCalculator::calculate(&decimal),
        Err(CalculatorError::UnsupportedType {
            model: "Thing".to_string(),
            field: "price".to_string()
        })
    );

    let unknown_enum = single_model(vec![Field::new(
        "color",
        FieldType::Enum("Color".to_string()),
    )]);
    assert_eq!(
        check(&unknown_enum),
        Err(CalculatorError::InvalidDefault {
            model: "Thing".to_string(),
            field: "color".to_string()
        })
    );

    let out_of_range = single_model(vec![with_default(
        "d",
        ScalarType::DateTime,
        ScalarValue::DateTime(Timestamp {
            secs: i64::MAX,
            nanos: 0,
        }),
    )]);
    assert_eq!(
        check(&out_of_range),
        Err(CalculatorError::InvalidDefault {
            model: "Thing".to_string(),
            field: "d".to_string()
        })
    );

    let mut with_index = single_model(vec![scalar("a", ScalarType::Int)]);
    with_index.models[0].indexes.push(IndexDefinition {
        name: None,
        fields: vec!["a".to_string(), "nope".to_string()],
        tpe: IndexType::Normal,
    });
    let err = check(&with_index).unwrap_err();
    assert_eq!(
        err,
        CalculatorError::UnknownField {
            model: "Thing".to_string(),
            field: "nope".to_string()
        }
    );
    assert_eq!(err.message(), "Model Thing has no field nope");

    // The first model with a problem is reported.
    let mut two = Datamodel::new();
    two.add_model(Model::new("First"));
    two.add_model(Model::new("Second"));
    assert_eq!(
        check(&two),
        Err(CalculatorError::MissingIdField {
            model: "First".to_string()
        })
    );
    assert_eq!(check(&single_model(Vec::new())), Ok(()));
}

#[test]
fn indexes_are_named_after_table_and_columns() {
    let mut unique = scalar("email", ScalarType::String);
    unique.is_unique = true;
    unique.database_name = Some("email_address".to_string());
    let mut dm = single_model(vec![
        unique,
        scalar("first", ScalarType::String),
        scalar("last", ScalarType::String),
    ]);
    dm.models[0].database_name = Some("things".to_string());
    dm.models[0].indexes.push(IndexDefinition {
        name: None,
        fields: vec!["first".to_string(), "last".to_string(), "email".to_string()],
        tpe: IndexType::Normal,
    });
    dm.models[0].indexes.push(IndexDefinition {
        name: Some("by_name".to_string()),
        fields: vec!["last".to_string()],
        tpe: IndexType::Unique,
    });
    let schema = SqlSchemaCalculator::calculate(&dm).unwrap();
    let table = &schema.tables[0];
    assert_eq!(table.name, "things");
    assert_eq!(
        table.indices,
        vec![
            sql_schema::Index {
                name: "things.email_address".to_string(),
                columns: vec!["email_address".to_string()],
                tpe: sql_schema::IndexType::Unique,
            },
            sql_schema::Index {
                name: "things.first_last_email_address".to_string(),
                columns: vec![
                    "first".to_string(),
                    "last".to_string(),
                    "email_address".to_string()
                ],
                tpe: sql_schema::IndexType::Normal,
            },
            sql_schema::Index {
                name: "by_name".to_string(),
                columns: vec!["last".to_string()],
                tpe: sql_schema::IndexType::Unique,
            },
        ]
    );
}

#[test]
fn composite_id_extends_the_primary_key() {
    let mut dm = single_model(vec![
        scalar("a", ScalarType::Int),
        scalar("b", ScalarType::Int),
    ]);
    dm.models[0].id_fields = vec!["a".to_string(), "b".to_string()];
    let schema = SqlSchemaCalculator::calculate(&dm).unwrap();
    assert_eq!(
        schema.tables[0].primary_key.as_ref().unwrap().columns,
        vec!["id".to_string(), "a".to_string(), "b".to_string()]
    );
}

#[test]
fn field_types_and_arities_map_to_columns() {
    assert_eq!(
        column_type(&scalar("x", ScalarType::Int)),
        Some(ColumnType::pure(ColumnTypeFamily::Int))
    );
    assert_eq!(
        column_type(&scalar("x", ScalarType::Float)),
        Some(ColumnType::pure(ColumnTypeFamily::Float))
    );
    assert_eq!(
        column_type(&scalar("x", ScalarType::Boolean)),
        Some(ColumnType::pure(ColumnTypeFamily::Boolean))
    );
    assert_eq!(
        column_type(&scalar("x", ScalarType::String)),
        Some(ColumnType::pure(ColumnTypeFamily::String))
    );
    assert_eq!(
        column_type(&scalar("x", ScalarType::DateTime)),
        Some(ColumnType::pure(ColumnTypeFamily::DateTime))
    );
    assert_eq!(column_type(&scalar("x", ScalarType::Decimal)), None);
    assert_eq!(
        column_type(&Field::new("x", FieldType::Enum("E".to_string()))),
        Some(ColumnType::pure(ColumnTypeFamily::String))
    );
    let mut f = scalar("x", ScalarType::Int);
    assert!(is_scalar(&f));
    assert_eq!(column_arity(&f), ColumnArity::Required);
    f.arity = FieldArity::Optional;
    assert_eq!(column_arity(&f), ColumnArity::Nullable);
    f.arity = FieldArity::List;
    assert_eq!(column_arity(&f), ColumnArity::List);
    assert!(f.is_list());
    assert!(!f.is_required());
    assert!(!f.is_id());
    assert_eq!(f.db_name(), "x");
    f.database_name = Some("y".to_string());
    assert_eq!(f.db_name(), "y");
}

#[test]
fn the_time_zone_is_cut_off() {
    assert_eq!(without_time_zone("2015-05-15 00:00:00 UTC"), "2015-05-15 00:00:00");
    assert_eq!(without_time_zone("1970-01-01 00:00:00.500 UTC"), "1970-01-01 00:00:00.500");
    assert_eq!(without_time_zone(" UTC"), "");
    assert_eq!(without_time_zone("\u{e9}t\u{e9} UTC"), "\u{e9}t\u{e9}");
}

#[test]
fn fractions_of_a_second_stay_in_the_literal() {
    let dm = single_model(vec![with_default(
        "d",
        ScalarType::DateTime,
        ScalarValue::DateTime(Timestamp { secs: 1, nanos: 500_000_000 }),
    )]);
    assert_eq!(default_of(&dm, "d"), Some("1970-01-01 00:00:01.500".to_string()));
}
