use prisma_core::datamodel::{
    Field, FieldArity, FieldType, IdInfo, IdStrategy, Model, ScalarType, ScalarValue,
};
use prisma_core::error::SqlError;
use prisma_core::query_builder::{
    as_column, as_table, check_create, create_record, create_record_with,
    create_relation_table_records, create_relation_table_records_with, create_scalar_list_value,
    delete_in_chunks, delete_many, delete_relation_table_records, delete_scalar_list_values,
    update_many, update_scalar_list_values, RelationColumns, ScalarListTable, PARAMETER_LIMIT,
};
use prisma_core::relation::{RelationSide, RelationTable};
use prisma_core::sql::{ColumnName, Comparison, Delete, TableName};
use prisma_core::values::{Arg, GraphqlId, PrismaArgs, PrismaValue};

fn id_field(t: ScalarType, strategy: IdStrategy) -> Field {
    let mut f = Field::new("id", FieldType::Base(t));
    f.id_info = Some(IdInfo {
        strategy,
        sequence: None,
    });
    f
}

fn post_model(id: Field) -> Model {
    let mut m = Model::new("Post");
    m.add_field(id);
    let mut title = Field::new("title", FieldType::Base(ScalarType::String));
    title.database_name = Some("post_title".to_string());
    m.add_field(title);
    let mut views = Field::new("views", FieldType::Base(ScalarType::Int));
    views.arity = FieldArity::Optional;
    m.add_field(views);
    let mut tags = Field::new("tags", FieldType::Base(ScalarType::String));
    tags.arity = FieldArity::List;
    m.add_field(tags);
    let mut marks = Field::new("marks", FieldType::Base(ScalarType::Int));
    marks.arity = FieldArity::List;
    m.add_field(marks);
    m
}

fn args(pairs: Vec<(&str, PrismaValue)>) -> PrismaArgs {
    let mut a = PrismaArgs::new();
    for (n, v) in pairs {
        a.insert(n.to_string(), v);
    }
    a
}

fn table(name: &str) -> TableName {
    TableName {
        database: Some("db".to_string()),
        name: name.to_string(),
    }
}

fn column(table_name: &str, name: &str) -> ColumnName {
    ColumnName {
        table: Some(table(table_name)),
        name: name.to_string(),
        alias: None,
    }
}

fn ids(n: usize) -> Vec<GraphqlId> {
    (0..n).map(|i| GraphqlId::Int(i as i64)).collect()
}

fn in_ids(d: &Delete) -> &Vec<GraphqlId> {
    assert_eq!(d.conditions.len(), 1);
    match &d.conditions[0] {
        Comparison::In { ids, .. } => ids,
        other => panic!("not an id selection: {:?}", other),
    }
}

#[test]
fn table_and_column_of_a_model() {
    let m = post_model(id_field(ScalarType::Int, IdStrategy::Auto));
    assert_eq!(as_table(&m, "db"), table("Post"));
    assert_eq!(
        as_column(&m, "db", &m.fields[1]),
        column("Post", "post_title")
    );
}

#[test]
fn an_argument_is_set_once_for_a_field() {
    let mut a = args(vec![("a", PrismaValue::Int(1)), ("b", PrismaValue::Null)]);
    a.insert("a".to_string(), PrismaValue::Int(2));
    a.insert("c".to_string(), PrismaValue::Int(3));
    assert_eq!(
        a.args,
        vec![
            Arg {
                name: "a".to_string(),
                value: PrismaValue::Int(2)
            },
            Arg {
                name: "b".to_string(),
                value: PrismaValue::Null
            },
            Arg {
                name: "c".to_string(),
                value: PrismaValue::Int(3)
            },
        ]
    );
}

#[test]
fn args_are_looked_up_by_name() {
    let a = args(vec![("a", PrismaValue::Int(1)), ("b", PrismaValue::Null)]);
    assert!(a.has_arg_for("a"));
    assert!(!a.has_arg_for("c"));
    assert_eq!(a.get_field_value("a"), Some(&PrismaValue::Int(1)));
    assert_eq!(a.get_field_value("c"), None);
    assert!(PrismaValue::Null.is_null());
    assert!(!PrismaValue::Int(0).is_null());
    assert_eq!(PrismaValue::Int(3).to_id(), Some(GraphqlId::Int(3)));
    assert_eq!(
        PrismaValue::String("x".to_string()).to_id(),
        Some(GraphqlId::String("x".to_string()))
    );
    assert_eq!(PrismaValue::Boolean(true).to_id(), None);
    assert_eq!(GraphqlId::Int(3).duplicate(), GraphqlId::Int(3));
    assert_eq!(
        PrismaValue::Float("1.5".to_string()).duplicate(),
        PrismaValue::Float("1.5".to_string())
    );
}

#[test]
fn create_with_automatic_integer_id_returns_no_id() {
    let m = post_model(id_field(ScalarType::Int, IdStrategy::Auto));
    let a = args(vec![("title", PrismaValue::String("a".to_string()))]);
    assert!(check_create(&m, &a));
    let (insert, id) = create_record(&m, "db", &a);
    assert_eq!(id, None);
    assert_eq!(insert.table, table("Post"));
    assert_eq!(insert.columns, vec!["post_title".to_string()]);
    assert_eq!(
        insert.rows,
        vec![vec![PrismaValue::String("a".to_string())]]
    );
    assert_eq!(insert.returning, vec![column("Post", "id")]);
    assert!(!insert.on_conflict_do_nothing);
}

#[test]
fn create_with_string_id_makes_a_fresh_id() {
    let mut id = id_field(ScalarType::String, IdStrategy::Auto);
    id.default_value = Some(ScalarValue::Expression(
        "cuid".to_string(),
        ScalarType::String,
        Vec::new(),
    ));
    let m = post_model(id);
    let a = args(vec![
        ("views", PrismaValue::Int(3)),
        ("title", PrismaValue::String("a".to_string())),
        ("id", PrismaValue::Null),
    ]);
    assert!(check_create(&m, &a));
    let (insert, id) = create_record(&m, "db", &a);
    let id = id.unwrap();
    let text = match &id {
        GraphqlId::String(s) => s.clone(),
        other => panic!("not a string id: {:?}", other),
    };
    assert!(!text.is_empty());
    // Columns come in the order of the fields of the model.
    assert_eq!(
        insert.columns,
        vec![
            "id".to_string(),
            "post_title".to_string(),
            "views".to_string()
        ]
    );
    assert_eq!(
        insert.rows,
        vec![vec![
            PrismaValue::GraphqlId(id.clone()),
            PrismaValue::String("a".to_string()),
            PrismaValue::Int(3)
        ]]
    );
    let (_, other) = create_record(&m, "db", &a);
    assert_ne!(other.unwrap(), id);
}

#[test]
fn create_with_given_id_returns_it() {
    let m = post_model(id_field(ScalarType::Int, IdStrategy::Manual));
    let a = args(vec![
        ("id", PrismaValue::Int(7)),
        ("title", PrismaValue::String("a".to_string())),
    ]);
    assert!(check_create(&m, &a));
    let (insert, id) = create_record_with(&m, "db", &a, GraphqlId::String("unused".to_string()));
    assert_eq!(id, Some(GraphqlId::Int(7)));
    assert_eq!(
        insert.columns,
        vec!["id".to_string(), "post_title".to_string()]
    );
    assert_eq!(
        insert.rows,
        vec![vec![
            PrismaValue::Int(7),
            PrismaValue::String("a".to_string())
        ]]
    );
    let (insert, id) = create_record_with(
        &post_model({
            let mut f = id_field(ScalarType::String, IdStrategy::Manual);
            f.database_name = Some("pk".to_string());
            f
        }),
        "db",
        &args(vec![]),
        GraphqlId::String("fresh".to_string()),
    );
    assert_eq!(id, Some(GraphqlId::String("fresh".to_string())));
    assert_eq!(insert.columns, vec!["pk".to_string()]);
    assert_eq!(insert.returning, vec![column("Post", "pk")]);
}

#[test]
fn create_is_refused_where_no_id_can_be_had() {
    let manual_int = post_model(id_field(ScalarType::Int, IdStrategy::Manual));
    assert!(!check_create(&manual_int, &args(vec![])));
    assert!(!check_create(
        &manual_int,
        &args(vec![("id", PrismaValue::Boolean(true))])
    ));
    assert!(!check_create(&Model::new("Empty"), &args(vec![])));
}

#[test]
fn update_many_chunks_the_ids() {
    let m = post_model(id_field(ScalarType::Int, IdStrategy::Auto));
    let a = args(vec![
        ("title", PrismaValue::String("x".to_string())),
        ("views", PrismaValue::Null),
    ]);
    let updates = update_many(&m, "db", &ids(2 * PARAMETER_LIMIT + 1), &a).unwrap();
    // Two values are set, so a statement selects at most 9998 ids.
    assert_eq!(updates.len(), 3);
    let sizes: Vec<usize> = updates
        .iter()
        .map(|u| match &u.conditions[0] {
            Comparison::In { ids, .. } => ids.len(),
            other => panic!("not an id selection: {:?}", other),
        })
        .collect();
    assert_eq!(sizes, vec![9998, 9998, 5]);
    for u in &updates {
        assert_eq!(u.table, table("Post"));
        assert_eq!(
            u.assignments,
            vec![
                Arg {
                    name: "post_title".to_string(),
                    value: PrismaValue::String("x".to_string())
                },
                Arg {
                    name: "views".to_string(),
                    value: PrismaValue::Null
                },
            ]
        );
        assert_eq!(u.conditions.len(), 1);
    }
    match &updates[2].conditions[0] {
        Comparison::In { column: c, ids } => {
            assert_eq!(c, &column("Post", "id"));
            assert_eq!(
                ids,
                &(19996..=20000).map(GraphqlId::Int).collect::<Vec<GraphqlId>>()
            );
        }
        other => panic!("not an id selection: {:?}", other),
    }
    assert_eq!(update_many(&m, "db", &ids(9998), &a).unwrap().len(), 1);
    assert_eq!(update_many(&m, "db", &ids(10000), &a).unwrap().len(), 2);
}

#[test]
fn update_many_never_binds_more_than_the_limit() {
    let m = post_model(id_field(ScalarType::Int, IdStrategy::Auto));
    let a = args(vec![
        ("title", PrismaValue::String("x".to_string())),
        ("views", PrismaValue::Int(1)),
    ]);
    let updates = update_many(&m, "db", &ids(PARAMETER_LIMIT - 2), &a).unwrap();
    assert_eq!(updates.len(), 1);
    let bound = |u: &prisma_core::sql::Update| {
        u.assignments.len()
            + match &u.conditions[0] {
                Comparison::In { ids, .. } => ids.len(),
                other => panic!("not an id selection: {:?}", other),
            }
    };
    assert_eq!(bound(&updates[0]), PARAMETER_LIMIT);
    // One id more goes into a statement of its own.
    let updates = update_many(&m, "db", &ids(PARAMETER_LIMIT - 1), &a).unwrap();
    assert_eq!(updates.len(), 2);
    assert_eq!(bound(&updates[0]), PARAMETER_LIMIT);
    assert_eq!(bound(&updates[1]), 3);
    // With ten thousand ids and one value no statement binds 10001 values.
    let one = args(vec![("title", PrismaValue::String("x".to_string()))]);
    let updates = update_many(&m, "db", &ids(PARAMETER_LIMIT), &one).unwrap();
    assert_eq!(
        updates.iter().map(bound).collect::<Vec<usize>>(),
        vec![PARAMETER_LIMIT, 2]
    );
    for u in update_many(&m, "db", &ids(3 * PARAMETER_LIMIT + 7), &a).unwrap() {
        assert!(bound(&u) <= PARAMETER_LIMIT);
    }
}

#[test]
fn update_many_refuses_values_that_fill_a_statement() {
    let mut m = Model::new("Wide");
    m.add_field(id_field(ScalarType::Int, IdStrategy::Auto));
    let mut a = PrismaArgs::new();
    for i in 0..PARAMETER_LIMIT {
        let name = format!("f{}", i);
        let mut f = Field::new(&name, FieldType::Base(ScalarType::Int));
        f.arity = FieldArity::Optional;
        m.add_field(f);
        a.insert(name, PrismaValue::Int(1));
    }
    assert_eq!(
        update_many(&m, "db", &ids(1), &a),
        Err(SqlError::InternalInvariant {
            message: "an update sets more values than a statement binds".to_string()
        })
    );
    assert_eq!(update_many(&m, "db", &ids(0), &a), Ok(Vec::new()));
}

#[test]
fn update_many_without_args_or_ids_does_nothing() {
    let m = post_model(id_field(ScalarType::Int, IdStrategy::Auto));
    let a = args(vec![("title", PrismaValue::String("x".to_string()))]);
    assert_eq!(update_many(&m, "db", &ids(0), &a), Ok(Vec::new()));
    assert_eq!(
        update_many(&m, "db", &ids(3), &args(vec![])),
        Ok(Vec::new())
    );
    // A required field is never set to null, whatever the ids.
    let null_title = args(vec![("title", PrismaValue::Null)]);
    assert_eq!(
        update_many(&m, "db", &ids(0), &null_title),
        Err(SqlError::FieldCannotBeNull {
            field: "title".to_string()
        })
    );
}

#[test]
fn update_many_refuses_null_for_a_required_field() {
    let m = post_model(id_field(ScalarType::Int, IdStrategy::Auto));
    let a = args(vec![
        ("views", PrismaValue::Null),
        ("title", PrismaValue::Null),
    ]);
    assert_eq!(
        update_many(&m, "db", &ids(3), &a),
        Err(SqlError::FieldCannotBeNull {
            field: "title".to_string()
        })
    );
}

#[test]
fn delete_many_clears_the_side_tables_first() {
    let m = post_model(id_field(ScalarType::Int, IdStrategy::Auto));
    let deletes = delete_many(&m, "db", &ids(PARAMETER_LIMIT + 5));
    let tables: Vec<&str> = deletes.iter().map(|d| d.table.name.as_str()).collect();
    assert_eq!(
        tables,
        vec![
            "Post_tags",
            "Post_marks",
            "Post",
            "Post_tags",
            "Post_marks",
            "Post"
        ]
    );
    let sizes: Vec<usize> = deletes.iter().map(|d| in_ids(d).len()).collect();
    assert_eq!(sizes, vec![10000, 10000, 10000, 5, 5, 5]);
    for d in &deletes {
        assert!(in_ids(d).len() <= 10000);
        assert_eq!(d.table.database, Some("db".to_string()));
    }
    match &deletes[0].conditions[0] {
        Comparison::In { column: c, .. } => assert_eq!(c, &column("Post_tags", "nodeId")),
        other => panic!("not an id selection: {:?}", other),
    }
    match &deletes[2].conditions[0] {
        Comparison::In { column: c, ids } => {
            assert_eq!(c, &column("Post", "id"));
            assert_eq!(ids[0], GraphqlId::Int(0));
            assert_eq!(ids[9999], GraphqlId::Int(9999));
        }
        other => panic!("not an id selection: {:?}", other),
    }
    assert_eq!(in_ids(&deletes[5])[0], GraphqlId::Int(10000));
    assert!(delete_many(&m, "db", &ids(0)).is_empty());
}

#[test]
fn delete_in_chunks_binds_at_most_ten_thousand_ids() {
    let c = ColumnName {
        table: None,
        name: "x".to_string(),
        alias: None,
    };
    let deletes = delete_in_chunks(&table("T"), &ids(30001), &c);
    let sizes: Vec<usize> = deletes.iter().map(|d| in_ids(d).len()).collect();
    assert_eq!(sizes, vec![10000, 10000, 10000, 1]);
    assert!(delete_in_chunks(&table("T"), &ids(0), &c).is_empty());
    assert_eq!(delete_in_chunks(&table("T"), &ids(1), &c).len(), 1);
}

#[test]
fn scalar_list_values_are_replaced() {
    let m = post_model(id_field(ScalarType::Int, IdStrategy::Auto));
    let list_table = ScalarListTable::of_field(&m, "db", &m.fields[3]);
    assert_eq!(list_table.table, table("Post_tags"));
    assert_eq!(list_table.node_id_column(), column("Post_tags", "nodeId"));

    let values = Some(vec![
        PrismaValue::String("a".to_string()),
        PrismaValue::String("b".to_string()),
        PrismaValue::String("c".to_string()),
    ]);
    let insert = create_scalar_list_value(table("Post_tags"), &values, &GraphqlId::Int(7)).unwrap();
    assert_eq!(
        insert.columns,
        vec![
            "position".to_string(),
            "value".to_string(),
            "nodeId".to_string()
        ]
    );
    assert_eq!(
        insert.rows,
        vec![
            vec![
                PrismaValue::Int(1000),
                PrismaValue::String("a".to_string()),
                PrismaValue::GraphqlId(GraphqlId::Int(7))
            ],
            vec![
                PrismaValue::Int(2000),
                PrismaValue::String("b".to_string()),
                PrismaValue::GraphqlId(GraphqlId::Int(7))
            ],
            vec![
                PrismaValue::Int(3000),
                PrismaValue::String("c".to_string()),
                PrismaValue::GraphqlId(GraphqlId::Int(7))
            ],
        ]
    );
    assert!(insert.returning.is_empty());
    assert!(!insert.on_conflict_do_nothing);
    assert_eq!(
        create_scalar_list_value(table("T"), &None, &GraphqlId::Int(7)),
        None
    );
    assert_eq!(
        create_scalar_list_value(table("T"), &Some(Vec::new()), &GraphqlId::Int(7)),
        None
    );

    let (deletes, inserts) = update_scalar_list_values(&list_table, &values, ids(2));
    assert_eq!(deletes.len(), 1);
    assert_eq!(deletes[0].table, table("Post_tags"));
    assert_eq!(
        deletes[0].conditions,
        vec![Comparison::In {
            column: ColumnName {
                table: None,
                name: "nodeId".to_string(),
                alias: None
            },
            ids: ids(2)
        }]
    );
    assert_eq!(inserts.len(), 2);
    assert_eq!(
        inserts[1].rows[0][2],
        PrismaValue::GraphqlId(GraphqlId::Int(1))
    );
    assert_eq!(inserts[0].table, table("Post_tags"));

    let (deletes, inserts) = update_scalar_list_values(&list_table, &Some(Vec::new()), ids(2));
    assert_eq!(deletes.len(), 1);
    assert!(inserts.is_empty());
    let (deletes, inserts) = update_scalar_list_values(&list_table, &None, ids(2));
    assert_eq!(deletes.len(), 1);
    assert!(inserts.is_empty());
    let (deletes, inserts) = update_scalar_list_values(&list_table, &values, Vec::new());
    assert!(deletes.is_empty());
    assert!(inserts.is_empty());
    assert_eq!(delete_scalar_list_values(&list_table, &ids(10001)).len(), 2);
}

fn relation_columns(id_column: Option<&str>) -> RelationColumns {
    RelationColumns::of_side(
        &RelationTable {
            table: "_PostToTag".to_string(),
            model_a_column: "A".to_string(),
            model_b_column: "B".to_string(),
            id_column: id_column.map(|s| s.to_string()),
        },
        RelationSide::B,
        "db",
    )
}

#[test]
fn relation_columns_are_seen_from_one_side() {
    let c = relation_columns(Some("id"));
    assert_eq!(c.table, table("_PostToTag"));
    assert_eq!(c.parent_column, column("_PostToTag", "B"));
    assert_eq!(c.child_column, column("_PostToTag", "A"));
    assert_eq!(c.id_column, Some(column("_PostToTag", "id")));
    let c = RelationColumns::of_side(
        &RelationTable {
            table: "_PostToTag".to_string(),
            model_a_column: "A".to_string(),
            model_b_column: "B".to_string(),
            id_column: None,
        },
        RelationSide::A,
        "db",
    );
    assert_eq!(c.parent_column, column("_PostToTag", "A"));
    assert_eq!(c.child_column, column("_PostToTag", "B"));
    assert_eq!(c.id_column, None);
}

#[test]
fn relation_rows_are_inserted_once() {
    let insert =
        create_relation_table_records(&relation_columns(None), &GraphqlId::Int(1), &ids(2));
    assert_eq!(insert.table, table("_PostToTag"));
    assert_eq!(insert.columns, vec!["B".to_string(), "A".to_string()]);
    assert_eq!(
        insert.rows,
        vec![
            vec![
                PrismaValue::GraphqlId(GraphqlId::Int(1)),
                PrismaValue::GraphqlId(GraphqlId::Int(0))
            ],
            vec![
                PrismaValue::GraphqlId(GraphqlId::Int(1)),
                PrismaValue::GraphqlId(GraphqlId::Int(1))
            ],
        ]
    );
    assert!(insert.on_conflict_do_nothing);
    assert!(insert.returning.is_empty());

    let with_ids =
        create_relation_table_records(&relation_columns(Some("id")), &GraphqlId::Int(1), &ids(2));
    assert_eq!(
        with_ids.columns,
        vec!["B".to_string(), "A".to_string(), "id".to_string()]
    );
    assert_eq!(with_ids.rows.len(), 2);
    assert_eq!(with_ids.rows[0].len(), 3);
    assert_ne!(with_ids.rows[0][2], with_ids.rows[1][2]);
    match &with_ids.rows[0][2] {
        PrismaValue::String(s) => assert!(!s.is_empty()),
        other => panic!("not a string: {:?}", other),
    }

    let given = create_relation_table_records_with(
        &relation_columns(Some("id")),
        &GraphqlId::Int(1),
        &ids(1),
        &vec!["fresh".to_string()],
    );
    assert_eq!(
        given.rows,
        vec![vec![
            PrismaValue::GraphqlId(GraphqlId::Int(1)),
            PrismaValue::GraphqlId(GraphqlId::Int(0)),
            PrismaValue::String("fresh".to_string())
        ]]
    );
}

#[test]
fn relation_rows_are_deleted_by_parent_and_children() {
    let d = delete_relation_table_records(&relation_columns(None), &GraphqlId::Int(1), &ids(2));
    assert_eq!(d.table, table("_PostToTag"));
    assert_eq!(
        d.conditions,
        vec![
            Comparison::Equals {
                column: column("_PostToTag", "B"),
                value: GraphqlId::Int(1)
            },
            Comparison::In {
                column: column("_PostToTag", "A"),
                ids: ids(2)
            },
        ]
    );
}
