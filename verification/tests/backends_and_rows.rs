use prisma_core::backend::{
    connector_api_factory_name, connector_test_fn_name, starts_with, Backend, TestEachConnectorArgs,
};
use prisma_core::error::{RecordFinderInfo, SqlError};
use prisma_core::query_builder::RelationColumns;
use prisma_core::read_ast::{
    OrderBy, QueryArguments, ScalarFieldRef, SelectedFields, SortOrder, Window,
};
use prisma_core::read_builder::{
    columns, cursor_condition, filter_ids, filter_ids_by_parents, related_records,
    with_pagination, without_pagination, CursorComparison, CursorCondition,
    ManyRelatedRecordsBaseQuery, ManyRelatedRecordsStrategy, OrderColumn, PagedSelect,
    RelatedSelect, Select, SelectCondition,
};
use prisma_core::relation::{RelationSide, RelationTable};
use prisma_core::sql::{ColumnName, TableName};
use prisma_core::transaction::{
    filter, find, find_id, find_id_by_parent, find_int, find_record, not_found_for,
    raw_json_changes, raw_json_rows, select_ids, RawJson, RawJsonField, SqlRow, TypeIdentifier,
};
use prisma_core::values::{GraphqlId, PrismaValue, SingleRecord};
use prisma_core::write_ast::{Filter, RecordFinder, RelationFieldRef};

#[test]
fn backends_are_chosen_by_connector_type() {
    assert_eq!(
        Backend::from_connector_type("postgresql"),
        Some(Backend::PostgreSql)
    );
    assert_eq!(Backend::from_connector_type("mysql"), Some(Backend::Mysql));
    assert_eq!(
        Backend::from_connector_type("sqlite"),
        Some(Backend::Sqlite)
    );
    assert_eq!(Backend::from_connector_type("postgres"), None);
    assert_eq!(Backend::from_connector_type(""), None);
    assert_eq!(
        Backend::PostgreSql.many_related_records_strategy(),
        ManyRelatedRecordsStrategy::RowNumber
    );
    assert_eq!(
        Backend::Sqlite.many_related_records_strategy(),
        ManyRelatedRecordsStrategy::RowNumber
    );
    assert_eq!(
        Backend::Mysql.many_related_records_strategy(),
        ManyRelatedRecordsStrategy::UnionAll
    );
    assert!(Backend::Sqlite.attaches_database());
    assert!(!Backend::Mysql.attaches_database());
    assert_eq!(
        Backend::Sqlite.checkout_statements(),
        vec!["PRAGMA foreign_keys = ON".to_string()]
    );
    assert!(Backend::PostgreSql.checkout_statements().is_empty());
}

#[test]
fn connectors_are_left_out_by_prefix() {
    assert!(starts_with("mysql_8", "mysql"));
    assert!(starts_with("mysql", "mysql"));
    assert!(starts_with("mysql", ""));
    assert!(!starts_with("my", "mysql"));
    assert!(!starts_with("sqlite", "mysql"));
    let all = TestEachConnectorArgs { ignore: None };
    assert_eq!(
        all.connectors_to_test(),
        vec!["postgres", "mysql", "mysql_8", "sqlite"]
    );
    let no_mysql = TestEachConnectorArgs {
        ignore: Some("mysql".to_string()),
    };
    assert_eq!(no_mysql.connectors_to_test(), vec!["postgres", "sqlite"]);
    let no_mysql_8 = TestEachConnectorArgs {
        ignore: Some("mysql_8".to_string()),
    };
    assert_eq!(
        no_mysql_8.connectors_to_test(),
        vec!["postgres", "mysql", "sqlite"]
    );
    let none_left = TestEachConnectorArgs {
        ignore: Some("".to_string()),
    };
    assert!(none_left.connectors_to_test().is_empty());
    assert_eq!(
        connector_test_fn_name("creates_a_table", "sqlite"),
        "creates_a_table_on_sqlite"
    );
    assert_eq!(connector_api_factory_name("mysql_8"), "mysql_8_test_api");
}

fn finder() -> RecordFinder {
    RecordFinder {
        model: "User".to_string(),
        field: "id".to_string(),
        value: PrismaValue::Int(1),
    }
}

fn info() -> RecordFinderInfo {
    RecordFinderInfo {
        model: "User".to_string(),
        field: "id".to_string(),
        value: PrismaValue::Int(1),
    }
}

fn posts() -> RelationFieldRef {
    RelationFieldRef {
        model: "User".to_string(),
        name: "posts".to_string(),
        db_name: "posts".to_string(),
        relation_name: "PostToUser".to_string(),
        is_list: true,
        is_required: false,
        related_model: "Post".to_string(),
        related_is_list: false,
        related_is_required: true,
    }
}

fn row(values: Vec<PrismaValue>) -> SqlRow {
    SqlRow { values }
}

#[test]
fn the_first_row_or_id_is_found() {
    assert_eq!(
        find(vec![
            row(vec![PrismaValue::Int(1)]),
            row(vec![PrismaValue::Int(2)])
        ]),
        Ok(row(vec![PrismaValue::Int(1)]))
    );
    assert_eq!(find(Vec::new()), Err(SqlError::RecordDoesNotExist));
    assert_eq!(
        find_int(&row(vec![PrismaValue::Int(9), PrismaValue::Null])),
        Ok(9)
    );
    assert_eq!(
        find_int(&row(vec![PrismaValue::Null])),
        Err(SqlError::ConversionError {
            from: "PrismaValue".to_string(),
            to: "i64".to_string()
        })
    );
    assert!(find_int(&row(Vec::new())).is_err());
    assert_eq!(
        find_id(vec![GraphqlId::Int(3), GraphqlId::Int(4)], &finder()),
        Ok(GraphqlId::Int(3))
    );
    assert_eq!(
        find_id(Vec::new(), &finder()),
        Err(SqlError::RecordNotFound { finder: info() })
    );
    assert_eq!(
        find_id_by_parent(vec![GraphqlId::Int(3)], &posts()),
        Ok(GraphqlId::Int(3))
    );
    assert_eq!(
        find_id_by_parent(Vec::new(), &posts()),
        Err(SqlError::RecordsNotConnected {
            relation: "PostToUser".to_string(),
            parent: "User".to_string(),
            child: "Post".to_string(),
        })
    );
}

#[test]
fn a_missing_row_is_a_missing_record() {
    assert_eq!(
        not_found_for(SqlError::RecordDoesNotExist, &finder()),
        SqlError::RecordNotFound { finder: info() }
    );
    let other = SqlError::ConnectionError {
        cause: "gone".to_string(),
    };
    assert_eq!(not_found_for(other.clone(), &finder()), other);
    assert_eq!(
        find_record(
            Ok(row(vec![PrismaValue::Int(1)])),
            &finder(),
            vec!["id".to_string()]
        ),
        Ok(SingleRecord {
            field_names: vec!["id".to_string()],
            values: vec![PrismaValue::Int(1)]
        })
    );
    assert_eq!(
        find_record(Err(SqlError::RecordDoesNotExist), &finder(), Vec::new()),
        Err(SqlError::RecordNotFound { finder: info() })
    );
    assert_eq!(
        find_record(Err(other.clone()), &finder(), Vec::new()),
        Err(other)
    );
}

#[test]
fn ids_are_read_from_rows() {
    let rows = vec![
        row(vec![
            PrismaValue::Int(1),
            PrismaValue::String("a".to_string()),
        ]),
        row(Vec::new()),
        row(vec![PrismaValue::GraphqlId(GraphqlId::Int(2))]),
    ];
    assert_eq!(
        select_ids(&rows),
        Ok(vec![
            GraphqlId::Int(1),
            GraphqlId::String("a".to_string()),
            GraphqlId::Int(2)
        ])
    );
    assert_eq!(select_ids(&Vec::new()), Ok(Vec::new()));
    assert_eq!(
        select_ids(&vec![
            row(vec![PrismaValue::Int(1)]),
            row(vec![PrismaValue::Null])
        ]),
        Err(SqlError::ConversionError {
            from: "PrismaValue".to_string(),
            to: "GraphqlId".to_string()
        })
    );
}

#[test]
fn rows_must_be_of_the_expected_types() {
    let idents = vec![
        TypeIdentifier::GraphQLID,
        TypeIdentifier::String,
        TypeIdentifier::Int,
    ];
    let good = vec![
        vec![
            PrismaValue::Int(1),
            PrismaValue::String("a".to_string()),
            PrismaValue::Int(3),
        ],
        vec![
            PrismaValue::String("x".to_string()),
            PrismaValue::Null,
            PrismaValue::Null,
        ],
    ];
    assert_eq!(
        filter(good.clone(), &idents),
        Ok(good.into_iter().map(row).collect::<Vec<_>>())
    );
    assert_eq!(filter(Vec::new(), &idents), Ok(Vec::new()));
    let wrong_type = vec![vec![
        PrismaValue::Int(1),
        PrismaValue::Int(2),
        PrismaValue::Int(3),
    ]];
    assert_eq!(
        filter(wrong_type, &idents),
        Err(SqlError::ConversionError {
            from: "PrismaValue".to_string(),
            to: "TypeIdentifier".to_string()
        })
    );
    let too_short = vec![vec![PrismaValue::Int(1)]];
    assert!(filter(too_short, &idents).is_err());
}

#[test]
fn raw_results_are_named_by_column() {
    let names = vec!["id".to_string(), "title".to_string()];
    let rows = vec![
        row(vec![
            PrismaValue::Int(1),
            PrismaValue::String("a".to_string()),
        ]),
        row(vec![PrismaValue::Int(2)]),
    ];
    assert_eq!(
        raw_json_rows(&names, &rows),
        RawJson::Rows(vec![
            vec![
                RawJsonField {
                    name: "id".to_string(),
                    value: PrismaValue::Int(1)
                },
                RawJsonField {
                    name: "title".to_string(),
                    value: PrismaValue::String("a".to_string())
                },
            ],
            vec![RawJsonField {
                name: "id".to_string(),
                value: PrismaValue::Int(2)
            }],
        ])
    );
    assert_eq!(raw_json_changes(3), RawJson::Changes(3));
}

fn table(name: &str) -> TableName {
    TableName {
        database: Some("db".to_string()),
        name: name.to_string(),
    }
}

fn column(table_name: &str, name: &str) -> ColumnName {
    ColumnName {
        table: Some(table(table_name)),
        name: name.to_string(),
        alias: None,
    }
}

fn relation_columns() -> RelationColumns {
    RelationColumns::of_side(
        &RelationTable {
            table: "_PostToUser".to_string(),
            model_a_column: "A".to_string(),
            model_b_column: "B".to_string(),
            id_column: None,
        },
        RelationSide::B,
        "db",
    )
}

fn aliased(name: &str, alias: Option<&str>) -> ColumnName {
    ColumnName {
        table: Some(TableName {
            database: None,
            name: "RelationTable".to_string(),
        }),
        name: name.to_string(),
        alias: alias.map(|a| a.to_string()),
    }
}

fn scalar(name: &str, db_name: &str, is_list: bool) -> ScalarFieldRef {
    ScalarFieldRef {
        model: "Post".to_string(),
        name: name.to_string(),
        db_name: db_name.to_string(),
        is_list,
    }
}

#[test]
fn the_columns_of_a_selection() {
    let mut author = posts();
    author.db_name = "author".to_string();
    let mut fields = SelectedFields {
        model: "Post".to_string(),
        id_field: scalar("id", "id", false),
        scalar: vec![
            scalar("title", "post_title", false),
            scalar("tags", "tags", true),
            scalar("id", "id", false),
        ],
        relation_inlined: vec![author],
        from_field: None,
    };
    assert_eq!(
        columns(&fields, &table("Post"), None),
        vec![
            column("Post", "post_title"),
            column("Post", "id"),
            column("Post", "author")
        ]
    );
    fields.from_field = Some(posts());
    assert_eq!(
        columns(&fields, &table("Post"), Some(&relation_columns())),
        vec![
            column("Post", "post_title"),
            column("Post", "id"),
            column("Post", "author"),
            aliased("A", Some("__RelatedModel__")),
            aliased("B", Some("__ParentModel__")),
        ]
    );
}

#[test]
fn ids_are_selected_by_filter_and_by_parents() {
    let f = Filter::And(Vec::new());
    let select = filter_ids(table("Post"), column("Post", "id"), &f);
    assert_eq!(select.table, table("Post"));
    assert_eq!(select.columns, vec![column("Post", "id")]);
    assert_eq!(select.conditions, vec![SelectCondition::Filter(&f)]);
    assert!(select.ordering.is_empty());
    assert_eq!(select.limit, None);

    let parents = vec![GraphqlId::Int(1), GraphqlId::Int(2)];
    let select = filter_ids_by_parents(
        &relation_columns(),
        table("Post"),
        column("Post", "id"),
        parents.clone(),
        Some(&f),
    );
    assert_eq!(select.table, table("Post"));
    assert_eq!(select.columns, vec![column("Post", "id")]);
    assert_eq!(
        select.conditions,
        vec![
            SelectCondition::InSelect {
                column: ColumnName {
                    table: None,
                    name: "id".to_string(),
                    alias: None
                },
                select: Box::new(Select {
                    table: table("_PostToUser"),
                    columns: vec![column("_PostToUser", "A")],
                    conditions: vec![SelectCondition::In {
                        column: column("_PostToUser", "B"),
                        ids: parents.clone()
                    }],
                    ordering: Vec::new(),
                    limit: None,
                }),
            },
            SelectCondition::Filter(&f),
        ]
    );
    let select = filter_ids_by_parents(
        &relation_columns(),
        table("Post"),
        column("Post", "id"),
        parents,
        None,
    );
    assert_eq!(select.conditions.len(), 1);
}

fn base<'a>(
    f: &'a Filter,
    order_by: Option<OrderBy>,
    reverse: bool,
) -> ManyRelatedRecordsBaseQuery<'a> {
    ManyRelatedRecordsBaseQuery {
        relation: relation_columns(),
        from_record_ids: vec![GraphqlId::Int(1)],
        query: Select {
            table: table("Post"),
            columns: vec![column("Post", "id")],
            conditions: Vec::new(),
            ordering: Vec::new(),
            limit: None,
        },
        order_by,
        is_reverse_order: reverse,
        condition: vec![SelectCondition::Filter(f)],
        cursor: Vec::new(),
    }
}

#[test]
fn related_records_without_pagination() {
    let f = Filter::Or(Vec::new());
    let select = without_pagination(base(&f, None, false));
    assert_eq!(select.table, table("Post"));
    assert_eq!(
        select.conditions,
        vec![
            SelectCondition::In {
                column: aliased("B", None),
                ids: vec![GraphqlId::Int(1)]
            },
            SelectCondition::Filter(&f),
        ]
    );
    assert_eq!(
        select.ordering,
        vec![OrderColumn {
            column: aliased("A", None),
            descending: false
        }]
    );

    let by_title = |order| {
        Some(OrderBy {
            field: "title".to_string(),
            sort_order: order,
        })
    };
    let title = ColumnName {
        table: None,
        name: "title".to_string(),
        alias: None,
    };
    let cases = [
        (SortOrder::Ascending, false, false, false),
        (SortOrder::Descending, false, true, false),
        (SortOrder::Ascending, true, true, true),
        (SortOrder::Descending, true, false, true),
    ];
    for (order, reverse, first, second) in cases {
        let select = without_pagination(base(&f, by_title(order), reverse));
        assert_eq!(
            select.ordering,
            vec![
                OrderColumn {
                    column: title.clone(),
                    descending: first
                },
                OrderColumn {
                    column: aliased("A", None),
                    descending: second
                },
            ]
        );
    }
}

#[test]
fn query_arguments_know_whether_they_page() {
    let mut args = QueryArguments::empty();
    assert!(!args.is_with_pagination());
    assert!(!args.is_reverse_order());
    assert_eq!(
        args.window(),
        Window {
            skip: 0,
            take: None
        }
    );
    args.take = Some(-3);
    assert!(args.is_with_pagination());
    assert!(args.is_reverse_order());
    assert_eq!(
        args.window(),
        Window {
            skip: 0,
            take: Some(3)
        }
    );
    let mut args = QueryArguments::empty();
    args.skip = Some(1);
    args.take = Some(5);
    assert!(args.is_with_pagination());
    assert!(!args.is_reverse_order());
    assert_eq!(
        args.window(),
        Window {
            skip: 1,
            take: Some(5)
        }
    );
    args.take = Some(i64::MIN);
    assert_eq!(args.window().take, Some(9223372036854775808));
    let mut args = QueryArguments::empty();
    args.cursor = Some(GraphqlId::Int(1));
    assert!(args.is_with_pagination());
}

#[test]
fn related_records_with_pagination() {
    let f = Filter::Or(Vec::new());
    let by_title = Some(OrderBy {
        field: "title".to_string(),
        sort_order: SortOrder::Descending,
    });
    let title = ColumnName {
        table: None,
        name: "title".to_string(),
        alias: None,
    };
    let window = Window {
        skip: 2,
        take: Some(3),
    };

    let paged = with_pagination(
        Backend::Sqlite.many_related_records_strategy(),
        base(&f, by_title.clone(), false),
        window,
    );
    assert_eq!(
        paged,
        PagedSelect::RowNumber {
            select: Select {
                table: table("Post"),
                columns: vec![column("Post", "id")],
                conditions: vec![
                    SelectCondition::In {
                        column: aliased("B", None),
                        ids: vec![GraphqlId::Int(1)]
                    },
                    SelectCondition::Filter(&f),
                ],
                ordering: Vec::new(),
                limit: None,
            },
            partition_by: aliased("B", None),
            order: vec![
                OrderColumn {
                    column: title.clone(),
                    descending: true
                },
                OrderColumn {
                    column: aliased("A", None),
                    descending: false
                },
            ],
            from_row: 3,
            to_row: Some(5),
        }
    );

    let paged = with_pagination(
        Backend::Mysql.many_related_records_strategy(),
        base(&f, by_title, true),
        Window {
            skip: 0,
            take: None,
        },
    );
    assert_eq!(
        paged,
        PagedSelect::UnionAll {
            select: Select {
                table: table("Post"),
                columns: vec![column("Post", "id")],
                conditions: vec![SelectCondition::Filter(&f)],
                ordering: vec![
                    OrderColumn {
                        column: title,
                        descending: false
                    },
                    OrderColumn {
                        column: aliased("A", None),
                        descending: true
                    },
                ],
                limit: None,
            },
            parent_column: aliased("B", None),
            parent_ids: vec![GraphqlId::Int(1)],
            skip: 0,
            take: None,
        }
    );
}

#[test]
fn a_cursor_keeps_the_rows_from_its_row_on() {
    let mut args = QueryArguments::empty();
    assert_eq!(
        cursor_condition(&args, &table("Post"), &column("Post", "id")),
        None
    );
    args.cursor = Some(GraphqlId::Int(7));
    let expect = |order_column: ColumnName, comparison| {
        Some(CursorCondition {
            table: table("Post"),
            id_column: column("Post", "id"),
            cursor: GraphqlId::Int(7),
            order_column,
            comparison,
        })
    };
    assert_eq!(
        cursor_condition(&args, &table("Post"), &column("Post", "id")),
        expect(column("Post", "id"), CursorComparison::GreaterOrEqual)
    );
    args.take = Some(-2);
    assert_eq!(
        cursor_condition(&args, &table("Post"), &column("Post", "id")),
        expect(column("Post", "id"), CursorComparison::LessOrEqual)
    );
    args.order_by = Some(OrderBy {
        field: "title".to_string(),
        sort_order: SortOrder::Descending,
    });
    assert_eq!(
        cursor_condition(&args, &table("Post"), &column("Post", "id")),
        expect(column("Post", "title"), CursorComparison::GreaterOrEqual)
    );
    args.take = Some(2);
    assert_eq!(
        cursor_condition(&args, &table("Post"), &column("Post", "id")),
        expect(column("Post", "title"), CursorComparison::LessOrEqual)
    );
    args.order_by = Some(OrderBy {
        field: "title".to_string(),
        sort_order: SortOrder::Ascending,
    });
    assert_eq!(
        cursor_condition(&args, &table("Post"), &column("Post", "id")),
        expect(column("Post", "title"), CursorComparison::GreaterOrEqual)
    );
}

#[test]
fn related_records_page_only_when_asked() {
    let f = Filter::Or(Vec::new());
    let mut args = QueryArguments::empty();
    let plain = related_records(ManyRelatedRecordsStrategy::UnionAll, base(&f, None, false), &args);
    assert_eq!(plain, RelatedSelect::Plain(without_pagination(base(&f, None, false))));
    args.skip = Some(4);
    args.take = Some(-2);
    let paged = related_records(ManyRelatedRecordsStrategy::UnionAll, base(&f, None, true), &args);
    assert_eq!(
        paged,
        RelatedSelect::Paged(with_pagination(
            ManyRelatedRecordsStrategy::UnionAll,
            base(&f, None, true),
            Window { skip: 4, take: Some(2) }
        ))
    );
    let paged = related_records(ManyRelatedRecordsStrategy::RowNumber, base(&f, None, true), &args);
    match paged {
        RelatedSelect::Paged(PagedSelect::RowNumber { from_row, to_row, .. }) => {
            assert_eq!(from_row, 5);
            assert_eq!(to_row, Some(6));
        }
        other => panic!("unexpected select {:?}", other),
    }
}
