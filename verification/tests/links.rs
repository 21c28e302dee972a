use prisma_core::datamodel::{
    Datamodel, Field, FieldArity, FieldType, IdInfo, IdStrategy, Model, RelationInfo, ScalarType,
};
use prisma_core::links::{
    both_linked, columns_of, create_relation, create_relation_with, parent_linked, relation_of,
    removal_by_child, removal_by_parent, removal_by_parent_and_child, storage_of, LinkStatement,
    RelationStorage,
};
use prisma_core::read_builder::{first_row_of, get_records, SelectCondition};
use prisma_core::relation::{OnDelete, RelationSide};
use prisma_core::resolver::{calculate_relations, TempManifestationHolder};
use prisma_core::sql::{ColumnName, Comparison, Delete, TableName, Update};
use prisma_core::transaction::{
    finder_filter, record_columns, type_identifier, RawQuery, RecordColumns, TypeIdentifier,
};
use prisma_core::values::{Arg, GraphqlId, PrismaValue};
use prisma_core::write_ast::{
    Filter, RecordFinder, RelationFieldRef, ScalarCondition, ScalarFilter,
};

fn int_id() -> Field {
    let mut f = Field::new("id", FieldType::Base(ScalarType::Int));
    f.id_info = Some(IdInfo {
        strategy: IdStrategy::Auto,
        sequence: None,
    });
    f
}

fn relation(name: &str, to: &str, arity: FieldArity) -> Field {
    let mut f = Field::new(
        name,
        FieldType::Relation(RelationInfo {
            to: to.to_string(),
            to_fields: Vec::new(),
            name: String::new(),
            on_delete: OnDelete::SetNull,
        }),
    );
    f.arity = arity;
    f
}

fn model(name: &str, fields: Vec<Field>) -> Model {
    let mut m = Model::new(name);
    m.add_field(int_id());
    for f in fields {
        m.add_field(f);
    }
    m
}

fn datamodel(models: Vec<Model>) -> Datamodel {
    let mut dm = Datamodel::new();
    for m in models {
        dm.add_model(m);
    }
    dm
}

fn table(name: &str) -> TableName {
    TableName {
        database: Some("db".to_string()),
        name: name.to_string(),
    }
}

fn column(table_name: &str, name: &str) -> ColumnName {
    ColumnName {
        table: Some(table(table_name)),
        name: name.to_string(),
        alias: None,
    }
}

fn equals(c: ColumnName, id: i64) -> Comparison {
    Comparison::Equals {
        column: c,
        value: GraphqlId::Int(id),
    }
}

fn set_link(value: PrismaValue, conditions: Vec<Comparison>) -> LinkStatement {
    LinkStatement::Update(Update {
        table: table("Post"),
        assignments: vec![Arg {
            name: "author".to_string(),
            value,
        }],
        conditions,
    })
}

/// Posts keep the link to their author in the column `author`.
fn inline_storage(parent_side: RelationSide) -> RelationStorage {
    let dm = datamodel(vec![
        model("User", vec![relation("posts", "Post", FieldArity::List)]),
        model(
            "Post",
            vec![relation("author", "User", FieldArity::Optional)],
        ),
    ]);
    let relations = calculate_relations(&dm);
    storage_of(&dm, &relations[0], parent_side, "db").unwrap()
}

fn table_storage(parent_side: RelationSide) -> RelationStorage {
    let dm = datamodel(vec![
        model("Post", vec![relation("tags", "Tag", FieldArity::List)]),
        model("Tag", vec![relation("posts", "Post", FieldArity::List)]),
    ]);
    let relations = calculate_relations(&dm);
    storage_of(&dm, &relations[0], parent_side, "db").unwrap()
}

#[test]
fn storage_of_an_inline_relation() {
    // Side A is Post, which holds the column.
    assert_eq!(
        inline_storage(RelationSide::A),
        RelationStorage::Inline {
            table: table("Post"),
            id: column("Post", "id"),
            link: column("Post", "author"),
            parent_holds: true,
        }
    );
    match inline_storage(RelationSide::B) {
        RelationStorage::Inline { parent_holds, .. } => assert!(!parent_holds),
        other => panic!("unexpected storage {:?}", other),
    }
    let c = columns_of(&inline_storage(RelationSide::B));
    assert_eq!(c.table, table("Post"));
    assert_eq!(c.parent_column, column("Post", "author"));
    assert_eq!(c.child_column, column("Post", "id"));
    assert_eq!(c.id_column, None);
    let c = columns_of(&inline_storage(RelationSide::A));
    assert_eq!(c.parent_column, column("Post", "id"));
    assert_eq!(c.child_column, column("Post", "author"));
}

#[test]
fn storage_of_a_join_table() {
    let storage = table_storage(RelationSide::B);
    let c = columns_of(&storage);
    assert_eq!(c.table, table("_PostToTag"));
    assert_eq!(c.parent_column, column("_PostToTag", "B"));
    assert_eq!(c.child_column, column("_PostToTag", "A"));
    assert_eq!(c.id_column, None);
    assert_eq!(storage, RelationStorage::Table(c));
}

#[test]
fn storage_of_a_join_table_with_an_id_column() {
    let dm = datamodel(vec![
        model("Post", vec![relation("tags", "Tag", FieldArity::List)]),
        model("Tag", vec![relation("posts", "Post", FieldArity::List)]),
    ]);
    let mut relation = calculate_relations(&dm)[0].clone();
    relation.manifestation = TempManifestationHolder::Table {
        id_column: Some("id".to_string()),
    };
    let storage = storage_of(&dm, &relation, RelationSide::A, "db").unwrap();
    let c = columns_of(&storage);
    assert_eq!(c.parent_column, column("_PostToTag", "A"));
    assert_eq!(c.child_column, column("_PostToTag", "B"));
    assert_eq!(c.id_column, Some(column("_PostToTag", "id")));
}

#[test]
fn storage_needs_the_id_of_the_holding_model() {
    let mut dm = datamodel(vec![
        model("User", vec![relation("posts", "Post", FieldArity::List)]),
        model(
            "Post",
            vec![relation("author", "User", FieldArity::Optional)],
        ),
    ]);
    let relations = calculate_relations(&dm);
    dm.models[1].fields[0].id_info = None;
    assert_eq!(storage_of(&dm, &relations[0], RelationSide::A, "db"), None);
}

#[test]
fn links_in_a_column() {
    let user = GraphqlId::Int(1);
    let post = GraphqlId::Int(2);
    // The user is the parent; the post holds the link.
    let storage = inline_storage(RelationSide::B);
    assert_eq!(
        create_relation(&storage, &user, &post),
        set_link(
            PrismaValue::GraphqlId(GraphqlId::Int(1)),
            vec![equals(column("Post", "id"), 2)]
        )
    );
    assert_eq!(
        removal_by_parent(&storage, &user),
        set_link(PrismaValue::Null, vec![equals(column("Post", "author"), 1)])
    );
    assert_eq!(
        removal_by_child(&storage, &post),
        set_link(PrismaValue::Null, vec![equals(column("Post", "id"), 2)])
    );
    assert_eq!(
        removal_by_parent_and_child(&storage, &user, &post),
        set_link(
            PrismaValue::Null,
            vec![
                equals(column("Post", "id"), 2),
                equals(column("Post", "author"), 1)
            ]
        )
    );
    assert_eq!(
        parent_linked(&storage, &user),
        vec![equals(column("Post", "author"), 1)]
    );
    assert_eq!(
        both_linked(&storage, &user, &post),
        vec![
            equals(column("Post", "id"), 2),
            equals(column("Post", "author"), 1)
        ]
    );

    // The post is the parent and holds the link.
    let storage = inline_storage(RelationSide::A);
    assert_eq!(
        create_relation(&storage, &post, &user),
        set_link(
            PrismaValue::GraphqlId(GraphqlId::Int(1)),
            vec![equals(column("Post", "id"), 2)]
        )
    );
    assert_eq!(
        removal_by_parent(&storage, &post),
        set_link(PrismaValue::Null, vec![equals(column("Post", "id"), 2)])
    );
    assert_eq!(
        removal_by_child(&storage, &user),
        set_link(PrismaValue::Null, vec![equals(column("Post", "author"), 1)])
    );
    assert_eq!(
        parent_linked(&storage, &post),
        vec![
            equals(column("Post", "id"), 2),
            Comparison::IsNotNull {
                column: column("Post", "author")
            }
        ]
    );
    assert_eq!(
        both_linked(&storage, &post, &user),
        vec![
            equals(column("Post", "id"), 2),
            equals(column("Post", "author"), 1)
        ]
    );
}

#[test]
fn links_in_a_join_table() {
    let tag = GraphqlId::Int(1);
    let post = GraphqlId::Int(2);
    // The tag is the parent: side B.
    let storage = table_storage(RelationSide::B);
    match create_relation(&storage, &tag, &post) {
        LinkStatement::Insert(insert) => {
            assert_eq!(insert.table, table("_PostToTag"));
            assert_eq!(insert.columns, vec!["B".to_string(), "A".to_string()]);
            assert_eq!(
                insert.rows,
                vec![vec![
                    PrismaValue::GraphqlId(GraphqlId::Int(1)),
                    PrismaValue::GraphqlId(GraphqlId::Int(2))
                ]]
            );
            assert!(insert.on_conflict_do_nothing);
        }
        other => panic!("unexpected statement {:?}", other),
    }
    assert_eq!(
        create_relation_with(&storage, &tag, &post, &Vec::new()),
        create_relation(&storage, &tag, &post)
    );
    let unlink = |conditions| {
        LinkStatement::Delete(Delete {
            table: table("_PostToTag"),
            conditions,
        })
    };
    assert_eq!(
        removal_by_parent(&storage, &tag),
        unlink(vec![equals(column("_PostToTag", "B"), 1)])
    );
    assert_eq!(
        removal_by_child(&storage, &post),
        unlink(vec![equals(column("_PostToTag", "A"), 2)])
    );
    assert_eq!(
        removal_by_parent_and_child(&storage, &tag, &post),
        unlink(vec![
            equals(column("_PostToTag", "B"), 1),
            equals(column("_PostToTag", "A"), 2)
        ])
    );
    assert_eq!(
        parent_linked(&storage, &tag),
        vec![equals(column("_PostToTag", "B"), 1)]
    );
}

#[test]
fn records_are_selected_by_finder() {
    let select = get_records(
        table("Post"),
        vec![column("Post", "id"), column("Post", "title")],
        column("Post", "title"),
        PrismaValue::String("a".to_string()),
    );
    assert_eq!(select.table, table("Post"));
    assert_eq!(
        select.columns,
        vec![column("Post", "id"), column("Post", "title")]
    );
    assert_eq!(
        select.conditions,
        vec![SelectCondition::Equals {
            column: column("Post", "title"),
            value: PrismaValue::String("a".to_string())
        }]
    );
    assert_eq!(select.limit, None);
    let first = first_row_of(select);
    assert_eq!(first.limit, Some(1));
    assert_eq!(first.columns.len(), 2);
    assert_eq!(first.conditions.len(), 1);
}

#[test]
fn raw_queries_know_whether_they_select() {
    for q in ["select 1", "SELECT * FROM x", "SeLeCt\u{20}1", "select"] {
        assert!(RawQuery(q.to_string()).is_select(), "{}", q);
    }
    for q in [
        "",
        "sel",
        "selects 1",
        " select 1",
        "update x set a = 1",
        "selec",
        "select\n1",
    ] {
        assert!(!RawQuery(q.to_string()).is_select(), "{}", q);
    }
}

#[test]
fn fields_are_read_as_their_types() {
    let t = |t| type_identifier(&Field::new("x", FieldType::Base(t)));
    assert_eq!(t(ScalarType::Int), Some(TypeIdentifier::Int));
    assert_eq!(t(ScalarType::Float), Some(TypeIdentifier::Float));
    assert_eq!(t(ScalarType::Boolean), Some(TypeIdentifier::Boolean));
    assert_eq!(t(ScalarType::DateTime), Some(TypeIdentifier::DateTime));
    assert_eq!(t(ScalarType::String), Some(TypeIdentifier::String));
    assert_eq!(t(ScalarType::Decimal), None);
    assert_eq!(
        type_identifier(&Field::new("x", FieldType::Enum("E".to_string()))),
        Some(TypeIdentifier::Enum)
    );
    assert_eq!(
        type_identifier(&relation("x", "Y", FieldArity::Optional)),
        None
    );
    let mut id = Field::new("id", FieldType::Base(ScalarType::String));
    id.id_info = Some(IdInfo {
        strategy: IdStrategy::Manual,
        sequence: None,
    });
    assert_eq!(type_identifier(&id), Some(TypeIdentifier::GraphQLID));
    assert_eq!(type_identifier(&int_id()), Some(TypeIdentifier::Int));
}

fn field_ref(model: &str, name: &str, relation: &str, related: &str) -> RelationFieldRef {
    RelationFieldRef {
        model: model.to_string(),
        name: name.to_string(),
        db_name: name.to_string(),
        relation_name: relation.to_string(),
        is_list: false,
        is_required: false,
        related_model: related.to_string(),
        related_is_list: false,
        related_is_required: false,
    }
}

#[test]
fn a_relation_field_finds_its_relation_and_side() {
    let dm = datamodel(vec![
        model("User", vec![relation("posts", "Post", FieldArity::List)]),
        model(
            "Post",
            vec![relation("author", "User", FieldArity::Optional)],
        ),
        model("Tag", vec![relation("topics", "Topic", FieldArity::List)]),
        model("Topic", vec![relation("tags", "Tag", FieldArity::List)]),
    ]);
    let relations = calculate_relations(&dm);
    assert_eq!(relations.len(), 2);
    let side = |f| relation_of(&dm, &relations, &f);
    assert_eq!(
        side(field_ref("Post", "author", "PostToUser", "User")),
        Some((0, RelationSide::A))
    );
    assert_eq!(
        side(field_ref("User", "posts", "PostToUser", "Post")),
        Some((0, RelationSide::B))
    );
    assert_eq!(
        side(field_ref("Topic", "tags", "TagToTopic", "Tag")),
        Some((1, RelationSide::B))
    );
    assert_eq!(side(field_ref("Topic", "tags", "PostToUser", "Tag")), None);
    assert_eq!(
        side(field_ref("User", "author", "PostToUser", "Post")),
        None
    );
}

#[test]
fn a_finder_is_a_filter_on_its_field() {
    let finder = RecordFinder {
        model: "Post".to_string(),
        field: "title".to_string(),
        value: PrismaValue::String("a".to_string()),
    };
    assert_eq!(
        finder_filter(&finder),
        Filter::Scalar(ScalarFilter {
            field: "title".to_string(),
            condition: ScalarCondition::Equals(PrismaValue::String("a".to_string())),
        })
    );
}

#[test]
fn a_full_record_holds_the_scalar_fields_that_are_no_lists() {
    let mut tags = Field::new("tags", FieldType::Base(ScalarType::String));
    tags.arity = FieldArity::List;
    let mut title = Field::new("title", FieldType::Base(ScalarType::String));
    title.database_name = Some("post_title".to_string());
    let m = model(
        "Post",
        vec![
            title,
            tags,
            relation("author", "User", FieldArity::Optional),
            Field::new("price", FieldType::Base(ScalarType::Decimal)),
            Field::new("views", FieldType::Base(ScalarType::Int)),
        ],
    );
    assert_eq!(
        record_columns(&m, "db"),
        RecordColumns {
            names: vec!["id".to_string(), "title".to_string(), "views".to_string()],
            columns: vec![
                column("Post", "id"),
                column("Post", "post_title"),
                column("Post", "views")
            ],
            idents: vec![
                TypeIdentifier::Int,
                TypeIdentifier::String,
                TypeIdentifier::Int
            ],
        }
    );
}
