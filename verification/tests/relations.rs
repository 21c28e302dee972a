use prisma_core::datamodel::{
    Datamodel, Field, FieldArity, FieldType, IdInfo, IdStrategy, Model, RelationInfo, ScalarType,
};
use prisma_core::relation::{
    DomainError, InlineRelation, OnDelete, Relation, RelationLinkManifestation, RelationSide,
    RelationTable, RelationTemplate,
};
use prisma_core::resolver::{calculate_relations, TempManifestationHolder};

fn int_id() -> Field {
    let mut f = Field::new("id", FieldType::Base(ScalarType::Int));
    f.id_info = Some(IdInfo {
        strategy: IdStrategy::Auto,
        sequence: None,
    });
    f
}

fn relation(name: &str, to: &str, relation_name: &str, arity: FieldArity) -> Field {
    let mut f = Field::new(
        name,
        FieldType::Relation(RelationInfo {
            to: to.to_string(),
            to_fields: Vec::new(),
            name: relation_name.to_string(),
            on_delete: OnDelete::SetNull,
        }),
    );
    f.arity = arity;
    f
}

fn model(name: &str, fields: Vec<Field>) -> Model {
    let mut m = Model::new(name);
    m.add_field(int_id());
    for f in fields {
        m.add_field(f);
    }
    m
}

fn datamodel(models: Vec<Model>) -> Datamodel {
    let mut dm = Datamodel::new();
    for m in models {
        dm.add_model(m);
    }
    dm
}

fn inline(side: RelationSide, model: &str, column: &str) -> TempManifestationHolder {
    TempManifestationHolder::Inline {
        side,
        in_table_of_model: model.to_string(),
        column: column.to_string(),
    }
}

#[test]
fn on_delete_kinds() {
    assert!(OnDelete::Cascade.is_cascade());
    assert!(!OnDelete::Cascade.is_set_null());
    assert!(OnDelete::SetNull.is_set_null());
    assert!(!OnDelete::SetNull.is_cascade());
    assert_eq!(RelationSide::A.opposite(), RelationSide::B);
    assert_eq!(RelationSide::B.opposite(), RelationSide::A);
}

#[test]
fn each_pair_of_fields_gives_one_relation() {
    let dm = datamodel(vec![
        model(
            "User",
            vec![relation("posts", "Post", "", FieldArity::List)],
        ),
        model(
            "Post",
            vec![relation("author", "User", "", FieldArity::Required)],
        ),
    ]);
    let relations = calculate_relations(&dm);
    assert_eq!(relations.len(), 1);
    let r = &relations[0];
    assert_eq!(r.name, "PostToUser");
    assert_eq!(r.model_a_name, "Post");
    assert_eq!(r.model_b_name, "User");
    assert_eq!((r.model_a, r.field_a), (1, 1));
    assert_eq!((r.model_b, r.field_b), (0, 1));
    assert_eq!(r.manifestation, inline(RelationSide::A, "Post", "author"));
    assert_eq!(r.table_name(), "_PostToUser");
    assert_eq!(r.model_a_column(), "A");
    assert_eq!(r.model_b_column(), "B");
    assert_eq!(
        r.link_manifestation(),
        RelationLinkManifestation::Inline(InlineRelation {
            in_table_of_model_name: "Post".to_string(),
            referencing_column: "author".to_string(),
        })
    );
}

#[test]
fn a_field_without_other_end_gives_no_relation() {
    let dm = datamodel(vec![
        model("User", vec![]),
        model(
            "Post",
            vec![relation("author", "User", "", FieldArity::Required)],
        ),
        model(
            "Orphan",
            vec![relation("nobody", "Missing", "", FieldArity::Optional)],
        ),
    ]);
    assert!(calculate_relations(&dm).is_empty());
}

#[test]
fn manifestation_rules() {
    // Both lists: a table of its own.
    let dm = datamodel(vec![
        model("A", vec![relation("bs", "B", "Link", FieldArity::List)]),
        model("B", vec![relation("as_", "A", "Link", FieldArity::List)]),
    ]);
    let r = &calculate_relations(&dm)[0];
    assert_eq!(r.name, "Link");
    assert_eq!(
        r.manifestation,
        TempManifestationHolder::Table { id_column: None }
    );
    assert_eq!(
        r.link_manifestation(),
        RelationLinkManifestation::RelationTable(RelationTable {
            table: "_Link".to_string(),
            model_a_column: "A".to_string(),
            model_b_column: "B".to_string(),
            id_column: None,
        })
    );

    // One list: inline on the other side.
    let dm = datamodel(vec![
        model("A", vec![relation("bs", "B", "", FieldArity::List)]),
        model("B", vec![relation("a", "A", "", FieldArity::Optional)]),
    ]);
    assert_eq!(
        calculate_relations(&dm)[0].manifestation,
        inline(RelationSide::B, "B", "a")
    );

    // No list: inline on the required side.
    let dm = datamodel(vec![
        model("A", vec![relation("b", "B", "", FieldArity::Optional)]),
        model("B", vec![relation("a", "A", "", FieldArity::Required)]),
    ]);
    assert_eq!(
        calculate_relations(&dm)[0].manifestation,
        inline(RelationSide::B, "B", "a")
    );

    // No list, both optional: inline on the model whose name comes first.
    let dm = datamodel(vec![
        model("B", vec![relation("a", "A", "", FieldArity::Optional)]),
        model("A", vec![relation("b", "B", "", FieldArity::Optional)]),
    ]);
    let r = &calculate_relations(&dm)[0];
    assert_eq!(r.model_a_name, "A");
    assert_eq!(r.manifestation, inline(RelationSide::A, "A", "b"));

    // A field that references fields keeps the column.
    let mut referencing = relation("a", "A", "", FieldArity::Optional);
    if let FieldType::Relation(info) = &mut referencing.field_type {
        info.to_fields = vec!["id".to_string()];
    }
    referencing.database_name = Some("a_id".to_string());
    let dm = datamodel(vec![
        model("A", vec![relation("b", "B", "", FieldArity::Required)]),
        model("B", vec![referencing]),
    ]);
    assert_eq!(
        calculate_relations(&dm)[0].manifestation,
        inline(RelationSide::B, "B", "a_id")
    );
}

#[test]
fn self_relation_is_resolved_once() {
    let dm = datamodel(vec![model(
        "Person",
        vec![
            relation("parent", "Person", "Family", FieldArity::Optional),
            relation("children", "Person", "Family", FieldArity::List),
        ],
    )]);
    let relations = calculate_relations(&dm);
    assert_eq!(relations.len(), 1);
    let r = &relations[0];
    assert_eq!((r.model_a, r.field_a, r.model_b, r.field_b), (0, 1, 0, 2));
    assert_eq!(r.manifestation, inline(RelationSide::A, "Person", "parent"));
}

fn template(name: &str, a: &str, b: &str, m: Option<RelationLinkManifestation>) -> Relation {
    RelationTemplate {
        name: name.to_string(),
        model_a_on_delete: OnDelete::Cascade,
        model_b_on_delete: OnDelete::SetNull,
        manifestation: m,
        model_a_name: a.to_string(),
        model_b_name: b.to_string(),
    }
    .build()
}

#[test]
fn relation_knows_how_it_is_stored() {
    let table = RelationLinkManifestation::RelationTable(RelationTable {
        table: "_Link".to_string(),
        model_a_column: "A".to_string(),
        model_b_column: "B".to_string(),
        id_column: None,
    });
    let with_id = RelationLinkManifestation::RelationTable(RelationTable {
        table: "_Link".to_string(),
        model_a_column: "A".to_string(),
        model_b_column: "B".to_string(),
        id_column: Some("id".to_string()),
    });
    let inline = RelationLinkManifestation::Inline(InlineRelation {
        in_table_of_model_name: "Post".to_string(),
        referencing_column: "author".to_string(),
    });
    let r = template("Link", "A", "B", Some(table));
    assert_eq!(r.name, "Link");
    assert_eq!(r.model_a_on_delete, OnDelete::Cascade);
    assert_eq!(r.model_b_on_delete, OnDelete::SetNull);
    assert!(r.is_relation_table());
    assert!(!r.is_inline_relation());
    assert!(!r.relation_table_has_3_columns());
    assert!(r.inline_manifestation().is_none());
    assert!(!r.is_self_relation());
    assert!(r.contains_the_model("A"));
    assert!(r.contains_the_model("B"));
    assert!(!r.contains_the_model("C"));

    assert!(template("Link", "A", "B", Some(with_id)).relation_table_has_3_columns());
    assert!(template("Link", "A", "B", None).relation_table_has_3_columns());
    assert!(template("Link", "A", "B", None).is_relation_table());

    let r = template("PostToUser", "Post", "User", Some(inline));
    assert!(r.is_inline_relation());
    assert!(!r.is_relation_table());
    assert!(!r.relation_table_has_3_columns());
    assert_eq!(
        r.inline_manifestation().unwrap().referencing_column,
        "author"
    );
    assert!(template("Family", "Person", "Person", None).is_self_relation());
    assert_eq!(Relation::model_a_default_column(), "A");
    assert_eq!(Relation::model_b_default_column(), "B");
    assert_eq!(Relation::table_alias(), "RelationTable");
}

#[test]
fn relation_finds_its_models_and_fields() {
    let dm = datamodel(vec![
        model(
            "User",
            vec![relation("posts", "Post", "", FieldArity::List)],
        ),
        model(
            "Post",
            vec![relation("author", "User", "", FieldArity::Required)],
        ),
        model(
            "Person",
            vec![
                relation("parent", "Person", "Family", FieldArity::Optional),
                relation("children", "Person", "Family", FieldArity::List),
            ],
        ),
        model(
            "Tag",
            vec![relation("posts", "Topic", "Tagged", FieldArity::List)],
        ),
        model(
            "Topic",
            vec![relation("tags", "Tag", "Tagged", FieldArity::List)],
        ),
    ]);
    let holders = calculate_relations(&dm);
    assert_eq!(holders.len(), 3);

    let r = holders[0].template().build();
    assert_eq!(r.name, "PostToUser");
    assert_eq!(r.model_a(&dm).unwrap().name, "Post");
    assert_eq!(r.model_b(&dm).unwrap().name, "User");
    assert_eq!(r.field_a(&dm).unwrap().name, "author");
    assert_eq!(r.field_b(&dm).unwrap().name, "posts");
    assert!(r.is_one_to_many(&dm));
    assert!(!r.is_one_to_one(&dm));
    assert!(!r.is_many_to_many(&dm));
    assert_eq!(r.get_field_on_model("Post", &dm).unwrap().name, "author");
    assert_eq!(r.get_field_on_model("User", &dm).unwrap().name, "posts");
    assert_eq!(
        r.get_field_on_model("Tag", &dm),
        Err(DomainError::ModelForRelationNotFound {
            model_id: "Tag".to_string(),
            relation: "PostToUser".to_string()
        })
    );

    let family = holders[1].template().build();
    assert!(family.is_self_relation());
    assert_eq!(family.field_a(&dm).unwrap().name, "parent");
    assert_eq!(family.field_b(&dm).unwrap().name, "children");
    assert!(family.is_one_to_many(&dm));

    let tagged = holders[2].template().build();
    assert!(tagged.is_many_to_many(&dm));
    assert!(tagged.is_relation_table());

    let missing = template("Nope", "Nowhere", "User", None);
    assert!(missing.model_a(&dm).is_none());
    assert!(missing.field_a(&dm).is_none());
    assert!(missing.field_b(&dm).is_none());
}

#[test]
fn model_names_stay_unique() {
    let mut dm = Datamodel::new();
    assert!(dm.add_model(model("A", vec![])));
    assert!(dm.add_model(model("B", vec![])));
    assert!(!dm.add_model(model(
        "A",
        vec![relation("b", "B", "", FieldArity::Optional)]
    )));
    assert_eq!(dm.models.len(), 2);
    assert_eq!(dm.models[0].fields.len(), 1);
    assert_eq!(dm.find_model("B").unwrap().name, "B");
    assert!(dm.find_model("C").is_none());
    assert_eq!(dm.model_position("B"), Some(1));
}
