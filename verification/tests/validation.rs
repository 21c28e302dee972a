use prisma_core::ast;
use prisma_core::datamodel::{
    Datamodel, Field, FieldArity, FieldType, IdInfo, IdStrategy, Model, RelationInfo, ScalarType,
    ScalarValue,
};
use prisma_core::relation::OnDelete;
use prisma_core::validator::{ValidationErrorKind, Validator};

fn span(n: usize) -> ast::Span {
    ast::Span {
        start: n,
        end: n + 1,
    }
}

/// An AST that holds every model and field of the data model, each with a
/// span of its own: the model at `100 * (i + 1)`, its fields behind it.
fn ast_of(dm: &Datamodel) -> ast::SchemaAst {
    let mut models = Vec::new();
    for (i, m) in dm.models.iter().enumerate() {
        let base = 100 * (i + 1);
        let mut fields = Vec::new();
        for (j, f) in m.fields.iter().enumerate() {
            fields.push(ast::Field {
                name: f.name.clone(),
                span: span(base + j + 1),
            });
        }
        models.push(ast::Model {
            name: m.name.clone(),
            span: span(base),
            fields,
        });
    }
    ast::SchemaAst { models }
}

fn id_info() -> Option<IdInfo> {
    Some(IdInfo {
        strategy: IdStrategy::Auto,
        sequence: None,
    })
}

fn int_id(name: &str) -> Field {
    let mut f = Field::new(name, FieldType::Base(ScalarType::Int));
    f.id_info = id_info();
    f
}

fn string_id(default: &str) -> Field {
    let mut f = Field::new("id", FieldType::Base(ScalarType::String));
    f.id_info = id_info();
    f.default_value = Some(ScalarValue::Expression(
        default.to_string(),
        ScalarType::String,
        Vec::new(),
    ));
    f
}

fn relation(name: &str, to: &str, relation_name: &str, arity: FieldArity) -> Field {
    let mut f = Field::new(
        name,
        FieldType::Relation(RelationInfo {
            to: to.to_string(),
            to_fields: Vec::new(),
            name: relation_name.to_string(),
            on_delete: OnDelete::SetNull,
        }),
    );
    f.arity = arity;
    f
}

fn model(name: &str, fields: Vec<Field>) -> Model {
    let mut m = Model::new(name);
    for f in fields {
        m.add_field(f);
    }
    m
}

fn datamodel(models: Vec<Model>) -> Datamodel {
    let mut dm = Datamodel::new();
    for m in models {
        dm.add_model(m);
    }
    dm
}

fn validate(dm: &mut Datamodel) -> Vec<prisma_core::validator::ValidationError> {
    let ast = ast_of(dm);
    match Validator::new().validate(&ast, dm) {
        Ok(()) => Vec::new(),
        Err(c) => c.errors,
    }
}

#[test]
fn valid_model_passes() {
    let mut dm = datamodel(vec![model(
        "Post",
        vec![
            int_id("id"),
            Field::new("title", FieldType::Base(ScalarType::String)),
        ],
    )]);
    assert!(validate(&mut dm).is_empty());
}

#[test]
fn model_without_id_criterion_is_reported() {
    let mut dm = datamodel(vec![model(
        "Post",
        vec![Field::new("title", FieldType::Base(ScalarType::String))],
    )]);
    let errors = validate(&mut dm);
    assert_eq!(errors.len(), 1);
    assert_eq!(errors[0].kind, ValidationErrorKind::IdCriterion);
    assert_eq!(errors[0].model, "Post");
    assert_eq!(errors[0].field, None);
    assert_eq!(errors[0].span, span(100));
    assert_eq!(
        errors[0].message(),
        "Each model must have exactly one id criteria. Either mark a single field with `@id` or add a multi field id criterion with `@@id([])` to the model."
    );
}

#[test]
fn model_with_two_id_fields_is_reported() {
    let mut dm = datamodel(vec![model("Post", vec![int_id("a"), int_id("b")])]);
    let errors = validate(&mut dm);
    assert_eq!(errors.len(), 1);
    assert_eq!(errors[0].kind, ValidationErrorKind::MultipleIdFields);
    assert_eq!(
        errors[0].message(),
        "At most one field must be marked as the id field with the `@id` directive."
    );
}

#[test]
fn model_with_single_and_composite_id_is_reported() {
    let mut m = model(
        "Post",
        vec![
            int_id("id"),
            Field::new("title", FieldType::Base(ScalarType::String)),
        ],
    );
    m.id_fields = vec!["id".to_string(), "title".to_string()];
    let mut dm = datamodel(vec![m]);
    let errors = validate(&mut dm);
    assert_eq!(errors.len(), 1);
    assert_eq!(errors[0].kind, ValidationErrorKind::IdCriterion);
}

#[test]
fn model_with_composite_id_only_passes() {
    let mut m = model(
        "Post",
        vec![
            Field::new("a", FieldType::Base(ScalarType::Int)),
            Field::new("b", FieldType::Base(ScalarType::Int)),
        ],
    );
    m.id_fields = vec!["a".to_string(), "b".to_string()];
    let mut dm = datamodel(vec![m]);
    assert!(validate(&mut dm).is_empty());
}

#[test]
fn relation_model_is_exempt_from_the_id_criterion() {
    let mut dm = datamodel(vec![
        model(
            "A",
            vec![
                int_id("id"),
                relation("links", "Link", "", FieldArity::List),
            ],
        ),
        model(
            "B",
            vec![
                int_id("id"),
                relation("links", "Link", "", FieldArity::List),
            ],
        ),
        model(
            "Link",
            vec![
                relation("a", "A", "", FieldArity::Required),
                relation("b", "B", "", FieldArity::Required),
            ],
        ),
    ]);
    assert!(validate(&mut dm).is_empty());
}

#[test]
fn id_field_forms() {
    assert!(validate(&mut datamodel(vec![model("M", vec![string_id("cuid")])])).is_empty());
    assert!(validate(&mut datamodel(vec![model("M", vec![string_id("uuid")])])).is_empty());

    let errors = validate(&mut datamodel(vec![model("M", vec![string_id("now")])]));
    assert_eq!(errors.len(), 1);
    assert_eq!(errors[0].kind, ValidationErrorKind::InvalidIdField);
    assert_eq!(errors[0].field, Some("id".to_string()));
    assert_eq!(errors[0].span, span(101));
    assert_eq!(
        errors[0].message(),
        "Invalid ID field. ID field must be one of: Int @id, String @id @default(cuid()), String @id @default(uuid())."
    );

    let mut optional = int_id("id");
    optional.arity = FieldArity::Optional;
    let errors = validate(&mut datamodel(vec![model("M", vec![optional])]));
    assert_eq!(errors.len(), 1);
    assert_eq!(errors[0].kind, ValidationErrorKind::InvalidIdField);

    let mut with_default = int_id("id");
    with_default.default_value = Some(ScalarValue::Int(1));
    let errors = validate(&mut datamodel(vec![model("M", vec![with_default])]));
    assert_eq!(errors.len(), 1);
    assert_eq!(errors[0].kind, ValidationErrorKind::InvalidIdField);

    let mut plain_string = Field::new("id", FieldType::Base(ScalarType::String));
    plain_string.id_info = id_info();
    let errors = validate(&mut datamodel(vec![model("M", vec![plain_string])]));
    assert_eq!(errors.len(), 1);
    assert_eq!(errors[0].kind, ValidationErrorKind::InvalidIdField);
}

#[test]
fn two_unnamed_relations_to_one_model_are_ambiguous() {
    let mut dm = datamodel(vec![
        model(
            "Post",
            vec![
                int_id("id"),
                relation("author", "User", "", FieldArity::Required),
                relation("editor", "User", "", FieldArity::Required),
                Field::new("title", FieldType::Base(ScalarType::String)),
            ],
        ),
        model("User", vec![int_id("id")]),
    ]);
    let errors = validate(&mut dm);
    // The model has two required relation fields and is therefore a relation
    // model: only the ambiguity is reported.
    assert_eq!(errors.len(), 1);
    assert_eq!(errors[0].kind, ValidationErrorKind::AmbiguousRelation);
    assert_eq!(errors[0].message(), "Ambiguous relation detected.");
    assert_eq!(errors[0].model, "Post");
    assert_eq!(errors[0].field, Some("author".to_string()));
    assert_eq!(errors[0].span, span(102));
}

#[test]
fn named_relations_to_one_model_are_not_ambiguous() {
    let mut dm = datamodel(vec![
        model(
            "Post",
            vec![
                int_id("id"),
                relation("author", "User", "Author", FieldArity::Optional),
                relation("editor", "User", "Editor", FieldArity::Optional),
            ],
        ),
        model("User", vec![int_id("id")]),
    ]);
    assert!(validate(&mut dm).is_empty());
}

#[test]
fn self_relations() {
    let two_unnamed = model(
        "Person",
        vec![
            int_id("id"),
            relation("parent", "Person", "", FieldArity::Optional),
            relation("child", "Person", "", FieldArity::Optional),
        ],
    );
    let errors = validate(&mut datamodel(vec![two_unnamed]));
    assert_eq!(errors.len(), 1);
    assert_eq!(errors[0].kind, ValidationErrorKind::AmbiguousSelfRelation);
    assert_eq!(errors[0].message(), "Ambiguous self relation detected.");
    assert_eq!(errors[0].field, Some("parent".to_string()));

    let two_named = model(
        "Person",
        vec![
            int_id("id"),
            relation("parent", "Person", "Family", FieldArity::Optional),
            relation("child", "Person", "Family", FieldArity::Optional),
        ],
    );
    assert!(validate(&mut datamodel(vec![two_named])).is_empty());

    let three_named = model(
        "Person",
        vec![
            int_id("id"),
            relation("parent", "Person", "Family", FieldArity::Optional),
            relation("child", "Person", "Family", FieldArity::Optional),
            relation("friend", "Person", "Family", FieldArity::Optional),
        ],
    );
    // Each of the three pairs is ambiguous, and is reported at its first field.
    let errors = validate(&mut datamodel(vec![three_named]));
    assert_eq!(errors.len(), 3);
    for e in &errors {
        assert_eq!(e.kind, ValidationErrorKind::AmbiguousSelfRelation);
    }
    let fields: Vec<Option<&str>> = errors.iter().map(|e| e.field.as_deref()).collect();
    assert_eq!(fields, vec![Some("parent"), Some("parent"), Some("child")]);
    assert_eq!(errors[0].span, span(102));
}

#[test]
fn every_ambiguous_pair_is_reported() {
    let mut dm = datamodel(vec![
        model(
            "M",
            vec![
                int_id("id"),
                relation("a", "User", "", FieldArity::Optional),
                relation("c", "Comment", "", FieldArity::Optional),
                relation("b", "User", "", FieldArity::Optional),
                relation("d", "Comment", "", FieldArity::Optional),
            ],
        ),
        model("User", vec![int_id("id")]),
        model("Comment", vec![int_id("id")]),
    ]);
    let errors = validate(&mut dm);
    assert_eq!(errors.len(), 2);
    for e in &errors {
        assert_eq!(e.kind, ValidationErrorKind::AmbiguousRelation);
        assert_eq!(e.model, "M");
    }
    assert_eq!(errors[0].field, Some("a".to_string()));
    assert_eq!(errors[1].field, Some("c".to_string()));
    assert_ne!(errors[0].span, errors[1].span);

    // The check of one rule alone still stops at its first violation.
    let ast = ast_of(&dm);
    let first = Validator::new()
        .validate_relations_not_ambiguous(&ast, &dm.models[0])
        .unwrap_err();
    assert_eq!(first, errors[0]);
}

#[test]
fn every_invalid_id_field_and_back_relation_is_reported() {
    let mut two_bad = model("C", vec![string_id("now"), string_id("today")]);
    two_bad.fields[1].name = "other".to_string();
    let mut address = model(
        "Address",
        vec![
            int_id("id"),
            relation("user", "User", "Home", FieldArity::Optional),
            relation("owner", "User", "Owned", FieldArity::Optional),
        ],
    );
    address.is_embedded = true;
    let user = model(
        "User",
        vec![
            int_id("id"),
            relation("home", "Address", "Home", FieldArity::Optional),
            relation("owned", "Address", "Owned", FieldArity::Optional),
        ],
    );
    let errors = validate(&mut datamodel(vec![two_bad, address, user]));
    let found: Vec<(ValidationErrorKind, &str, Option<&str>)> = errors
        .iter()
        .map(|e| (e.kind, e.model.as_str(), e.field.as_deref()))
        .collect();
    assert_eq!(
        found,
        vec![
            (ValidationErrorKind::MultipleIdFields, "C", None),
            (ValidationErrorKind::InvalidIdField, "C", Some("id")),
            (ValidationErrorKind::InvalidIdField, "C", Some("other")),
            (ValidationErrorKind::EmbeddedBackRelation, "Address", Some("user")),
            (ValidationErrorKind::EmbeddedBackRelation, "Address", Some("owner")),
        ]
    );
}

#[test]
fn embedded_model_must_not_point_back() {
    let mut address = model(
        "Address",
        vec![
            int_id("id"),
            relation("user", "User", "", FieldArity::Optional),
        ],
    );
    address.is_embedded = true;
    let user = model(
        "User",
        vec![
            int_id("id"),
            relation("address", "Address", "", FieldArity::Optional),
        ],
    );
    let errors = validate(&mut datamodel(vec![user, address]));
    assert_eq!(errors.len(), 1);
    assert_eq!(errors[0].kind, ValidationErrorKind::EmbeddedBackRelation);
    assert_eq!(
        errors[0].message(),
        "Embedded models cannot have back relation fields."
    );
    assert_eq!(errors[0].model, "Address");
    assert_eq!(errors[0].field, Some("user".to_string()));
    assert_eq!(errors[0].span, span(202));
}

#[test]
fn generated_back_relation_of_embedded_model_passes() {
    let mut back = relation("user", "User", "", FieldArity::Optional);
    back.is_generated = true;
    let mut address = model("Address", vec![int_id("id"), back]);
    address.is_embedded = true;
    let user = model(
        "User",
        vec![
            int_id("id"),
            relation("address", "Address", "", FieldArity::Optional),
        ],
    );
    assert!(validate(&mut datamodel(vec![user, address])).is_empty());
}

#[test]
fn every_violation_is_collected() {
    let mut dm = datamodel(vec![
        model("A", vec![Field::new("x", FieldType::Base(ScalarType::Int))]),
        model("B", vec![string_id("now")]),
        model("C", vec![int_id("a"), int_id("b")]),
    ]);
    let errors = validate(&mut dm);
    let kinds: Vec<ValidationErrorKind> = errors.iter().map(|e| e.kind).collect();
    assert_eq!(
        kinds,
        vec![
            ValidationErrorKind::IdCriterion,
            ValidationErrorKind::InvalidIdField,
            ValidationErrorKind::MultipleIdFields,
        ]
    );
    let models: Vec<&str> = errors.iter().map(|e| e.model.as_str()).collect();
    assert_eq!(models, vec!["A", "B", "C"]);
}

#[test]
fn validated_models_have_one_id_criterion() {
    let mut composite = model(
        "Pair",
        vec![
            Field::new("a", FieldType::Base(ScalarType::Int)),
            Field::new("b", FieldType::Base(ScalarType::Int)),
        ],
    );
    composite.id_fields = vec!["a".to_string(), "b".to_string()];
    let mut dm = datamodel(vec![model("Post", vec![int_id("id")]), composite]);
    assert!(validate(&mut dm).is_empty());
    for m in &dm.models {
        let singular = m.count_singular_id_fields();
        assert!(
            (singular == 1 && m.id_fields.is_empty()) || (singular == 0 && !m.id_fields.is_empty())
        );
    }
}
