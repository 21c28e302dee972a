//! Validation of a data model: every rule is checked on every model and all
//! violations are collected.

use crate::ast::{SchemaAst, Span};
use crate::datamodel::{Datamodel, Field, FieldArity, FieldType, Model, ScalarType, ScalarValue};
use crate::seqs::{concat_range, first_index, lemma_concat_range_none, lemma_first_index_unique};
use crate::text::same_text;
use vstd::prelude::*;
use vstd::string::StringExecFns;

verus! {

/// The rule that a model breaks.
#[derive(Clone, Copy, Debug, PartialEq, Eq, Structural)]
pub enum ValidationErrorKind {
    /// More than one field carries the id marker.
    MultipleIdFields,
    /// The model has no id criterion, or both a single-field and a composite one.
    IdCriterion,
    /// The id field is of a form that cannot serve as an id.
    InvalidIdField,
    AmbiguousRelation,
    AmbiguousSelfRelation,
    /// An embedded model has a relation field that points back at its parent.
    EmbeddedBackRelation,
}

/// One violation, with the place in the source text that it concerns.
#[derive(Clone, Debug, PartialEq)]
pub struct ValidationError {
    pub kind: ValidationErrorKind,
    pub model: String,
    pub field: Option<String>,
    pub span: Span,
}

/// A violation with its names as texts.
pub struct ValidationErrorView {
    pub kind: ValidationErrorKind,
    pub model: Seq<char>,
    pub field: Option<Seq<char>>,
    pub span: Span,
}

impl DeepView for ValidationError {
    type V = ValidationErrorView;

    open spec fn deep_view(&self) -> ValidationErrorView {
        ValidationErrorView {
            kind: self.kind,
            model: self.model@,
            field: match self.field {
                Some(f) => Some(f@),
                None => None,
            },
            span: self.span,
        }
    }
}

impl ValidationErrorKind {
    /// The text shown to the user.
    pub open spec fn message_view(self) -> Seq<char> {
        match self {
            ValidationErrorKind::MultipleIdFields =>
                "At most one field must be marked as the id field with the `@id` directive."@,
            ValidationErrorKind::IdCriterion =>
                "Each model must have exactly one id criteria. Either mark a single field with `@id` or add a multi field id criterion with `@@id([])` to the model."@,
            ValidationErrorKind::InvalidIdField =>
                "Invalid ID field. ID field must be one of: Int @id, String @id @default(cuid()), String @id @default(uuid())."@,
            ValidationErrorKind::AmbiguousRelation => "Ambiguous relation detected."@,
            ValidationErrorKind::AmbiguousSelfRelation => "Ambiguous self relation detected."@,
            ValidationErrorKind::EmbeddedBackRelation =>
                "Embedded models cannot have back relation fields."@,
        }
    }

    /// The text shown to the user.
    pub fn message(self) -> (r: String)
        ensures
            r@ == self.message_view(),
    {
        match self {
            ValidationErrorKind::MultipleIdFields => String::from_str(
                "At most one field must be marked as the id field with the `@id` directive.",
            ),
            ValidationErrorKind::IdCriterion => String::from_str(
                "Each model must have exactly one id criteria. Either mark a single field with `@id` or add a multi field id criterion with `@@id([])` to the model.",
            ),
            ValidationErrorKind::InvalidIdField => String::from_str(
                "Invalid ID field. ID field must be one of: Int @id, String @id @default(cuid()), String @id @default(uuid()).",
            ),
            ValidationErrorKind::AmbiguousRelation => String::from_str(
                "Ambiguous relation detected.",
            ),
            ValidationErrorKind::AmbiguousSelfRelation => String::from_str(
                "Ambiguous self relation detected.",
            ),
            ValidationErrorKind::EmbeddedBackRelation => String::from_str(
                "Embedded models cannot have back relation fields.",
            ),
        }
    }
}

impl ValidationError {
    /// The text shown to the user.
    pub fn message(&self) -> (r: String)
        ensures
            r@ == self.kind.message_view(),
    {
        self.kind.message()
    }
}

/// The violations found so far, in the order in which they were found.
#[derive(Clone, Debug, PartialEq)]
pub struct ErrorCollection {
    pub errors: Vec<ValidationError>,
}

impl ErrorCollection {
    /// A collection without violations.
    pub fn new() -> (r: ErrorCollection)
        ensures
            r.errors@.len() == 0,
    {
        ErrorCollection { errors: Vec::new() }
    }

    /// Adds a violation at the end.
    pub fn push(&mut self, err: ValidationError)
        ensures
            final(self).errors@ == old(self).errors@.push(err),
    {
        self.errors.push(err);
    }

    /// Whether a violation was found.
    pub fn has_errors(&self) -> (r: bool)
        ensures
            r == (self.errors@.len() > 0),
    {
        self.errors.len() > 0
    }
}

/// The violation of a model as a whole.
pub open spec fn model_error(
    kind: ValidationErrorKind,
    ast: &SchemaAst,
    model: &Model,
) -> ValidationErrorView {
    ValidationErrorView {
        kind,
        model: model.name@,
        field: None,
        span: ast.model_span(model.name@),
    }
}

/// The violation of the field at position `i` of a model.
pub open spec fn field_error(
    kind: ValidationErrorKind,
    ast: &SchemaAst,
    model: &Model,
    i: int,
) -> ValidationErrorView {
    ValidationErrorView {
        kind,
        model: model.name@,
        field: Some(model.fields@[i].name@),
        span: ast.field_span(model.name@, model.fields@[i].name@),
    }
}

/// Whether the AST holds the model and each of its fields, so that every
/// violation can be given its place.
pub open spec fn ast_covers(ast: &SchemaAst, model: &Model) -> bool {
    &&& ast.has_model(model.name@)
    &&& forall|i: int|
        0 <= i < model.fields@.len() ==> ast.has_field(
            model.name@,
            #[trigger] model.fields@[i].name@,
        )
}

/// The id criterion: a model has either exactly one field with the id marker
/// or a composite id, never both and never neither. A relation model is exempt.
pub open spec fn id_criterion_violation(model: &Model) -> Option<ValidationErrorKind> {
    let c = model.singular_id_count();
    if model.is_relation_model_spec() {
        None
    } else if c > 1 {
        Some(ValidationErrorKind::MultipleIdFields)
    } else if (c == 0) == (model.id_fields@.len() == 0) {
        Some(ValidationErrorKind::IdCriterion)
    } else {
        None
    }
}

/// An id field is a required integer without default, or a required string
/// whose default is the call `cuid()` or `uuid()`.
pub open spec fn is_valid_id_field(f: &Field) -> bool {
    match (f.default_value, f.field_type, f.arity) {
        (
            Some(ScalarValue::Expression(name, return_type, args)),
            FieldType::Base(ScalarType::String),
            FieldArity::Required,
        ) => (name@ == "cuid"@ || name@ == "uuid"@) && return_type == ScalarType::String
            && args@.len() == 0,
        (None, FieldType::Base(ScalarType::Int), FieldArity::Required) => true,
        _ => false,
    }
}

/// Position of the first id field that is not valid; the number of fields if
/// all are.
pub open spec fn first_invalid_id_field(model: &Model) -> int {
    first_index(
        model.fields@.len() as int,
        |i: int| model.fields@[i].is_id_spec() && !is_valid_id_field(&model.fields@[i]),
    )
}

/// Whether a third field at `c` shares the self-relation name of the fields
/// at `a` and `b`.
pub open spec fn is_third_of_self_relation(model: &Model, a: int, b: int, c: int) -> bool {
    let fa = model.fields@[a];
    let fb = model.fields@[b];
    let fc = model.fields@[c];
    &&& c != a
    &&& c != b
    &&& fa.field_type matches FieldType::Relation(ra)
    &&& fb.field_type matches FieldType::Relation(rb)
    &&& fc.field_type matches FieldType::Relation(rc)
    &&& rc.to@ == model.name@
    &&& ra.name@ == rb.name@
    &&& ra.name@ == rc.name@
}

/// How the two distinct fields at `a` and `b` make a relation ambiguous, if
/// they do. Two relation fields to one foreign model under one name are
/// ambiguous. Of the fields that relate the model to itself, two without a
/// name are ambiguous, and so are two that share their name with a third.
pub open spec fn ambiguity(model: &Model, a: int, b: int) -> Option<ValidationErrorKind> {
    let fa = model.fields@[a];
    let fb = model.fields@[b];
    if a == b {
        None
    } else {
        match (fa.field_type, fb.field_type) {
            (FieldType::Relation(ra), FieldType::Relation(rb)) => {
                if ra.to@ != model.name@ && rb.to@ != model.name@ {
                    if ra.to@ == rb.to@ && ra.name@ == rb.name@ {
                        Some(ValidationErrorKind::AmbiguousRelation)
                    } else {
                        None
                    }
                } else if ra.to@ == model.name@ && rb.to@ == model.name@ {
                    if (exists|c: int|
                        0 <= c < model.fields@.len() && is_third_of_self_relation(model, a, b, c))
                        || (ra.name@.len() == 0 && rb.name@.len() == 0) {
                        Some(ValidationErrorKind::AmbiguousSelfRelation)
                    } else {
                        None
                    }
                } else {
                    None
                }
            },
            _ => None,
        }
    }
}

/// Position of the first field with which the field at `a` is ambiguous; the
/// number of fields if there is none.
pub open spec fn first_ambiguous_partner(model: &Model, a: int) -> int {
    first_index(model.fields@.len() as int, |b: int| ambiguity(model, a, b) is Some)
}

/// Position of the first field that is ambiguous with another; the number of
/// fields if there is none.
pub open spec fn first_ambiguous_field(model: &Model) -> int {
    first_index(
        model.fields@.len() as int,
        |a: int| first_ambiguous_partner(model, a) < model.fields@.len(),
    )
}

/// Whether the field at `i` of an embedded model is a back relation: a
/// relation field that was written by the user, references no fields, and
/// whose other end was written by the user too.
pub open spec fn is_back_relation(datamodel: &Datamodel, model: &Model, i: int) -> bool {
    let f = model.fields@[i];
    &&& !f.is_generated
    &&& f.field_type matches FieldType::Relation(rel)
    &&& rel.to_fields@.len() == 0
    &&& !related_field_of(datamodel, model, i).is_generated
}

/// The other end of the relation field at `i`.
pub open spec fn related_field_of(datamodel: &Datamodel, model: &Model, i: int) -> Field {
    let f = model.fields@[i];
    let rel = f.field_type->Relation_0;
    let related = datamodel.model_named(rel.to@);
    related.fields@[related.related_field_index(model.name@, rel.name@, f.name@)]
}

/// Whether the other end of the relation field at `i` can be found.
pub open spec fn has_related_field(datamodel: &Datamodel, model: &Model, i: int) -> bool {
    let f = model.fields@[i];
    let rel = f.field_type->Relation_0;
    let related = datamodel.model_named(rel.to@);
    &&& datamodel.has_model(rel.to@)
    &&& related.related_field_index(model.name@, rel.name@, f.name@) < related.fields@.len()
}

/// Whether every relation field that the user wrote in an embedded model has
/// its other end in the data model.
pub open spec fn embedded_relations_resolve(datamodel: &Datamodel, model: &Model) -> bool {
    model.is_embedded ==> forall|i: int|
        0 <= i < model.fields@.len() && !(#[trigger] model.fields@[i]).is_generated
            && model.fields@[i].field_type is Relation ==> has_related_field(datamodel, model, i)
}

/// Position of the first field that is a back relation; the number of fields
/// if there is none.
pub open spec fn first_back_relation(datamodel: &Datamodel, model: &Model) -> int {
    first_index(model.fields@.len() as int, |i: int| is_back_relation(datamodel, model, i))
}

/// What the id criterion finds wrong with a model.
pub open spec fn has_id_error(ast: &SchemaAst, model: &Model) -> Option<ValidationErrorView> {
    match id_criterion_violation(model) {
        Some(kind) => Some(model_error(kind, ast, model)),
        None => None,
    }
}

/// What is wrong with the first id field that is not valid.
pub open spec fn id_field_error(ast: &SchemaAst, model: &Model) -> Option<ValidationErrorView> {
    let i = first_invalid_id_field(model);
    if i < model.fields@.len() {
        Some(field_error(ValidationErrorKind::InvalidIdField, ast, model, i))
    } else {
        None
    }
}

/// The first ambiguity of a model, reported at the first field that has one.
pub open spec fn ambiguity_error(ast: &SchemaAst, model: &Model) -> Option<ValidationErrorView> {
    let a = first_ambiguous_field(model);
    if a < model.fields@.len() {
        Some(
            field_error(
                ambiguity(model, a, first_ambiguous_partner(model, a))->Some_0,
                ast,
                model,
                a,
            ),
        )
    } else {
        None
    }
}

/// The first back relation of an embedded model.
pub open spec fn back_relation_error(
    ast: &SchemaAst,
    datamodel: &Datamodel,
    model: &Model,
) -> Option<ValidationErrorView> {
    let i = first_back_relation(datamodel, model);
    if model.is_embedded && i < model.fields@.len() {
        Some(field_error(ValidationErrorKind::EmbeddedBackRelation, ast, model, i))
    } else {
        None
    }
}

/// The value as a sequence of one, or the empty sequence.
pub open spec fn optional<T>(o: Option<T>) -> Seq<T> {
    match o {
        Some(x) => seq![x],
        None => Seq::<T>::empty(),
    }
}

/// The violation of the field at `i` as an id field: one where it carries
/// the id marker and is not valid, none otherwise.
pub open spec fn id_field_error_at(ast: &SchemaAst, model: &Model, i: int) -> Seq<
    ValidationErrorView,
> {
    if model.fields@[i].is_id_spec() && !is_valid_id_field(&model.fields@[i]) {
        seq![field_error(ValidationErrorKind::InvalidIdField, ast, model, i)]
    } else {
        Seq::empty()
    }
}

/// The violations of the id fields among the first `n` fields: one for each
/// that is not valid, in the order of the fields.
pub open spec fn id_field_errors(ast: &SchemaAst, model: &Model, n: int) -> Seq<
    ValidationErrorView,
> {
    concat_range(n, |i: int| id_field_error_at(ast, model, i))
}

/// The violation of the pair of fields at `a` and `b`: one where `a` stands
/// before `b` and the two are ambiguous, reported at `a`; none otherwise.
pub open spec fn pair_error(ast: &SchemaAst, model: &Model, a: int, b: int) -> Seq<
    ValidationErrorView,
> {
    if a < b {
        match ambiguity(model, a, b) {
            Some(kind) => seq![field_error(kind, ast, model, a)],
            None => Seq::empty(),
        }
    } else {
        Seq::empty()
    }
}

/// The violations of the pairs that the field at `a` makes with the first
/// `n` fields.
pub open spec fn partner_errors(ast: &SchemaAst, model: &Model, a: int, n: int) -> Seq<
    ValidationErrorView,
> {
    concat_range(n, |b: int| pair_error(ast, model, a, b))
}

/// The violations of the pairs whose first field is among the first `n`
/// fields: one for each ambiguous pair, in the order of the first field and
/// then of the second.
pub open spec fn ambiguity_errors(ast: &SchemaAst, model: &Model, n: int) -> Seq<
    ValidationErrorView,
> {
    concat_range(n, |a: int| partner_errors(ast, model, a, model.fields@.len() as int))
}

/// The violation of the field at `i` as a back relation: one where the
/// model is embedded and the field is a back relation, none otherwise.
pub open spec fn back_relation_error_at(
    ast: &SchemaAst,
    datamodel: &Datamodel,
    model: &Model,
    i: int,
) -> Seq<ValidationErrorView> {
    if model.is_embedded && is_back_relation(datamodel, model, i) {
        seq![field_error(ValidationErrorKind::EmbeddedBackRelation, ast, model, i)]
    } else {
        Seq::empty()
    }
}

/// The violations of the back relations among the first `n` fields: one
/// for each, in the order of the fields.
pub open spec fn back_relation_errors(
    ast: &SchemaAst,
    datamodel: &Datamodel,
    model: &Model,
    n: int,
) -> Seq<ValidationErrorView> {
    concat_range(n, |i: int| back_relation_error_at(ast, datamodel, model, i))
}

/// All violations of one model: that of the id criterion, then one for
/// each id field that is not valid, one for each ambiguous pair of relation
/// fields, and one for each back relation of an embedded model.
pub open spec fn model_errors(ast: &SchemaAst, datamodel: &Datamodel, model: &Model) -> Seq<
    ValidationErrorView,
> {
    let n = model.fields@.len() as int;
    optional(has_id_error(ast, model)) + id_field_errors(ast, model, n) + ambiguity_errors(
        ast,
        model,
        n,
    ) + back_relation_errors(ast, datamodel, model, n)
}

/// All violations of a data model, model by model.
pub open spec fn validation_errors(ast: &SchemaAst, datamodel: &Datamodel) -> Seq<
    ValidationErrorView,
> {
    concat_range(
        datamodel.models@.len() as int,
        |i: int| model_errors(ast, datamodel, &datamodel.models@[i]),
    )
}

/// Whether a result of one rule says what the rule's specification says.
pub open spec fn reports(r: Result<(), ValidationError>, expected: Option<ValidationErrorView>) -> bool {
    match r {
        Ok(_) => expected is None,
        Err(e) => expected == Some(e.deep_view()),
    }
}

/// Validates a data model against the rules on ids, relations and embedded
/// models.
pub struct Validator {}

impl Validator {
    /// A validator.
    pub fn new() -> (r: Validator)
        ensures
            r == (Validator {  }),
    {
        Validator {  }
    }

    fn error_for_model(
        kind: ValidationErrorKind,
        ast: &SchemaAst,
        model: &Model,
    ) -> (e: ValidationError)
        requires
            ast.has_model(model.name@),
        ensures
            e.deep_view() == model_error(kind, ast, model),
    {
        let span = match ast.find_model(model.name.as_str()) {
            Some(m) => m.span,
            None => Span { start: 0, end: 0 },
        };
        ValidationError { kind, model: model.name.clone(), field: None, span }
    }

    fn error_for_field(
        kind: ValidationErrorKind,
        ast: &SchemaAst,
        model: &Model,
        i: usize,
    ) -> (e: ValidationError)
        requires
            i < model.fields@.len(),
            ast.has_field(model.name@, model.fields@[i as int].name@),
        ensures
            e.deep_view() == field_error(kind, ast, model, i as int),
    {
        let name = &model.fields[i].name;
        let span = match ast.find_field(model.name.as_str(), name.as_str()) {
            Some(f) => f.span,
            None => Span { start: 0, end: 0 },
        };
        ValidationError { kind, model: model.name.clone(), field: Some(name.clone()), span }
    }

    /// Checks the id criterion of one model.
    pub fn validate_model_has_id(&self, ast: &SchemaAst, model: &Model) -> (r: Result<
        (),
        ValidationError,
    >)
        requires
            ast.has_model(model.name@),
        ensures
            reports(r, has_id_error(ast, model)),
    {
        if model.is_relation_model() {
            return Ok(());
        }
        let c = model.count_singular_id_fields();
        let no_composite = model.id_fields.len() == 0;
        if c > 1 {
            Err(Self::error_for_model(ValidationErrorKind::MultipleIdFields, ast, model))
        } else if (c == 0) == no_composite {
            Err(Self::error_for_model(ValidationErrorKind::IdCriterion, ast, model))
        } else {
            Ok(())
        }
    }

    fn check_id_field(f: &Field) -> (r: bool)
        ensures
            r == is_valid_id_field(f),
    {
        match (&f.default_value, &f.field_type, &f.arity) {
            (
                Some(ScalarValue::Expression(name, return_type, args)),
                FieldType::Base(ScalarType::String),
                FieldArity::Required,
            ) => {
                let name_eq = same_text(name.as_str(), "cuid") || same_text(name.as_str(), "uuid");
                let type_eq = match return_type {
                    ScalarType::String => true,
                    _ => false,
                };
                let args_eq = args.len() == 0;
                name_eq && type_eq && args_eq
            },
            (None, FieldType::Base(ScalarType::Int), FieldArity::Required) => true,
            _ => false,
        }
    }

    /// Checks that every field with the id marker can serve as an id.
    pub fn validate_id_fields_valid(&self, ast: &SchemaAst, model: &Model) -> (r: Result<
        (),
        ValidationError,
    >)
        requires
            ast_covers(ast, model),
        ensures
            reports(r, id_field_error(ast, model)),
    {
        let ghost p = |i: int| model.fields@[i].is_id_spec() && !is_valid_id_field(&model.fields@[i]);
        let mut i: usize = 0;
        while i < model.fields.len()
            invariant
                0 <= i <= model.fields@.len(),
                forall|j: int| 0 <= j < i ==> !#[trigger] p(j),
                p == (|i: int|
                    model.fields@[i].is_id_spec() && !is_valid_id_field(&model.fields@[i])),
                ast_covers(ast, model),
            decreases model.fields@.len() - i,
        {
            let f = &model.fields[i];
            if f.is_id() && !Self::check_id_field(f) {
                proof {
                    lemma_first_index_unique(model.fields@.len() as int, p, i as int);
                }
                return Err(
                    Self::error_for_field(ValidationErrorKind::InvalidIdField, ast, model, i),
                );
            }
            i = i + 1;
        }
        proof {
            lemma_first_index_unique(model.fields@.len() as int, p, i as int);
        }
        Ok(())
    }

    /// Checks that an embedded model has no back relation to its parent.
    pub fn validate_embedded_types_have_no_back_relation(
        &self,
        ast: &SchemaAst,
        datamodel: &Datamodel,
        model: &Model,
    ) -> (r: Result<(), ValidationError>)
        requires
            ast_covers(ast, model),
            embedded_relations_resolve(datamodel, model),
        ensures
            reports(r, back_relation_error(ast, datamodel, model)),
    {
        if !model.is_embedded {
            return Ok(());
        }
        let ghost p = |i: int| is_back_relation(datamodel, model, i);
        let mut i: usize = 0;
        while i < model.fields.len()
            invariant
                0 <= i <= model.fields@.len(),
                forall|j: int| 0 <= j < i ==> !#[trigger] p(j),
                p == (|i: int| is_back_relation(datamodel, model, i)),
                ast_covers(ast, model),
                embedded_relations_resolve(datamodel, model),
                model.is_embedded,
            decreases model.fields@.len() - i,
        {
            let field = &model.fields[i];
            let mut hit = false;
            if !field.is_generated {
                if let FieldType::Relation(rel) = &field.field_type {
                    if let Some(related) = datamodel.find_model(rel.to.as_str()) {
                        if let Some(related_field) = related.related_field(
                            model.name.as_str(),
                            rel.name.as_str(),
                            field.name.as_str(),
                        ) {
                            hit = rel.to_fields.len() == 0 && !related_field.is_generated;
                        }
                    }
                }
            }
            if hit {
                proof {
                    lemma_first_index_unique(model.fields@.len() as int, p, i as int);
                }
                return Err(
                    Self::error_for_field(
                        ValidationErrorKind::EmbeddedBackRelation,
                        ast,
                        model,
                        i,
                    ),
                );
            }
            i = i + 1;
        }
        proof {
            lemma_first_index_unique(model.fields@.len() as int, p, i as int);
        }
        Ok(())
    }

    fn has_third_of_self_relation(model: &Model, a: usize, b: usize) -> (r: bool)
        requires
            a < model.fields@.len(),
            b < model.fields@.len(),
        ensures
            r == exists|c: int|
                0 <= c < model.fields@.len() && is_third_of_self_relation(
                    model,
                    a as int,
                    b as int,
                    c,
                ),
    {
        let fa = &model.fields[a];
        let fb = &model.fields[b];
        let mut c: usize = 0;
        while c < model.fields.len()
            invariant
                0 <= c <= model.fields@.len(),
                a < model.fields@.len(),
                b < model.fields@.len(),
                *fa == model.fields@[a as int],
                *fb == model.fields@[b as int],
                forall|j: int| 0 <= j < c ==> !is_third_of_self_relation(model, a as int, b as int, j),
            decreases model.fields@.len() - c,
        {
            let fc = &model.fields[c];
            if c != a && c != b {
                if let FieldType::Relation(ra) = &fa.field_type {
                    if let FieldType::Relation(rb) = &fb.field_type {
                        if let FieldType::Relation(rc) = &fc.field_type {
                            if same_text(rc.to.as_str(), model.name.as_str()) && same_text(
                                ra.name.as_str(),
                                rb.name.as_str(),
                            ) && same_text(ra.name.as_str(), rc.name.as_str()) {
                                assert(is_third_of_self_relation(model, a as int, b as int, c as int));
                                return true;
                            }
                        }
                    }
                }
            }
            c = c + 1;
        }
        false
    }

    fn ambiguity_between(model: &Model, a: usize, b: usize) -> (r: Option<ValidationErrorKind>)
        requires
            a < model.fields@.len(),
            b < model.fields@.len(),
        ensures
            r == ambiguity(model, a as int, b as int),
    {
        if a == b {
            return None;
        }
        let fa = &model.fields[a];
        let fb = &model.fields[b];
        match (&fa.field_type, &fb.field_type) {
            (FieldType::Relation(ra), FieldType::Relation(rb)) => {
                let a_self = same_text(ra.to.as_str(), model.name.as_str());
                let b_self = same_text(rb.to.as_str(), model.name.as_str());
                if !a_self && !b_self {
                    if same_text(ra.to.as_str(), rb.to.as_str()) && same_text(
                        ra.name.as_str(),
                        rb.name.as_str(),
                    ) {
                        Some(ValidationErrorKind::AmbiguousRelation)
                    } else {
                        None
                    }
                } else if a_self && b_self {
                    if Self::has_third_of_self_relation(model, a, b) {
                        Some(ValidationErrorKind::AmbiguousSelfRelation)
                    } else if ra.name.as_str().unicode_len() == 0 && rb.name.as_str().unicode_len()
                        == 0 {
                        Some(ValidationErrorKind::AmbiguousSelfRelation)
                    } else {
                        None
                    }
                } else {
                    None
                }
            },
            _ => None,
        }
    }

    /// Checks that no two relation fields of a model are ambiguous.
    #[verifier::rlimit(40)]
    pub fn validate_relations_not_ambiguous(&self, ast: &SchemaAst, model: &Model) -> (r: Result<
        (),
        ValidationError,
    >)
        requires
            ast_covers(ast, model),
        ensures
            reports(r, ambiguity_error(ast, model)),
    {
        let n = model.fields.len();
        let ghost outer = |a: int| first_ambiguous_partner(model, a) < model.fields@.len();
        let mut a: usize = 0;
        while a < n
            invariant
                n == model.fields@.len(),
                0 <= a <= n,
                forall|j: int| 0 <= j < a ==> !#[trigger] outer(j),
                outer == (|a: int| first_ambiguous_partner(model, a) < model.fields@.len()),
                ast_covers(ast, model),
            decreases n - a,
        {
            let ghost inner = |b: int| ambiguity(model, a as int, b) is Some;
            let mut b: usize = 0;
            while b < n
                invariant
                    n == model.fields@.len(),
                    0 <= a < n,
                    0 <= b <= n,
                    forall|j: int| 0 <= j < a ==> !#[trigger] outer(j),
                    forall|j: int| 0 <= j < b ==> !#[trigger] inner(j),
                    outer == (|a: int| first_ambiguous_partner(model, a) < model.fields@.len()),
                    inner == (|b: int| ambiguity(model, a as int, b) is Some),
                    ast_covers(ast, model),
                decreases n - b,
            {
                if let Some(kind) = Self::ambiguity_between(model, a, b) {
                    proof {
                        lemma_first_index_unique(n as int, inner, b as int);
                        lemma_first_index_unique(n as int, outer, a as int);
                    }
                    return Err(Self::error_for_field(kind, ast, model, a));
                }
                b = b + 1;
            }
            proof {
                lemma_first_index_unique(n as int, inner, n as int);
            }
            a = a + 1;
        }
        proof {
            lemma_first_index_unique(n as int, outer, n as int);
        }
        Ok(())
    }

    fn is_back_relation_at(datamodel: &Datamodel, model: &Model, i: usize) -> (r: bool)
        requires
            i < model.fields@.len(),
            model.is_embedded,
            embedded_relations_resolve(datamodel, model),
        ensures
            r == is_back_relation(datamodel, model, i as int),
    {
        let field = &model.fields[i];
        let mut hit = false;
        if !field.is_generated {
            if let FieldType::Relation(rel) = &field.field_type {
                if let Some(related) = datamodel.find_model(rel.to.as_str()) {
                    if let Some(related_field) = related.related_field(
                        model.name.as_str(),
                        rel.name.as_str(),
                        field.name.as_str(),
                    ) {
                        hit = rel.to_fields.len() == 0 && !related_field.is_generated;
                    }
                }
            }
        }
        hit
    }

    fn collect_id_field_errors(ast: &SchemaAst, model: &Model, errors: &mut ErrorCollection)
        requires
            ast_covers(ast, model),
        ensures
            final(errors).errors.deep_view() == old(errors).errors.deep_view() + id_field_errors(
                ast,
                model,
                model.fields@.len() as int,
            ),
    {
        let ghost before = errors.errors.deep_view();
        let mut i: usize = 0;
        while i < model.fields.len()
            invariant
                0 <= i <= model.fields@.len(),
                ast_covers(ast, model),
                errors.errors.deep_view() == before + id_field_errors(ast, model, i as int),
            decreases model.fields@.len() - i,
        {
            let ghost mid = errors.errors.deep_view();
            let f = &model.fields[i];
            if f.is_id() && !Self::check_id_field(f) {
                let e = Self::error_for_field(ValidationErrorKind::InvalidIdField, ast, model, i);
                errors.push(e);
                assert(errors.errors.deep_view() =~= mid + seq![e.deep_view()]);
            }
            assert(errors.errors.deep_view() =~= before + id_field_errors(ast, model, i + 1));
            i = i + 1;
        }
    }

    fn collect_partner_errors(ast: &SchemaAst, model: &Model, a: usize, errors: &mut ErrorCollection)
        requires
            a < model.fields@.len(),
            ast_covers(ast, model),
        ensures
            final(errors).errors.deep_view() == old(errors).errors.deep_view() + partner_errors(
                ast,
                model,
                a as int,
                model.fields@.len() as int,
            ),
    {
        let ghost before = errors.errors.deep_view();
        let n = model.fields.len();
        let mut b: usize = 0;
        while b < n
            invariant
                n == model.fields@.len(),
                a < n,
                0 <= b <= n,
                ast_covers(ast, model),
                errors.errors.deep_view() == before + partner_errors(ast, model, a as int, b as int),
            decreases n - b,
        {
            let ghost mid = errors.errors.deep_view();
            if a < b {
                if let Some(kind) = Self::ambiguity_between(model, a, b) {
                    let e = Self::error_for_field(kind, ast, model, a);
                    errors.push(e);
                    assert(errors.errors.deep_view() =~= mid + seq![e.deep_view()]);
                }
            }
            assert(errors.errors.deep_view() =~= before + partner_errors(
                ast,
                model,
                a as int,
                b + 1,
            ));
            b = b + 1;
        }
    }

    fn collect_ambiguity_errors(ast: &SchemaAst, model: &Model, errors: &mut ErrorCollection)
        requires
            ast_covers(ast, model),
        ensures
            final(errors).errors.deep_view() == old(errors).errors.deep_view() + ambiguity_errors(
                ast,
                model,
                model.fields@.len() as int,
            ),
    {
        let ghost before = errors.errors.deep_view();
        let n = model.fields.len();
        let mut a: usize = 0;
        while a < n
            invariant
                n == model.fields@.len(),
                0 <= a <= n,
                ast_covers(ast, model),
                errors.errors.deep_view() == before + ambiguity_errors(ast, model, a as int),
            decreases n - a,
        {
            Self::collect_partner_errors(ast, model, a, errors);
            assert(errors.errors.deep_view() =~= before + ambiguity_errors(ast, model, a + 1));
            a = a + 1;
        }
    }

    fn collect_back_relation_errors(
        ast: &SchemaAst,
        datamodel: &Datamodel,
        model: &Model,
        errors: &mut ErrorCollection,
    )
        requires
            ast_covers(ast, model),
            embedded_relations_resolve(datamodel, model),
        ensures
            final(errors).errors.deep_view() == old(errors).errors.deep_view()
                + back_relation_errors(ast, datamodel, model, model.fields@.len() as int),
    {
        let ghost before = errors.errors.deep_view();
        let mut i: usize = 0;
        while i < model.fields.len()
            invariant
                0 <= i <= model.fields@.len(),
                ast_covers(ast, model),
                embedded_relations_resolve(datamodel, model),
                errors.errors.deep_view() == before + back_relation_errors(
                    ast,
                    datamodel,
                    model,
                    i as int,
                ),
            decreases model.fields@.len() - i,
        {
            let ghost mid = errors.errors.deep_view();
            if model.is_embedded && Self::is_back_relation_at(datamodel, model, i) {
                let e = Self::error_for_field(
                    ValidationErrorKind::EmbeddedBackRelation,
                    ast,
                    model,
                    i,
                );
                errors.push(e);
                assert(errors.errors.deep_view() =~= mid + seq![e.deep_view()]);
            }
            assert(errors.errors.deep_view() =~= before + back_relation_errors(
                ast,
                datamodel,
                model,
                i + 1,
            ));
            i = i + 1;
        }
    }

    /// Whether the AST covers every model, and every embedded model's
    /// relations can be followed.
    pub open spec fn can_validate(ast: &SchemaAst, datamodel: &Datamodel) -> bool {
        forall|i: int|
            0 <= i < datamodel.models@.len() ==> ast_covers(ast, #[trigger] &datamodel.models@[i])
                && embedded_relations_resolve(datamodel, &datamodel.models@[i])
    }

    /// Checks every rule on every model. The result is `Ok` exactly when no
    /// rule is broken; otherwise it holds every violation, model by model.
    #[verifier::rlimit(40)]
    pub fn validate(&self, ast_schema: &SchemaAst, schema: &mut Datamodel) -> (r: Result<
        (),
        ErrorCollection,
    >)
        requires
            Self::can_validate(ast_schema, old(schema)),
        ensures
            *final(schema) == *old(schema),
            r is Ok <==> validation_errors(ast_schema, old(schema)).len() == 0,
            r matches Err(c) ==> c.errors.deep_view() == validation_errors(ast_schema, old(schema)),
    {
        let mut errors = ErrorCollection::new();
        let ghost f = |i: int| model_errors(ast_schema, schema, &schema.models@[i]);
        let mut i: usize = 0;
        while i < schema.models.len()
            invariant
                0 <= i <= schema.models@.len(),
                *schema == *old(schema),
                Self::can_validate(ast_schema, schema),
                f == (|i: int| model_errors(ast_schema, schema, &schema.models@[i])),
                errors.errors.deep_view() == concat_range(i as int, f),
            decreases schema.models@.len() - i,
        {
            let model = &schema.models[i];
            let ghost before = errors.errors.deep_view();
            let r1 = self.validate_model_has_id(ast_schema, model);
            if let Err(err) = r1 {
                errors.push(err);
            }
            assert(errors.errors.deep_view() =~= before + optional(has_id_error(ast_schema, model)));
            Self::collect_id_field_errors(ast_schema, model, &mut errors);
            Self::collect_ambiguity_errors(ast_schema, model, &mut errors);
            Self::collect_back_relation_errors(ast_schema, schema, model, &mut errors);
            assert(errors.errors.deep_view() =~= before + model_errors(ast_schema, schema, model));
            i = i + 1;
        }
        if errors.has_errors() {
            Err(errors)
        } else {
            Ok(())
        }
    }
}

/// After a validation without findings every model that is not a relation
/// model has exactly one id criterion: either exactly one field with the id
/// marker and no composite id, or no such field and a composite id that is not
/// empty.
pub proof fn lemma_validated_models_have_one_id_criterion(
    ast: &SchemaAst,
    datamodel: &Datamodel,
    i: int,
)
    requires
        validation_errors(ast, datamodel).len() == 0,
        0 <= i < datamodel.models@.len(),
        !datamodel.models@[i].is_relation_model_spec(),
    ensures
        (datamodel.models@[i].singular_id_count() == 1 && datamodel.models@[i].id_fields@.len()
            == 0) || (datamodel.models@[i].singular_id_count() == 0
            && datamodel.models@[i].id_fields@.len() > 0),
{
    let f = |i: int| model_errors(ast, datamodel, &datamodel.models@[i]);
    lemma_concat_range_none(datamodel.models@.len() as int, f, i);
}

/// After a validation without findings every field with the id marker is a
/// valid id field.
pub proof fn lemma_validated_id_fields_are_valid(
    ast: &SchemaAst,
    datamodel: &Datamodel,
    i: int,
    k: int,
)
    requires
        validation_errors(ast, datamodel).len() == 0,
        0 <= i < datamodel.models@.len(),
        0 <= k < datamodel.models@[i].fields@.len(),
        datamodel.models@[i].fields@[k].is_id_spec(),
    ensures
        is_valid_id_field(&datamodel.models@[i].fields@[k]),
{
    let f = |i: int| model_errors(ast, datamodel, &datamodel.models@[i]);
    lemma_concat_range_none(datamodel.models@.len() as int, f, i);
    let m = &datamodel.models@[i];
    let g = |j: int| id_field_error_at(ast, m, j);
    lemma_concat_range_none(m.fields@.len() as int, g, k);
}

/// After a validation without findings no two relation fields of a model
/// are ambiguous.
pub proof fn lemma_validated_relations_are_not_ambiguous(
    ast: &SchemaAst,
    datamodel: &Datamodel,
    i: int,
    a: int,
    b: int,
)
    requires
        validation_errors(ast, datamodel).len() == 0,
        0 <= i < datamodel.models@.len(),
        0 <= a < b < datamodel.models@[i].fields@.len(),
    ensures
        ambiguity(&datamodel.models@[i], a, b) is None,
{
    let f = |i: int| model_errors(ast, datamodel, &datamodel.models@[i]);
    lemma_concat_range_none(datamodel.models@.len() as int, f, i);
    let m = &datamodel.models@[i];
    let n = m.fields@.len() as int;
    let outer = |x: int| partner_errors(ast, m, x, n);
    lemma_concat_range_none(n, outer, a);
    let inner = |y: int| pair_error(ast, m, a, y);
    lemma_concat_range_none(n, inner, b);
}

} // verus!
