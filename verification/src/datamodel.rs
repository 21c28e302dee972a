//! The data-model intermediate representation: models, fields, relations,
//! enums and indexes, as the schema parser hands them over.

use crate::relation::OnDelete;
use crate::seqs::{count_below, first_index, lemma_first_index, lemma_first_index_unique};
use vstd::prelude::*;
use vstd::string::StringExecFns;

verus! {

/// How many values a field holds.
#[derive(Clone, Copy, Debug, PartialEq, Eq, Structural)]
pub enum FieldArity {
    Required,
    Optional,
    List,
}

/// The base scalar types.
#[derive(Clone, Copy, Debug, PartialEq, Eq, Structural)]
pub enum ScalarType {
    Int,
    Float,
    Boolean,
    String,
    DateTime,
    Decimal,
}

/// A point in time in UTC: whole seconds since the Unix epoch and the
/// nanoseconds within the second.
#[derive(Clone, Copy, Debug, PartialEq, Eq, Structural)]
pub struct Timestamp {
    pub secs: i64,
    pub nanos: u32,
}

/// A scalar value as it appears in a default. Floating-point and decimal
/// numbers are held as their decimal text.
#[derive(Debug, PartialEq)]
pub enum ScalarValue {
    Int(i32),
    Float(String),
    Decimal(String),
    Boolean(bool),
    String(String),
    DateTime(Timestamp),
    /// The name of an enum value.
    ConstantLiteral(String),
    /// A call such as `cuid()`: name, return type and arguments.
    Expression(String, ScalarType, Vec<ScalarValue>),
}

/// Who gives an id its value.
#[derive(Clone, Copy, Debug, PartialEq, Eq, Structural)]
pub enum IdStrategy {
    Auto,
    /// The value is supplied by the caller.
    Manual,
}

/// A sequence that feeds an id.
#[derive(Clone, Debug, PartialEq)]
pub struct Sequence {
    pub name: String,
    pub initial_value: i32,
    pub allocation_size: i32,
}

/// Marks a field as the id of its model.
#[derive(Clone, Debug, PartialEq)]
pub struct IdInfo {
    pub strategy: IdStrategy,
    pub sequence: Option<Sequence>,
}

/// What a relation field points at.
#[derive(Clone, Debug, PartialEq)]
pub struct RelationInfo {
    /// Name of the target model.
    pub to: String,
    /// Fields of the target that this field references.
    pub to_fields: Vec<String>,
    /// Name of the relation; empty when the user gave none.
    pub name: String,
    pub on_delete: OnDelete,
}

/// What a field holds: a scalar, a value of an enum, or a relation.
#[derive(Clone, Debug, PartialEq)]
pub enum FieldType {
    Base(ScalarType),
    /// The name of an enum of the data model.
    Enum(String),
    Relation(RelationInfo),
}

/// A field of a model.
#[derive(Debug, PartialEq)]
pub struct Field {
    pub name: String,
    pub database_name: Option<String>,
    pub field_type: FieldType,
    pub arity: FieldArity,
    pub default_value: Option<ScalarValue>,
    pub id_info: Option<IdInfo>,
    pub is_unique: bool,
    pub is_updated_at: bool,
    pub is_generated: bool,
    pub documentation: Option<String>,
}

/// Whether an index forbids equal entries.
#[derive(Clone, Copy, Debug, PartialEq, Eq, Structural)]
pub enum IndexType {
    Unique,
    Normal,
}

/// An index over several fields, as the model declares it.
#[derive(Clone, Debug, PartialEq)]
pub struct IndexDefinition {
    pub name: Option<String>,
    pub fields: Vec<String>,
    pub tpe: IndexType,
}

/// A model: a kind of record.
#[derive(Debug, PartialEq)]
pub struct Model {
    pub name: String,
    pub database_name: Option<String>,
    pub is_embedded: bool,
    pub fields: Vec<Field>,
    /// The composite id: names of the fields it is made of.
    pub id_fields: Vec<String>,
    pub indexes: Vec<IndexDefinition>,
    pub documentation: Option<String>,
}

/// An enum: a name and the values it has.
#[derive(Clone, Debug, PartialEq)]
pub struct Enum {
    pub name: String,
    pub values: Vec<String>,
    pub database_name: Option<String>,
    pub documentation: Option<String>,
}

/// Models and enums in the order in which they were declared.
#[derive(Debug, PartialEq)]
pub struct Datamodel {
    pub models: Vec<Model>,
    pub enums: Vec<Enum>,
}

impl Field {
    /// A required field without default, id marker or database name.
    pub fn new(name: &str, field_type: FieldType) -> (r: Field)
        ensures
            r.name@ == name@,
            r.field_type == field_type,
            r.arity == FieldArity::Required,
            r.database_name is None,
            r.default_value is None,
            r.id_info is None,
            !r.is_unique,
            !r.is_updated_at,
            !r.is_generated,
            r.documentation is None,
    {
        Field {
            name: String::from_str(name),
            database_name: None,
            field_type,
            arity: FieldArity::Required,
            default_value: None,
            id_info: None,
            is_unique: false,
            is_updated_at: false,
            is_generated: false,
            documentation: None,
        }
    }

    /// Whether the field carries the id marker.
    pub open spec fn is_id_spec(&self) -> bool {
        self.id_info is Some
    }

    /// Whether the field carries the id marker.
    pub fn is_id(&self) -> (r: bool)
        ensures
            r == self.is_id_spec(),
    {
        self.id_info.is_some()
    }

    /// Whether the field holds a list.
    pub fn is_list(&self) -> (r: bool)
        ensures
            r == (self.arity == FieldArity::List),
    {
        match self.arity {
            FieldArity::List => true,
            _ => false,
        }
    }

    /// Whether the field must hold a value.
    pub fn is_required(&self) -> (r: bool)
        ensures
            r == (self.arity == FieldArity::Required),
    {
        match self.arity {
            FieldArity::Required => true,
            _ => false,
        }
    }

    /// The column name: the override where there is one, else the field's name.
    pub open spec fn db_name_view(&self) -> Seq<char> {
        match self.database_name {
            Some(n) => n@,
            None => self.name@,
        }
    }

    /// The column name as a string.
    pub open spec fn db_name_string(&self) -> String {
        match self.database_name {
            Some(n) => n,
            None => self.name,
        }
    }

    /// The name in the database: the override where there is one, else the name.
    pub fn db_name(&self) -> (r: String)
        ensures
            r@ == self.db_name_view(),
            r == self.db_name_string(),
    {
        match &self.database_name {
            Some(n) => n.clone(),
            None => self.name.clone(),
        }
    }

    /// Whether the database gives the field its value: an integer id with
    /// the automatic strategy.
    pub open spec fn is_auto_generated_spec(&self) -> bool {
        &&& self.id_info matches Some(info)
        &&& info.strategy == IdStrategy::Auto
        &&& self.field_type == FieldType::Base(ScalarType::Int)
    }

    /// Whether the database gives the field its value.
    pub fn is_auto_generated(&self) -> (r: bool)
        ensures
            r == self.is_auto_generated_spec(),
    {
        match (&self.id_info, &self.field_type) {
            (Some(info), FieldType::Base(ScalarType::Int)) => match info.strategy {
                IdStrategy::Auto => true,
                IdStrategy::Manual => false,
            },
            _ => false,
        }
    }

    /// Whether the field holds a base scalar or an enum value.
    pub open spec fn is_scalar_spec(&self) -> bool {
        self.field_type is Base || self.field_type is Enum
    }

    /// Whether the field is a relation field of arity required.
    pub open spec fn is_required_relation(&self) -> bool {
        self.field_type is Relation && self.arity == FieldArity::Required
    }
}

impl Model {
    /// A model without fields.
    pub fn new(name: &str) -> (r: Model)
        ensures
            r.name@ == name@,
            r.database_name is None,
            !r.is_embedded,
            r.fields@.len() == 0,
            r.id_fields@.len() == 0,
            r.indexes@.len() == 0,
            r.documentation is None,
    {
        Model {
            name: String::from_str(name),
            database_name: None,
            is_embedded: false,
            fields: Vec::new(),
            id_fields: Vec::new(),
            indexes: Vec::new(),
            documentation: None,
        }
    }

    /// Adds a field at the end.
    pub fn add_field(&mut self, field: Field)
        ensures
            final(self).fields@ == old(self).fields@.push(field),
            final(self).name == old(self).name,
            final(self).database_name == old(self).database_name,
            final(self).is_embedded == old(self).is_embedded,
            final(self).id_fields == old(self).id_fields,
            final(self).indexes == old(self).indexes,
            final(self).documentation == old(self).documentation,
    {
        self.fields.push(field);
    }

    /// The table name: the override where there is one, else the model's name.
    pub open spec fn db_name_view(&self) -> Seq<char> {
        match self.database_name {
            Some(n) => n@,
            None => self.name@,
        }
    }

    /// The table name as a string.
    pub open spec fn db_name_string(&self) -> String {
        match self.database_name {
            Some(n) => n,
            None => self.name,
        }
    }

    /// The name in the database: the override where there is one, else the name.
    pub fn db_name(&self) -> (r: String)
        ensures
            r@ == self.db_name_view(),
            r == self.db_name_string(),
    {
        match &self.database_name {
            Some(n) => n.clone(),
            None => self.name.clone(),
        }
    }

    /// Position of the first field called `name`; the number of fields if
    /// there is none.
    pub open spec fn field_index(&self, name: Seq<char>) -> int {
        first_index(self.fields@.len() as int, |i: int| self.fields@[i].name@ == name)
    }

    /// Whether the model has a field called `name`.
    pub open spec fn has_field(&self, name: Seq<char>) -> bool {
        self.field_index(name) < self.fields@.len()
    }

    /// The first field called `name`.
    pub fn find_field(&self, name: &str) -> (r: Option<&Field>)
        ensures
            r is Some <==> self.has_field(name@),
            r matches Some(f) ==> *f == self.fields@[self.field_index(name@)],
    {
        let ghost p = |i: int| self.fields@[i].name@ == name@;
        let mut i: usize = 0;
        while i < self.fields.len()
            invariant
                0 <= i <= self.fields@.len(),
                forall|j: int| 0 <= j < i ==> !#[trigger] p(j),
                p == (|i: int| self.fields@[i].name@ == name@),
            decreases self.fields@.len() - i,
        {
            if crate::text::same_text(self.fields[i].name.as_str(), name) {
                proof {
                    lemma_first_index_unique(self.fields@.len() as int, p, i as int);
                }
                return Some(&self.fields[i]);
            }
            i = i + 1;
        }
        proof {
            lemma_first_index_unique(self.fields@.len() as int, p, i as int);
        }
        None
    }

    /// Position of the first field that carries the id marker; the number of
    /// fields if there is none.
    pub open spec fn id_field_index(&self) -> int {
        first_index(self.fields@.len() as int, |i: int| self.fields@[i].is_id_spec())
    }

    /// Whether a field of the model carries the id marker.
    pub open spec fn has_id_field(&self) -> bool {
        self.id_field_index() < self.fields@.len()
    }

    /// The first field that carries the id marker.
    pub open spec fn id_field_spec(&self) -> Field {
        self.fields@[self.id_field_index()]
    }

    /// The first field that carries the id marker.
    pub fn id_field(&self) -> (r: Option<&Field>)
        ensures
            r is Some <==> self.has_id_field(),
            r matches Some(f) ==> *f == self.id_field_spec(),
    {
        let ghost p = |i: int| self.fields@[i].is_id_spec();
        let mut i: usize = 0;
        while i < self.fields.len()
            invariant
                0 <= i <= self.fields@.len(),
                forall|j: int| 0 <= j < i ==> !#[trigger] p(j),
                p == (|i: int| self.fields@[i].is_id_spec()),
            decreases self.fields@.len() - i,
        {
            if self.fields[i].is_id() {
                proof {
                    lemma_first_index_unique(self.fields@.len() as int, p, i as int);
                }
                return Some(&self.fields[i]);
            }
            i = i + 1;
        }
        proof {
            lemma_first_index_unique(self.fields@.len() as int, p, i as int);
        }
        None
    }

    /// Position of the first field that carries the id marker.
    pub fn id_field_position(&self) -> (r: Option<usize>)
        ensures
            r is Some <==> self.has_id_field(),
            r matches Some(i) ==> i == self.id_field_index(),
    {
        let ghost p = |i: int| self.fields@[i].is_id_spec();
        let mut i: usize = 0;
        while i < self.fields.len()
            invariant
                0 <= i <= self.fields@.len(),
                forall|j: int| 0 <= j < i ==> !#[trigger] p(j),
                p == (|i: int| self.fields@[i].is_id_spec()),
            decreases self.fields@.len() - i,
        {
            if self.fields[i].is_id() {
                proof {
                    lemma_first_index_unique(self.fields@.len() as int, p, i as int);
                }
                return Some(i);
            }
            i = i + 1;
        }
        proof {
            lemma_first_index_unique(self.fields@.len() as int, p, i as int);
        }
        None
    }

    /// How many fields carry the id marker.
    pub open spec fn singular_id_count(&self) -> nat {
        count_below(self.fields@.len() as int, |i: int| self.fields@[i].is_id_spec())
    }

    /// How many fields carry the id marker.
    pub fn count_singular_id_fields(&self) -> (r: usize)
        ensures
            r == self.singular_id_count(),
    {
        let ghost p = |i: int| self.fields@[i].is_id_spec();
        let mut n: usize = 0;
        let mut i: usize = 0;
        while i < self.fields.len()
            invariant
                0 <= i <= self.fields@.len(),
                n == count_below(i as int, p),
                n <= i,
                p == (|i: int| self.fields@[i].is_id_spec()),
            decreases self.fields@.len() - i,
        {
            if self.fields[i].is_id() {
                n = n + 1;
            }
            i = i + 1;
        }
        n
    }

    /// A relation model stands for a join table: it has exactly two relation
    /// fields of arity required.
    pub open spec fn is_relation_model_spec(&self) -> bool {
        count_below(self.fields@.len() as int, |i: int| self.fields@[i].is_required_relation())
            == 2
    }

    /// Whether the model stands for a join table.
    pub fn is_relation_model(&self) -> (r: bool)
        ensures
            r == self.is_relation_model_spec(),
    {
        let ghost p = |i: int| self.fields@[i].is_required_relation();
        let mut n: usize = 0;
        let mut i: usize = 0;
        while i < self.fields.len()
            invariant
                0 <= i <= self.fields@.len(),
                n == count_below(i as int, p),
                n <= i,
                p == (|i: int| self.fields@[i].is_required_relation()),
            decreases self.fields@.len() - i,
        {
            let f = &self.fields[i];
            let is_rel = match &f.field_type {
                FieldType::Relation(_) => true,
                _ => false,
            };
            if is_rel && f.is_required() {
                n = n + 1;
            }
            i = i + 1;
        }
        n == 2
    }

    /// Whether the field at `i` is the other end, on this model, of the
    /// relation `name` to the model `to`. A field of a self-relation is not
    /// its own other end: `exclude` names the field that asks.
    pub open spec fn is_related_field(
        &self,
        i: int,
        to: Seq<char>,
        name: Seq<char>,
        exclude: Seq<char>,
    ) -> bool {
        let f = self.fields@[i];
        f.field_type matches FieldType::Relation(rel) && rel.to@ == to && rel.name@ == name && (
        self.name@ != to || f.name@ != exclude)
    }

    /// Position of the first field that is the other end of the relation `name`
    /// to `to`; the number of fields if there is none.
    pub open spec fn related_field_index(
        &self,
        to: Seq<char>,
        name: Seq<char>,
        exclude: Seq<char>,
    ) -> int {
        first_index(
            self.fields@.len() as int,
            |i: int| self.is_related_field(i, to, name, exclude),
        )
    }

    /// The first field that is the other end of the relation `name` to `to`.
    pub fn related_field(&self, to: &str, name: &str, exclude_field: &str) -> (r: Option<&Field>)
        ensures
            r is Some <==> self.related_field_index(to@, name@, exclude_field@)
                < self.fields@.len(),
            r matches Some(f) ==> *f == self.fields@[self.related_field_index(
                to@,
                name@,
                exclude_field@,
            )],
    {
        match self.related_field_position(to, name, exclude_field) {
            Some(i) => Some(&self.fields[i]),
            None => None,
        }
    }

    /// Position of the first field that is the other end of the relation
    /// `name` to `to`.
    pub fn related_field_position(&self, to: &str, name: &str, exclude_field: &str) -> (r: Option<
        usize,
    >)
        ensures
            r is Some <==> self.related_field_index(to@, name@, exclude_field@)
                < self.fields@.len(),
            r matches Some(i) ==> i == self.related_field_index(to@, name@, exclude_field@),
    {
        let ghost p = |i: int| self.is_related_field(i, to@, name@, exclude_field@);
        let mut i: usize = 0;
        while i < self.fields.len()
            invariant
                0 <= i <= self.fields@.len(),
                forall|j: int| 0 <= j < i ==> !#[trigger] p(j),
                p == (|i: int| self.is_related_field(i, to@, name@, exclude_field@)),
            decreases self.fields@.len() - i,
        {
            let f = &self.fields[i];
            let hit = match &f.field_type {
                FieldType::Relation(rel) => crate::text::same_text(rel.to.as_str(), to)
                    && crate::text::same_text(rel.name.as_str(), name) && (!crate::text::same_text(
                    self.name.as_str(),
                    to,
                ) || !crate::text::same_text(f.name.as_str(), exclude_field)),
                _ => false,
            };
            if hit {
                proof {
                    lemma_first_index_unique(self.fields@.len() as int, p, i as int);
                }
                return Some(i);
            }
            i = i + 1;
        }
        proof {
            lemma_first_index_unique(self.fields@.len() as int, p, i as int);
        }
        None
    }
}

impl Datamodel {
    /// A data model without models and enums.
    pub fn new() -> (r: Datamodel)
        ensures
            r.models@.len() == 0,
            r.enums@.len() == 0,
            r.wf(),
    {
        Datamodel { models: Vec::new(), enums: Vec::new() }
    }

    /// Whether no two models and no two enums have one name.
    pub open spec fn wf(&self) -> bool {
        &&& forall|i: int, j: int|
            0 <= i < j < self.models@.len() ==> (#[trigger] self.models@[i]).name@
                != (#[trigger] self.models@[j]).name@
        &&& forall|i: int, j: int|
            0 <= i < j < self.enums@.len() ==> (#[trigger] self.enums@[i]).name@
                != (#[trigger] self.enums@[j]).name@
    }

    /// Adds a model at the end, unless the data model has one of that
    /// name. Says whether it was added.
    pub fn add_model(&mut self, model: Model) -> (added: bool)
        ensures
            added == !old(self).has_model(model.name@),
            added ==> final(self).models@ == old(self).models@.push(model),
            !added ==> final(self).models == old(self).models,
            final(self).enums == old(self).enums,
            old(self).wf() ==> final(self).wf(),
    {
        if self.find_model(model.name.as_str()).is_some() {
            return false;
        }
        proof {
            let p = |k: int| self.models@[k].name@ == model.name@;
            lemma_first_index(self.models@.len() as int, p);
            assert forall|k: int| 0 <= k < self.models@.len() implies self.models@[k].name@
                != model.name@ by {
                assert(!p(k));
            }
        }
        self.models.push(model);
        true
    }

    /// Adds an enum at the end, unless the data model has one of that
    /// name. Says whether it was added.
    pub fn add_enum(&mut self, en: Enum) -> (added: bool)
        ensures
            added == !old(self).has_enum(en.name@),
            added ==> final(self).enums@ == old(self).enums@.push(en),
            !added ==> final(self).enums == old(self).enums,
            final(self).models == old(self).models,
            old(self).wf() ==> final(self).wf(),
    {
        if self.find_enum(en.name.as_str()).is_some() {
            return false;
        }
        proof {
            let p = |k: int| self.enums@[k].name@ == en.name@;
            lemma_first_index(self.enums@.len() as int, p);
            assert forall|k: int| 0 <= k < self.enums@.len() implies self.enums@[k].name@
                != en.name@ by {
                assert(!p(k));
            }
        }
        self.enums.push(en);
        true
    }

    /// Position of the first model called `name`; the number of models if
    /// there is none.
    pub open spec fn model_index(&self, name: Seq<char>) -> int {
        first_index(self.models@.len() as int, |i: int| self.models@[i].name@ == name)
    }

    /// Whether the data model has a model called `name`.
    pub open spec fn has_model(&self, name: Seq<char>) -> bool {
        self.model_index(name) < self.models@.len()
    }

    /// The first model called `name`.
    pub open spec fn model_named(&self, name: Seq<char>) -> Model {
        self.models@[self.model_index(name)]
    }

    /// The first model called `name`.
    pub fn find_model(&self, name: &str) -> (r: Option<&Model>)
        ensures
            r is Some <==> self.has_model(name@),
            r matches Some(m) ==> *m == self.model_named(name@),
    {
        match self.model_position(name) {
            Some(i) => Some(&self.models[i]),
            None => None,
        }
    }

    /// Position of the first model called `name`.
    pub fn model_position(&self, name: &str) -> (r: Option<usize>)
        ensures
            r is Some <==> self.has_model(name@),
            r matches Some(i) ==> i == self.model_index(name@),
    {
        let ghost p = |i: int| self.models@[i].name@ == name@;
        let mut i: usize = 0;
        while i < self.models.len()
            invariant
                0 <= i <= self.models@.len(),
                forall|j: int| 0 <= j < i ==> !#[trigger] p(j),
                p == (|i: int| self.models@[i].name@ == name@),
            decreases self.models@.len() - i,
        {
            if crate::text::same_text(self.models[i].name.as_str(), name) {
                proof {
                    lemma_first_index_unique(self.models@.len() as int, p, i as int);
                }
                return Some(i);
            }
            i = i + 1;
        }
        proof {
            lemma_first_index_unique(self.models@.len() as int, p, i as int);
        }
        None
    }

    /// Position of the first enum called `name`; the number of enums if
    /// there is none.
    pub open spec fn enum_index(&self, name: Seq<char>) -> int {
        first_index(self.enums@.len() as int, |i: int| self.enums@[i].name@ == name)
    }

    /// Whether the data model has an enum called `name`.
    pub open spec fn has_enum(&self, name: Seq<char>) -> bool {
        self.enum_index(name) < self.enums@.len()
    }

    /// The first enum called `name`.
    pub open spec fn enum_named(&self, name: Seq<char>) -> Enum {
        self.enums@[self.enum_index(name)]
    }

    /// The first enum called `name`.
    pub fn find_enum(&self, name: &str) -> (r: Option<&Enum>)
        ensures
            r is Some <==> self.has_enum(name@),
            r matches Some(e) ==> *e == self.enum_named(name@),
    {
        let ghost p = |i: int| self.enums@[i].name@ == name@;
        let mut i: usize = 0;
        while i < self.enums.len()
            invariant
                0 <= i <= self.enums@.len(),
                forall|j: int| 0 <= j < i ==> !#[trigger] p(j),
                p == (|i: int| self.enums@[i].name@ == name@),
            decreases self.enums@.len() - i,
        {
            if crate::text::same_text(self.enums[i].name.as_str(), name) {
                proof {
                    lemma_first_index_unique(self.enums@.len() as int, p, i as int);
                }
                return Some(&self.enums[i]);
            }
            i = i + 1;
        }
        proof {
            lemma_first_index_unique(self.enums@.len() as int, p, i as int);
        }
        None
    }
}

} // verus!
