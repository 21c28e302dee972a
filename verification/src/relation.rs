//! Relations between two models and the way each is stored.

use crate::datamodel::{Datamodel, Field, FieldArity, FieldType, Model};
use crate::seqs::{first_index, lemma_first_index_unique};
use crate::text::{concat3, same_text};
use vstd::prelude::*;
use vstd::string::StringExecFns;

verus! {

/// What happens to one side of a relation when the record on the other side
/// is deleted.
#[derive(Clone, Copy, Debug, PartialEq, Eq, Structural)]
pub enum OnDelete {
    SetNull,
    Cascade,
}

impl OnDelete {
    /// Whether the deletion goes on to the other side.
    pub fn is_cascade(self) -> (r: bool)
        ensures
            r == (self == OnDelete::Cascade),
    {
        match self {
            OnDelete::Cascade => true,
            OnDelete::SetNull => false,
        }
    }

    /// Whether the deletion empties what points at the record.
    pub fn is_set_null(self) -> (r: bool)
        ensures
            r == (self == OnDelete::SetNull),
    {
        match self {
            OnDelete::Cascade => false,
            OnDelete::SetNull => true,
        }
    }
}

/// One of the two ends of a relation.
#[derive(Clone, Copy, Debug, PartialEq, Eq, Structural)]
pub enum RelationSide {
    A,
    B,
}

impl RelationSide {
    /// The other side.
    pub open spec fn opposite_spec(self) -> RelationSide {
        match self {
            RelationSide::A => RelationSide::B,
            RelationSide::B => RelationSide::A,
        }
    }

    /// The other side.
    pub fn opposite(self) -> (r: RelationSide)
        ensures
            r == self.opposite_spec(),
    {
        match self {
            RelationSide::A => RelationSide::B,
            RelationSide::B => RelationSide::A,
        }
    }
}

/// A relation stored as a foreign-key column in the table of one of its models.
#[derive(Clone, Debug, PartialEq)]
pub struct InlineRelation {
    pub in_table_of_model_name: String,
    pub referencing_column: String,
}

/// A relation stored in a join table of its own.
#[derive(Clone, Debug, PartialEq)]
pub struct RelationTable {
    pub table: String,
    pub model_a_column: String,
    pub model_b_column: String,
    pub id_column: Option<String>,
}

/// How a relation is stored.
#[derive(Clone, Debug, PartialEq)]
pub enum RelationLinkManifestation {
    Inline(InlineRelation),
    RelationTable(RelationTable),
}

/// How a relation is stored, with its names as texts.
pub enum ManifestationView {
    Inline { in_table_of_model_name: Seq<char>, referencing_column: Seq<char> },
    RelationTable {
        table: Seq<char>,
        model_a_column: Seq<char>,
        model_b_column: Seq<char>,
        id_column: Option<Seq<char>>,
    },
}

impl DeepView for RelationLinkManifestation {
    type V = ManifestationView;

    open spec fn deep_view(&self) -> ManifestationView {
        match self {
            RelationLinkManifestation::Inline(m) => ManifestationView::Inline {
                in_table_of_model_name: m.in_table_of_model_name@,
                referencing_column: m.referencing_column@,
            },
            RelationLinkManifestation::RelationTable(t) => ManifestationView::RelationTable {
                table: t.table@,
                model_a_column: t.model_a_column@,
                model_b_column: t.model_b_column@,
                id_column: t.id_column.deep_view(),
            },
        }
    }
}

/// A relation as it is stored with the data model.
#[derive(Clone, Debug, PartialEq)]
pub struct RelationTemplate {
    pub name: String,
    pub model_a_on_delete: OnDelete,
    pub model_b_on_delete: OnDelete,
    pub manifestation: Option<RelationLinkManifestation>,
    pub model_a_name: String,
    pub model_b_name: String,
}

/// A relation between two models: either a join table or a direct link
/// between two relation fields. It names its models; they and its fields
/// are looked up in the data model.
#[derive(Clone, Debug, PartialEq)]
pub struct Relation {
    pub name: String,
    pub model_a_name: String,
    pub model_b_name: String,
    pub model_a_on_delete: OnDelete,
    pub model_b_on_delete: OnDelete,
    pub manifestation: Option<RelationLinkManifestation>,
}

/// A model was asked for that the relation does not connect.
#[derive(Clone, Debug, PartialEq)]
pub enum DomainError {
    ModelForRelationNotFound { model_id: String, relation: String },
}

impl RelationTemplate {
    /// The relation of the template.
    pub fn build(self) -> (r: Relation)
        ensures
            r.name == self.name,
            r.manifestation == self.manifestation,
            r.model_a_name == self.model_a_name,
            r.model_b_name == self.model_b_name,
            r.model_a_on_delete == self.model_a_on_delete,
            r.model_b_on_delete == self.model_b_on_delete,
    {
        Relation {
            name: self.name,
            manifestation: self.manifestation,
            model_a_name: self.model_a_name,
            model_b_name: self.model_b_name,
            model_a_on_delete: self.model_a_on_delete,
            model_b_on_delete: self.model_b_on_delete,
        }
    }
}

impl Relation {
    /// The name of the column of model A in a join table.
    pub fn model_a_default_column() -> (r: &'static str)
        ensures
            r@ == "A"@,
    {
        "A"
    }

    /// The name of the column of model B in a join table.
    pub fn model_b_default_column() -> (r: &'static str)
        ensures
            r@ == "B"@,
    {
        "B"
    }

    /// The alias of the join table in a select.
    pub fn table_alias() -> (r: &'static str)
        ensures
            r@ == "RelationTable"@,
    {
        "RelationTable"
    }

    /// Whether the relation is a link between two relation fields.
    pub fn is_inline_relation(&self) -> (r: bool)
        ensures
            r == (self.manifestation matches Some(RelationLinkManifestation::Inline(_))),
    {
        match &self.manifestation {
            Some(RelationLinkManifestation::Inline(_)) => true,
            _ => false,
        }
    }

    /// Whether the relation is a table that links two models.
    pub fn is_relation_table(&self) -> (r: bool)
        ensures
            r == !(self.manifestation matches Some(RelationLinkManifestation::Inline(_))),
    {
        !self.is_inline_relation()
    }

    /// Whether the relation relates a model to itself.
    pub fn is_self_relation(&self) -> (r: bool)
        ensures
            r == (self.model_a_name@ == self.model_b_name@),
    {
        same_text(self.model_a_name.as_str(), self.model_b_name.as_str())
    }

    /// The first model of the relation.
    pub fn model_a<'a>(&self, dm: &'a Datamodel) -> (r: Option<&'a Model>)
        ensures
            r is Some <==> dm.has_model(self.model_a_name@),
            r matches Some(m) ==> *m == dm.model_named(self.model_a_name@),
    {
        dm.find_model(self.model_a_name.as_str())
    }

    /// The second model of the relation.
    pub fn model_b<'a>(&self, dm: &'a Datamodel) -> (r: Option<&'a Model>)
        ensures
            r is Some <==> dm.has_model(self.model_b_name@),
            r matches Some(m) ==> *m == dm.model_named(self.model_b_name@),
    {
        dm.find_model(self.model_b_name.as_str())
    }

    /// The name that a relation between the two models has when none is
    /// given.
    pub open spec fn default_name(&self) -> Seq<char> {
        self.model_a_name@ + "To"@ + self.model_b_name@
    }

    /// Whether a field belongs to this relation as a field that points at
    /// the model `other`: it is a relation field to that model, under the
    /// name of the relation or, where the relation has the default name,
    /// under none.
    pub open spec fn has_field(&self, f: &Field, other: Seq<char>) -> bool {
        &&& f.field_type matches FieldType::Relation(info)
        &&& info.to@ == other
        &&& info.name@ == self.name@ || (info.name@.len() == 0 && self.name@ == self.default_name())
    }

    /// Position of the field of the relation in model A: the first field
    /// of that model that belongs to the relation and points at model B.
    pub open spec fn field_a_index(&self, dm: &Datamodel) -> int {
        let m = dm.model_named(self.model_a_name@);
        first_index(m.fields@.len() as int, |i: int| self.has_field(&m.fields@[i], self.model_b_name@))
    }

    /// Position of the field of the relation in model B: the first field
    /// of that model that belongs to the relation and points at model A;
    /// where the relation relates a model to itself, the first such field
    /// apart from the field of side A.
    pub open spec fn field_b_index(&self, dm: &Datamodel) -> int {
        let m = dm.model_named(self.model_b_name@);
        first_index(
            m.fields@.len() as int,
            |i: int|
                self.has_field(&m.fields@[i], self.model_a_name@) && !(self.model_a_name@
                    == self.model_b_name@ && i == self.field_a_index(dm)),
        )
    }

    /// Whether both models and both fields of the relation are in the
    /// data model.
    pub open spec fn resolves(&self, dm: &Datamodel) -> bool {
        &&& dm.has_model(self.model_a_name@)
        &&& dm.has_model(self.model_b_name@)
        &&& self.field_a_index(dm) < dm.model_named(self.model_a_name@).fields@.len()
        &&& self.field_b_index(dm) < dm.model_named(self.model_b_name@).fields@.len()
    }

    /// The relation field in the first model of the relation.
    pub open spec fn field_a_spec(&self, dm: &Datamodel) -> Field {
        dm.model_named(self.model_a_name@).fields@[self.field_a_index(dm)]
    }

    /// The relation field in the second model of the relation.
    pub open spec fn field_b_spec(&self, dm: &Datamodel) -> Field {
        dm.model_named(self.model_b_name@).fields@[self.field_b_index(dm)]
    }

    fn owns(&self, f: &Field, other: &str) -> (r: bool)
        ensures
            r == self.has_field(f, other@),
    {
        match &f.field_type {
            FieldType::Relation(info) => {
                if !same_text(info.to.as_str(), other) {
                    false
                } else if same_text(info.name.as_str(), self.name.as_str()) {
                    true
                } else if info.name.as_str().unicode_len() == 0 {
                    let default = concat3(
                        self.model_a_name.as_str(),
                        "To",
                        self.model_b_name.as_str(),
                    );
                    same_text(self.name.as_str(), default.as_str())
                } else {
                    false
                }
            },
            _ => false,
        }
    }

    fn field_a_position(&self, m: &Model) -> (r: Option<usize>)
        ensures
            match r {
                Some(i) => i < m.fields@.len() && i == first_index(
                    m.fields@.len() as int,
                    |i: int| self.has_field(&m.fields@[i], self.model_b_name@),
                ),
                None => m.fields@.len() == first_index(
                    m.fields@.len() as int,
                    |i: int| self.has_field(&m.fields@[i], self.model_b_name@),
                ),
            },
    {
        let ghost p = |i: int| self.has_field(&m.fields@[i], self.model_b_name@);
        let mut i: usize = 0;
        while i < m.fields.len()
            invariant
                0 <= i <= m.fields@.len(),
                p == (|i: int| self.has_field(&m.fields@[i], self.model_b_name@)),
                forall|j: int| 0 <= j < i ==> !#[trigger] p(j),
            decreases m.fields@.len() - i,
        {
            if self.owns(&m.fields[i], self.model_b_name.as_str()) {
                proof {
                    lemma_first_index_unique(m.fields@.len() as int, p, i as int);
                }
                return Some(i);
            }
            i = i + 1;
        }
        proof {
            lemma_first_index_unique(m.fields@.len() as int, p, i as int);
        }
        None
    }

    /// The relation field in the first model of the relation.
    pub fn field_a<'a>(&self, dm: &'a Datamodel) -> (r: Option<&'a Field>)
        ensures
            r is Some <==> dm.has_model(self.model_a_name@) && self.field_a_index(dm)
                < dm.model_named(self.model_a_name@).fields@.len(),
            r matches Some(f) ==> *f == self.field_a_spec(dm),
    {
        match dm.find_model(self.model_a_name.as_str()) {
            Some(m) => match self.field_a_position(m) {
                Some(i) => Some(&m.fields[i]),
                None => None,
            },
            None => None,
        }
    }

    /// The relation field in the second model of the relation.
    pub fn field_b<'a>(&self, dm: &'a Datamodel) -> (r: Option<&'a Field>)
        ensures
            r is Some <==> dm.has_model(self.model_b_name@) && self.field_b_index(dm)
                < dm.model_named(self.model_b_name@).fields@.len(),
            r matches Some(f) ==> *f == self.field_b_spec(dm),
    {
        let m = match dm.find_model(self.model_b_name.as_str()) {
            Some(m) => m,
            None => {
                return None;
            },
        };
        let is_self = self.is_self_relation();
        let a: Option<usize> = if is_self {
            self.field_a_position(m)
        } else {
            None
        };
        let ghost p = |i: int|
            self.has_field(&m.fields@[i], self.model_a_name@) && !(self.model_a_name@
                == self.model_b_name@ && i == self.field_a_index(dm));
        let mut i: usize = 0;
        while i < m.fields.len()
            invariant
                0 <= i <= m.fields@.len(),
                dm.has_model(self.model_b_name@),
                *m == dm.model_named(self.model_b_name@),
                is_self == (self.model_a_name@ == self.model_b_name@),
                is_self ==> match a {
                    Some(x) => x == self.field_a_index(dm),
                    None => self.field_a_index(dm) == m.fields@.len(),
                },
                p == (|i: int|
                    self.has_field(&m.fields@[i], self.model_a_name@) && !(self.model_a_name@
                        == self.model_b_name@ && i == self.field_a_index(dm))),
                forall|j: int| 0 <= j < i ==> !#[trigger] p(j),
            decreases m.fields@.len() - i,
        {
            let taken = match a {
                Some(x) => is_self && x == i,
                None => false,
            };
            if self.owns(&m.fields[i], self.model_a_name.as_str()) && !taken {
                proof {
                    lemma_first_index_unique(m.fields@.len() as int, p, i as int);
                }
                return Some(&m.fields[i]);
            }
            i = i + 1;
        }
        proof {
            lemma_first_index_unique(m.fields@.len() as int, p, i as int);
        }
        None
    }

    /// Whether both fields of the relation are lists.
    pub fn is_many_to_many(&self, dm: &Datamodel) -> (r: bool)
        requires
            self.resolves(dm),
        ensures
            r == (self.field_a_spec(dm).arity == FieldArity::List && self.field_b_spec(dm).arity
                == FieldArity::List),
    {
        let a = match self.field_a(dm) {
            Some(f) => f,
            None => vstd::pervasive::unreached(),
        };
        let b = match self.field_b(dm) {
            Some(f) => f,
            None => vstd::pervasive::unreached(),
        };
        a.is_list() && b.is_list()
    }

    /// Whether neither field of the relation is a list.
    pub fn is_one_to_one(&self, dm: &Datamodel) -> (r: bool)
        requires
            self.resolves(dm),
        ensures
            r == (self.field_a_spec(dm).arity != FieldArity::List && self.field_b_spec(dm).arity
                != FieldArity::List),
    {
        let a = match self.field_a(dm) {
            Some(f) => f,
            None => vstd::pervasive::unreached(),
        };
        let b = match self.field_b(dm) {
            Some(f) => f,
            None => vstd::pervasive::unreached(),
        };
        !a.is_list() && !b.is_list()
    }

    /// Whether exactly one field of the relation is a list.
    pub fn is_one_to_many(&self, dm: &Datamodel) -> (r: bool)
        requires
            self.resolves(dm),
        ensures
            r == ((self.field_a_spec(dm).arity == FieldArity::List) != (self.field_b_spec(
                dm,
            ).arity == FieldArity::List)),
    {
        !self.is_many_to_many(dm) && !self.is_one_to_one(dm)
    }

    /// Whether the join table has a column for an id besides the two of
    /// the models: where nothing is known of how the relation is stored,
    /// or it is a table with an id column.
    pub fn relation_table_has_3_columns(&self) -> (r: bool)
        ensures
            r == match self.manifestation {
                None => true,
                Some(RelationLinkManifestation::RelationTable(m)) => m.id_column is Some,
                Some(RelationLinkManifestation::Inline(_)) => false,
            },
    {
        match &self.manifestation {
            None => true,
            Some(RelationLinkManifestation::RelationTable(m)) => m.id_column.is_some(),
            _ => false,
        }
    }

    /// Whether the relation connects the model called `model`.
    pub fn contains_the_model(&self, model: &str) -> (r: bool)
        ensures
            r == (self.model_a_name@ == model@ || self.model_b_name@ == model@),
    {
        same_text(self.model_a_name.as_str(), model) || same_text(self.model_b_name.as_str(), model)
    }

    /// The field of the relation on the model called `model_id`: that of
    /// side A for model A, else that of side B for model B; a failure for
    /// any other model.
    pub fn get_field_on_model<'a>(&self, model_id: &str, dm: &'a Datamodel) -> (r: Result<
        &'a Field,
        DomainError,
    >)
        requires
            self.resolves(dm),
        ensures
            model_id@ == self.model_a_name@ ==> r == Ok::<&Field, DomainError>(
                &self.field_a_spec(dm),
            ),
            model_id@ != self.model_a_name@ && model_id@ == self.model_b_name@ ==> r == Ok::<
                &Field,
                DomainError,
            >(&self.field_b_spec(dm)),
            model_id@ != self.model_a_name@ && model_id@ != self.model_b_name@ ==> (
            r matches Err(DomainError::ModelForRelationNotFound { model_id: m, relation })
                && m@ == model_id@ && relation == self.name),
    {
        if same_text(model_id, self.model_a_name.as_str()) {
            match self.field_a(dm) {
                Some(f) => Ok(f),
                None => vstd::pervasive::unreached(),
            }
        } else if same_text(model_id, self.model_b_name.as_str()) {
            match self.field_b(dm) {
                Some(f) => Ok(f),
                None => vstd::pervasive::unreached(),
            }
        } else {
            Err(
                DomainError::ModelForRelationNotFound {
                    model_id: String::from_str(model_id),
                    relation: self.name.clone(),
                },
            )
        }
    }

    /// How the relation is kept in a column, where it is.
    pub fn inline_manifestation(&self) -> (r: Option<&InlineRelation>)
        ensures
            match self.manifestation {
                Some(RelationLinkManifestation::Inline(m)) => r == Some(&m),
                _ => r is None,
            },
    {
        match &self.manifestation {
            Some(RelationLinkManifestation::Inline(m)) => Some(m),
            _ => None,
        }
    }
}

} // verus!
