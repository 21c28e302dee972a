//! What the validator needs of the parsed schema: where each model and each
//! field stands in the source text.

use crate::seqs::{first_index, lemma_first_index_unique};
use crate::text::same_text;
use vstd::prelude::*;

verus! {

/// A range of the source text, in bytes.
#[derive(Clone, Copy, Debug, PartialEq, Eq, Structural)]
pub struct Span {
    pub start: usize,
    pub end: usize,
}

/// A field as the parser saw it.
#[derive(Clone, Debug, PartialEq)]
pub struct Field {
    pub name: String,
    pub span: Span,
}

/// A model as the parser saw it.
#[derive(Clone, Debug, PartialEq)]
pub struct Model {
    pub name: String,
    pub span: Span,
    pub fields: Vec<Field>,
}

/// The parsed schema.
#[derive(Clone, Debug, PartialEq)]
pub struct SchemaAst {
    pub models: Vec<Model>,
}

impl Model {
    /// Position of the first field called `name`; the number of fields if there
    /// is none.
    pub open spec fn field_index(&self, name: Seq<char>) -> int {
        first_index(self.fields@.len() as int, |i: int| self.fields@[i].name@ == name)
    }

    /// Whether the model has a field called `name`.
    pub open spec fn has_field(&self, name: Seq<char>) -> bool {
        self.field_index(name) < self.fields@.len()
    }

    /// The first field called `name`.
    pub fn find_field(&self, name: &str) -> (r: Option<&Field>)
        ensures
            r is Some <==> self.has_field(name@),
            r matches Some(f) ==> *f == self.fields@[self.field_index(name@)],
    {
        let ghost p = |i: int| self.fields@[i].name@ == name@;
        let mut i: usize = 0;
        while i < self.fields.len()
            invariant
                0 <= i <= self.fields@.len(),
                forall|j: int| 0 <= j < i ==> !#[trigger] p(j),
                p == (|i: int| self.fields@[i].name@ == name@),
            decreases self.fields@.len() - i,
        {
            if same_text(self.fields[i].name.as_str(), name) {
                proof {
                    lemma_first_index_unique(self.fields@.len() as int, p, i as int);
                }
                return Some(&self.fields[i]);
            }
            i = i + 1;
        }
        proof {
            lemma_first_index_unique(self.fields@.len() as int, p, i as int);
        }
        None
    }
}

impl SchemaAst {
    /// Position of the first model called `name`; the number of models if there
    /// is none.
    pub open spec fn model_index(&self, name: Seq<char>) -> int {
        first_index(self.models@.len() as int, |i: int| self.models@[i].name@ == name)
    }

    /// Whether the schema has a model called `name`.
    pub open spec fn has_model(&self, name: Seq<char>) -> bool {
        self.model_index(name) < self.models@.len()
    }

    /// The first model called `name`.
    pub open spec fn model_named(&self, name: Seq<char>) -> Model {
        self.models@[self.model_index(name)]
    }

    /// Whether the model `model` is there and has a field `field`.
    pub open spec fn has_field(&self, model: Seq<char>, field: Seq<char>) -> bool {
        self.has_model(model) && self.model_named(model).has_field(field)
    }

    /// Where the model `name` stands.
    pub open spec fn model_span(&self, name: Seq<char>) -> Span {
        self.model_named(name).span
    }

    /// Where the field `field` of the model `model` stands.
    pub open spec fn field_span(&self, model: Seq<char>, field: Seq<char>) -> Span {
        let m = self.model_named(model);
        m.fields@[m.field_index(field)].span
    }

    /// The first model called `name`.
    pub fn find_model(&self, name: &str) -> (r: Option<&Model>)
        ensures
            r is Some <==> self.has_model(name@),
            r matches Some(m) ==> *m == self.model_named(name@),
    {
        let ghost p = |i: int| self.models@[i].name@ == name@;
        let mut i: usize = 0;
        while i < self.models.len()
            invariant
                0 <= i <= self.models@.len(),
                forall|j: int| 0 <= j < i ==> !#[trigger] p(j),
                p == (|i: int| self.models@[i].name@ == name@),
            decreases self.models@.len() - i,
        {
            if same_text(self.models[i].name.as_str(), name) {
                proof {
                    lemma_first_index_unique(self.models@.len() as int, p, i as int);
                }
                return Some(&self.models[i]);
            }
            i = i + 1;
        }
        proof {
            lemma_first_index_unique(self.models@.len() as int, p, i as int);
        }
        None
    }

    /// The first field called `field` of the first model called `model`.
    pub fn find_field(&self, model: &str, field: &str) -> (r: Option<&Field>)
        ensures
            r is Some <==> self.has_field(model@, field@),
            r matches Some(f) ==> f.span == self.field_span(model@, field@) && f.name@ == field@,
    {
        match self.find_model(model) {
            Some(m) => {
                let r = m.find_field(field);
                proof {
                    if r is Some {
                        let p = |i: int| m.fields@[i].name@ == field@;
                        crate::seqs::lemma_first_index(m.fields@.len() as int, p);
                    }
                }
                r
            },
            None => None,
        }
    }
}

} // verus!
