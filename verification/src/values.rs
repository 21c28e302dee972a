//! The values that records hold and that queries carry.

use crate::datamodel::Timestamp;
use crate::seqs::{first_index, lemma_first_index_unique};
use crate::text::same_text;
use vstd::prelude::*;

verus! {

/// The id of a record.
#[derive(Clone, Debug, PartialEq)]
pub enum GraphqlId {
    String(String),
    Int(i64),
}

impl GraphqlId {
    /// A copy of the id.
    pub fn duplicate(&self) -> (r: GraphqlId)
        ensures
            r == *self,
    {
        match self {
            GraphqlId::String(s) => GraphqlId::String(s.clone()),
            GraphqlId::Int(i) => GraphqlId::Int(*i),
        }
    }
}

/// A value of a scalar field. Floating-point numbers are held as their
/// decimal text.
#[derive(Clone, Debug, PartialEq)]
pub enum PrismaValue {
    String(String),
    Float(String),
    Boolean(bool),
    DateTime(Timestamp),
    Enum(String),
    Int(i64),
    Null,
    GraphqlId(GraphqlId),
}

impl PrismaValue {
    /// Whether the value is null.
    pub fn is_null(&self) -> (r: bool)
        ensures
            r == (*self == PrismaValue::Null),
    {
        match self {
            PrismaValue::Null => true,
            _ => false,
        }
    }

    /// A copy of the value.
    pub fn duplicate(&self) -> (r: PrismaValue)
        ensures
            r == *self,
    {
        match self {
            PrismaValue::String(s) => PrismaValue::String(s.clone()),
            PrismaValue::Float(s) => PrismaValue::Float(s.clone()),
            PrismaValue::Boolean(b) => PrismaValue::Boolean(*b),
            PrismaValue::DateTime(t) => PrismaValue::DateTime(*t),
            PrismaValue::Enum(s) => PrismaValue::Enum(s.clone()),
            PrismaValue::Int(i) => PrismaValue::Int(*i),
            PrismaValue::Null => PrismaValue::Null,
            PrismaValue::GraphqlId(id) => PrismaValue::GraphqlId(id.duplicate()),
        }
    }

    /// The id that the value stands for: a string, an integer or an id.
    pub open spec fn as_id(&self) -> Option<GraphqlId> {
        match self {
            PrismaValue::String(s) => Some(GraphqlId::String(*s)),
            PrismaValue::Int(i) => Some(GraphqlId::Int(*i)),
            PrismaValue::GraphqlId(id) => Some(*id),
            _ => None,
        }
    }

    /// The id that the value stands for, where it stands for one.
    pub fn to_id(&self) -> (r: Option<GraphqlId>)
        ensures
            r == self.as_id(),
    {
        match self {
            PrismaValue::String(s) => Some(GraphqlId::String(s.clone())),
            PrismaValue::Int(i) => Some(GraphqlId::Int(*i)),
            PrismaValue::GraphqlId(id) => Some(id.duplicate()),
            _ => None,
        }
    }
}

/// The value of a list field: no value, or the list.
pub type PrismaListValue = Option<Vec<PrismaValue>>;

/// One argument of a write: a field's name and the value for it.
#[derive(Clone, Debug, PartialEq)]
pub struct Arg {
    pub name: String,
    pub value: PrismaValue,
}

/// The arguments of a write, by field name.
#[derive(Clone, Debug, PartialEq)]
pub struct PrismaArgs {
    pub args: Vec<Arg>,
}

impl PrismaArgs {
    /// No arguments.
    pub fn new() -> (r: PrismaArgs)
        ensures
            r.args@.len() == 0,
            r.wf(),
    {
        PrismaArgs { args: Vec::new() }
    }

    /// Position of the first argument for the field `name`; the number of
    /// arguments if there is none.
    pub open spec fn arg_index(&self, name: Seq<char>) -> int {
        first_index(self.args@.len() as int, |i: int| self.args@[i].name@ == name)
    }

    /// Whether there is an argument for the field `name`.
    pub open spec fn has_arg(&self, name: Seq<char>) -> bool {
        self.arg_index(name) < self.args@.len()
    }

    /// The value for the field `name`.
    pub open spec fn value_of(&self, name: Seq<char>) -> PrismaValue {
        self.args@[self.arg_index(name)].value
    }

    fn position(&self, name: &str) -> (r: Option<usize>)
        ensures
            r is Some <==> self.has_arg(name@),
            r matches Some(i) ==> i == self.arg_index(name@) && i < self.args@.len(),
    {
        let ghost p = |i: int| self.args@[i].name@ == name@;
        let mut i: usize = 0;
        while i < self.args.len()
            invariant
                0 <= i <= self.args@.len(),
                forall|j: int| 0 <= j < i ==> !#[trigger] p(j),
                p == (|i: int| self.args@[i].name@ == name@),
            decreases self.args@.len() - i,
        {
            if same_text(self.args[i].name.as_str(), name) {
                proof {
                    lemma_first_index_unique(self.args@.len() as int, p, i as int);
                }
                return Some(i);
            }
            i = i + 1;
        }
        proof {
            lemma_first_index_unique(self.args@.len() as int, p, i as int);
        }
        None
    }

    /// Whether there is an argument for the field `name`.
    pub fn has_arg_for(&self, name: &str) -> (r: bool)
        ensures
            r == self.has_arg(name@),
    {
        self.position(name).is_some()
    }

    /// The value for the field `name`.
    pub fn get_field_value(&self, name: &str) -> (r: Option<&PrismaValue>)
        ensures
            r is Some <==> self.has_arg(name@),
            r matches Some(v) ==> *v == self.value_of(name@),
    {
        match self.position(name) {
            Some(i) => Some(&self.args[i].value),
            None => None,
        }
    }

    /// Whether no field has two arguments.
    pub open spec fn wf(&self) -> bool {
        forall|i: int, j: int|
            0 <= i < j < self.args@.len() ==> (#[trigger] self.args@[i]).name@
                != (#[trigger] self.args@[j]).name@
    }

    /// Sets the argument for a field: in place of the argument that the
    /// field has, or at the end if it has none.
    pub fn insert(&mut self, name: String, value: PrismaValue)
        ensures
            old(self).has_arg(name@) ==> final(self).args@ == old(self).args@.update(
                old(self).arg_index(name@),
                Arg { name, value },
            ),
            !old(self).has_arg(name@) ==> final(self).args@ == old(self).args@.push(
                Arg { name, value },
            ),
            old(self).wf() ==> final(self).wf(),
    {
        match self.position(name.as_str()) {
            Some(i) => {
                proof {
                    crate::seqs::lemma_first_index(
                        self.args@.len() as int,
                        |k: int| self.args@[k].name@ == name@,
                    );
                }
                self.args.set(i, Arg { name, value });
            },
            None => {
                proof {
                    crate::seqs::lemma_first_index(
                        self.args@.len() as int,
                        |k: int| self.args@[k].name@ == name@,
                    );
                    assert forall|k: int| 0 <= k < self.args@.len() implies self.args@[k].name@
                        != name@ by {
                        let p = |k: int| self.args@[k].name@ == name@;
                        assert(!p(k));
                    }
                }
                self.args.push(Arg { name, value });
            },
        }
    }
}

/// A record: the names of its fields and a value for each.
#[derive(Clone, Debug, PartialEq)]
pub struct SingleRecord {
    pub field_names: Vec<String>,
    pub values: Vec<PrismaValue>,
}

} // verus!
