//! The errors of query execution. Each is told from the others by its kind.

use crate::values::PrismaValue;
use vstd::prelude::*;
use vstd::string::StringExecFns;

verus! {

/// What a record was looked for by.
#[derive(Clone, Debug, PartialEq)]
pub struct RecordFinderInfo {
    pub model: String,
    pub field: String,
    pub value: PrismaValue,
}

/// What can go wrong when a query is executed.
#[derive(Clone, Debug, PartialEq)]
pub enum SqlError {
    /// No row came back where one was asked for.
    RecordDoesNotExist,
    /// No record matches the finder.
    RecordNotFound { finder: RecordFinderInfo },
    /// The two records are not connected by the relation.
    RecordsNotConnected { relation: String, parent: String, child: String },
    /// An update sets a required column to null.
    FieldCannotBeNull { field: String },
    /// A connect or disconnect would break a required relation.
    RelationViolation { relation: String },
    /// A value could not be read as the expected type.
    ConversionError { from: String, to: String },
    /// The pool is exhausted, the driver failed, or the protocol was broken.
    ConnectionError { cause: String },
    /// What cannot happen did: a bug.
    InternalInvariant { message: String },
}

impl SqlError {
    /// Whether no record matched a finder.
    pub fn is_record_not_found(&self) -> (r: bool)
        ensures
            r == (self is RecordNotFound),
    {
        match self {
            SqlError::RecordNotFound { .. } => true,
            _ => false,
        }
    }

    /// Whether two records turned out not to be connected.
    pub fn is_records_not_connected(&self) -> (r: bool)
        ensures
            r == (self is RecordsNotConnected),
    {
        match self {
            SqlError::RecordsNotConnected { .. } => true,
            _ => false,
        }
    }

    /// Whether this is a bug report with the given text.
    pub open spec fn is_internal(&self, message: Seq<char>) -> bool {
        self matches SqlError::InternalInvariant { message: m } && m@ == message
    }

    /// A bug report with the given text.
    pub fn internal(message: &str) -> (r: SqlError)
        ensures
            r.is_internal(message@),
    {
        SqlError::InternalInvariant { message: String::from_str(message) }
    }
}

} // verus!
