//! The error taxonomy of the library.
//!
//! Every fallible operation reports one of four kinds: a validation
//! failure (detected before any mutation), a missing entity, a stored-data
//! integrity violation, or a connectivity failure of the storage layer.
//! The kind is what contracts speak about; the message carries context for
//! diagnosis.

use vstd::prelude::*;

verus! {

/// The four classes of failure the library distinguishes.
#[derive(Clone, Copy, Debug, PartialEq, Eq, Structural)]
pub enum ErrorKind {
    /// Invalid input, rejected before any mutation took place.
    Validation,
    /// A referenced entity does not exist.
    NotFound,
    /// Stored data violates the invariants the store is meant to keep.
    Integrity,
    /// The storage layer could not be reached or failed mid-operation.
    Connectivity,
}

/// An error of one of the four kinds, with a human-readable message.
#[derive(Clone, Debug)]
pub struct DataError {
    kind: ErrorKind,
    message: String,
}

impl DataError {
    /// Builds an error of the given kind carrying the given message.
    pub fn new(kind: ErrorKind, message: &str) -> (r: DataError)
        ensures
            r.spec_kind() == kind,
            r.spec_message() == message@,
    {
        DataError { kind, message: message.to_owned() }
    }

    /// Builds an error of the given kind, taking ownership of the message.
    pub fn from_string(kind: ErrorKind, message: String) -> (r: DataError)
        ensures
            r.spec_kind() == kind,
            r.spec_message() == message@,
    {
        DataError { kind, message }
    }

    /// Which of the four kinds this error is.
    pub fn kind(&self) -> (r: ErrorKind)
        ensures
            r == self.spec_kind(),
    {
        self.kind
    }

    /// The human-readable description of this error.
    pub fn message(&self) -> (r: &str)
        ensures
            r@ == self.spec_message(),
    {
        self.message.as_str()
    }

    /// The kind, as contracts see it.
    pub closed spec fn spec_kind(&self) -> ErrorKind {
        self.kind
    }

    /// The message, as contracts see it.
    pub closed spec fn spec_message(&self) -> Seq<char> {
        self.message@
    }
}

} // verus!
