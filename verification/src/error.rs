//! What can go wrong when untrusted input is read.

use vstd::prelude::*;

verus! {

/// Why raw text is not a value of a validated type.
#[derive(Clone, Copy, Debug, PartialEq, Eq, Structural)]
pub enum ParseError {
    /// The text does not conform to the grammar of the type.
    InvalidGrammar,
}

/// Why a wire object is not an event of the kind asked for.
#[derive(Debug, Eq)]
pub enum ErrorKind {
    /// The `type` of the wire object is not the tag of the target kind.
    TypeMismatch,
    /// The target kind carries a state key and the wire object has none.
    MissingStateKey,
    /// The state key of the wire object is not text.
    InvalidStateKey,
    /// The content field of this name is not a value of its validated type.
    InvalidField(String, ParseError),
    /// The wire value is not an object, or lacks a field that every event has.
    MalformedEnvelope,
}

/// The mathematical content of an `ErrorKind`.
pub enum ErrorModel {
    TypeMismatch,
    MissingStateKey,
    InvalidStateKey,
    InvalidField(Seq<char>, ParseError),
    MalformedEnvelope,
}

impl PartialEq for ErrorKind {
    fn eq(&self, other: &Self) -> (equal: bool) {
        match (self, other) {
            (ErrorKind::TypeMismatch, ErrorKind::TypeMismatch) => true,
            (ErrorKind::MissingStateKey, ErrorKind::MissingStateKey) => true,
            (ErrorKind::InvalidStateKey, ErrorKind::InvalidStateKey) => true,
            (ErrorKind::InvalidField(name, cause), ErrorKind::InvalidField(other_name, other_cause)) => {
                *name == *other_name && *cause == *other_cause
            },
            (ErrorKind::MalformedEnvelope, ErrorKind::MalformedEnvelope) => true,
            _ => false,
        }
    }
}

impl vstd::std_specs::cmp::PartialEqSpecImpl for ErrorKind {
    open spec fn obeys_eq_spec() -> bool {
        true
    }

    open spec fn eq_spec(&self, other: &Self) -> bool {
        self@ == other@
    }
}

impl Clone for ErrorKind {
    fn clone(&self) -> (copy: Self)
        ensures
            copy@ == self@,
    {
        match self {
            ErrorKind::TypeMismatch => ErrorKind::TypeMismatch,
            ErrorKind::MissingStateKey => ErrorKind::MissingStateKey,
            ErrorKind::InvalidStateKey => ErrorKind::InvalidStateKey,
            ErrorKind::InvalidField(name, cause) => ErrorKind::InvalidField(name.clone(), *cause),
            ErrorKind::MalformedEnvelope => ErrorKind::MalformedEnvelope,
        }
    }
}

impl View for ErrorKind {
    type V = ErrorModel;

    open spec fn view(&self) -> ErrorModel {
        match self {
            ErrorKind::TypeMismatch => ErrorModel::TypeMismatch,
            ErrorKind::MissingStateKey => ErrorModel::MissingStateKey,
            ErrorKind::InvalidStateKey => ErrorModel::InvalidStateKey,
            ErrorKind::InvalidField(name, cause) => ErrorModel::InvalidField(name@, *cause),
            ErrorKind::MalformedEnvelope => ErrorModel::MalformedEnvelope,
        }
    }
}

} // verus!
