//! The errors of the type layer.

use vstd::prelude::*;

verus! {

/// What went wrong.
#[derive(Clone, Copy, Debug, PartialEq, Eq, Structural, Hash)]
pub enum ErrorKind {
    /// A registry lookup found nothing under the name.
    NotFound,
    /// A type with a native signature was offered to a registry.
    InvalidRegistration,
    /// A value's storage type is not the one that was expected.
    TypeMismatch,
    /// A decimal, a fixed-size binary or a fixed-size list is larger than its
    /// representation allows.
    ValueTooLarge,
    /// An extension point that a type does not provide.
    Unimplemented,
    /// A condition that the layers below were trusted to guarantee does not
    /// hold.
    InternalInvariantViolation,
}

/// An error, with the name or the kind of the entity that it is about.
#[derive(Clone, Debug, PartialEq, Eq)]
pub struct TypeError {
    pub kind: ErrorKind,
    pub entity: String,
}

/// The mathematical value of a [`TypeError`].
pub struct SpecError {
    pub kind: ErrorKind,
    pub entity: Seq<char>,
}

impl View for TypeError {
    type V = SpecError;

    open spec fn view(&self) -> SpecError {
        SpecError { kind: self.kind, entity: self.entity@ }
    }
}

/// The error of the given kind about the named entity.
pub open spec fn failure(kind: ErrorKind, entity: &str) -> SpecError {
    SpecError { kind, entity: entity@ }
}

impl TypeError {
    /// An error of the given kind about the named entity.
    pub fn new(kind: ErrorKind, entity: &str) -> (r: TypeError)
        ensures
            r.kind == kind,
            r.entity@ == entity@,
            r@ == failure(kind, entity),
    {
        TypeError { kind, entity: entity.to_owned() }
    }
}

} // verus!
