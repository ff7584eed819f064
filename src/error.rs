use vstd::prelude::*;

verus! {

/// The kind of an error reported by this crate.
#[derive(Clone, Copy, Debug, PartialEq, Eq, Structural, Hash)]
pub enum ErrorKind {
    /// A range set was asked for with no members or with more than 256.
    InvalidLength(usize),
    /// The members of a range set span more than 256 positions.
    InvalidRange,
    /// A range set member lies below the first valid counter, 1.
    InvalidValue,
    /// An integer did not fit the width it was narrowed to.
    TryFromInt,
    /// The system clock reads a moment before the Unix epoch.
    SystemTime,
}

/// The error type of this crate.
#[derive(Clone, Copy, Debug, PartialEq, Eq, Structural, Hash)]
pub struct Error {
    pub kind: ErrorKind,
}

impl Error {
    pub fn kind_ref(&self) -> (r: &ErrorKind)
        ensures
            *r == self.kind,
    {
        &self.kind
    }
}

impl From<ErrorKind> for Error {
    fn from(kind: ErrorKind) -> (r: Error)
        ensures
            r.kind == kind,
    {
        Error { kind }
    }
}

impl vstd::std_specs::convert::FromSpecImpl<ErrorKind> for Error {
    open spec fn obeys_from_spec() -> bool {
        true
    }

    open spec fn from_spec(kind: ErrorKind) -> Error {
        Error { kind }
    }
}

} // verus!
