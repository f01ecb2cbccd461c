//! The one way in which building an identifier can fail.

use vstd::prelude::*;

verus! {

/// What went wrong.
#[derive(Clone, Copy, Debug, PartialEq, Eq, Structural)]
pub enum ErrorKind {
    /// A byte slice did not hold exactly sixteen bytes; `len` is the number it held.
    ByteLength { len: usize },
}

/// The error of the constructors that take a byte slice.
#[derive(Clone, Copy, Debug, PartialEq, Eq, Structural)]
pub struct Error(pub ErrorKind);

impl Error {
    /// The error for a slice of `len` bytes.
    pub open spec fn byte_length(len: usize) -> Error {
        Error(ErrorKind::ByteLength { len })
    }

    /// What went wrong.
    pub fn kind(&self) -> (k: ErrorKind)
        ensures
            k == self.0,
    {
        self.0
    }
}

} // verus!
