//! Failures of a construction.

use vstd::prelude::*;

verus! {

/// A failed platform operation, identified by the platform's error code.
#[derive(Clone, Copy, Debug, PartialEq, Eq, Structural)]
pub struct SystemError {
    pub code: i32,
}

impl SystemError {
    /// Wraps a platform error code.
    pub fn new(code: i32) -> (e: SystemError)
        ensures
            e == (SystemError { code }),
    {
        SystemError { code }
    }

    /// The platform error code.
    pub fn code(&self) -> (c: i32)
        ensures
            c == self.code,
    {
        self.code
    }
}

/// Why a mirrored allocation could not be constructed.
#[derive(Clone, Copy, Debug, PartialEq, Eq, Structural)]
pub enum Error {
    /// The byte size of the mirrored span does not fit the address width.
    Overflow,
    /// A platform operation failed.
    System(SystemError),
    /// Every candidate name for the backing object was already taken.
    NameCollision,
    /// Every candidate address range was claimed by someone else before both
    /// views could be placed.
    RaceExceeded,
}

} // verus!
