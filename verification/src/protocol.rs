//! What a construction asks of the platform, and what the platform answers.

use crate::error::SystemError;
use vstd::prelude::*;

verus! {

/// A run of addresses: `bytes` bytes from `address` on.
#[derive(Clone, Copy, Debug, PartialEq, Eq, Structural)]
pub struct Span {
    pub address: usize,
    pub bytes: usize,
}

/// One platform operation for the driver to perform.
#[derive(Clone, Copy, Debug, PartialEq, Eq, Structural)]
pub enum Action {
    /// Create an unnamed shared memory object. Where the platform sizes such
    /// objects at creation, give it `bytes` bytes. Completes with the handle.
    Create { bytes: usize },
    /// Create the shared memory object named by `object_name(stamp)`, and fail
    /// if that name is taken. Completes with the handle.
    CreateNamed { stamp: u16 },
    /// Remove the name `object_name(stamp)`; open handles stay valid.
    Unlink { stamp: u16 },
    /// Set the size of the object to `bytes` bytes.
    Resize { handle: usize, bytes: usize },
    /// Map the first `bytes` bytes of the object, shared and writable, where
    /// the platform sees fit. Completes with the address.
    MapAnywhere { handle: usize, bytes: usize },
    /// Map the first `bytes` bytes of the object, shared and writable, at
    /// exactly `address`.
    MapAt { handle: usize, address: usize, bytes: usize },
    /// Find `bytes` bytes of free address space and give them up again at
    /// once. Completes with their address.
    Reserve { bytes: usize },
    /// Unmap `bytes` bytes at `address`.
    Unmap { address: usize, bytes: usize },
    /// Close the handle.
    Close { handle: usize },
}

/// How a platform operation ended.
#[derive(Clone, Copy, Debug, PartialEq, Eq, Structural)]
pub enum Outcome {
    /// It succeeded. The value is the handle or the address that the
    /// operation produced, and zero for an operation that produces neither.
    Completed(usize),
    /// It failed because the name is taken.
    AlreadyExists(SystemError),
    /// It failed because the platform does not offer the operation.
    Unsupported(SystemError),
    /// It failed for another reason.
    Failed(SystemError),
}

impl Outcome {
    /// The platform error behind a failure.
    pub open spec fn fault(self) -> Option<SystemError> {
        match self {
            Outcome::Completed(_) => None,
            Outcome::AlreadyExists(e) => Some(e),
            Outcome::Unsupported(e) => Some(e),
            Outcome::Failed(e) => Some(e),
        }
    }

    /// The platform error behind a failure, and `None` for a success.
    pub fn error(&self) -> (r: Option<SystemError>)
        ensures
            r == self.fault(),
    {
        match self {
            Outcome::Completed(_) => None,
            Outcome::AlreadyExists(e) => Some(*e),
            Outcome::Unsupported(e) => Some(*e),
            Outcome::Failed(e) => Some(*e),
        }
    }
}

} // verus!
