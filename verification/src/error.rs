//! The error taxonomy of the appliance.

use vstd::prelude::*;

verus! {

/// What can go wrong outside steady-state rendering. A failure to
/// start a required task is fatal at boot; a notice that cannot be
/// applied is defensive only and unreachable in correct operation.
/// Malformed display payloads are not errors: the render path
/// substitutes a placeholder instead of failing.
#[derive(Clone, Copy, Debug, PartialEq, Eq, Structural)]
pub enum Error {
    /// A required concurrent task could not be started at boot.
    TaskSpawn,
    /// An internal invariant could not be satisfied when applying a
    /// notice.
    SetStateError,
}

impl Error {
    /// A short description of the error.
    pub fn message(&self) -> (r: &'static str)
        ensures
            *self is TaskSpawn ==> r@ == "could not start a required task"@,
            *self is SetStateError ==> r@ == "error setting state"@,
    {
        match self {
            Error::TaskSpawn => "could not start a required task",
            Error::SetStateError => "error setting state",
        }
    }
}

} // verus!
