//! Errors the assembly reports to its caller. A cross-family discovery update
//! is not among them: it is recovered locally by keeping the last published
//! routes, and a failed or timed-out protocol detection falls back to the
//! opaque stack.

use vstd::prelude::*;

verus! {

/// Why a target or sub-stack could not be built.
#[derive(Clone, Copy, PartialEq, Eq, Structural, Hash, Debug)]
pub enum SidecarError {
    /// The required client policy could not be fetched for the target.
    DiscoveryUnavailable,
    /// The initial snapshot's route projection returned nothing, so the
    /// sub-stack has no routes to start from.
    InitialRoutesInvalid,
    /// The routes in force name no backend to balance over.
    BackendUnavailable,
}

impl SidecarError {
    /// A short description of the error.
    pub fn message(&self) -> (r: &'static str)
        ensures
            *self is DiscoveryUnavailable ==> r@ =~= "client policy could not be fetched"@,
            *self is InitialRoutesInvalid ==> r@ =~= "initial routes are invalid for this sub-stack"@,
            *self is BackendUnavailable ==> r@ =~= "no backend is available"@,
    {
        match self {
            SidecarError::DiscoveryUnavailable => "client policy could not be fetched",
            SidecarError::InitialRoutesInvalid => "initial routes are invalid for this sub-stack",
            SidecarError::BackendUnavailable => "no backend is available",
        }
    }
}

} // verus!
