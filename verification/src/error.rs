//! The errors that a slab reports.

use std::collections::TryReserveError;
use vstd::prelude::*;
use vstd::std_specs::convert::FromSpecImpl;

verus! {

/// Why an operation on a slab was refused. A refused operation leaves the
/// slab as it was.
#[derive(Clone, Copy, Debug, PartialEq, Eq, Structural)]
pub enum SlabError {
    /// The host could not provide the storage that was asked for.
    AllocationFailure,
    /// An offset at or beyond the number of occupied slots was given.
    OutOfBounds,
}

impl SlabError {
    /// A short description of the error, for messages.
    pub fn message(&self) -> (text: &'static str)
        ensures
            text == match *self {
                SlabError::AllocationFailure => "unable to allocate the requested capacity",
                SlabError::OutOfBounds => "offset out of bounds",
            },
    {
        match self {
            SlabError::AllocationFailure => "unable to allocate the requested capacity",
            SlabError::OutOfBounds => "offset out of bounds",
        }
    }
}

/// Whatever made a reservation fail, the slab reports it as an allocation
/// failure.
impl From<TryReserveError> for SlabError {
    fn from(_cause: TryReserveError) -> (error: SlabError) {
        SlabError::AllocationFailure
    }
}

impl FromSpecImpl<TryReserveError> for SlabError {
    open spec fn obeys_from_spec() -> bool {
        true
    }

    open spec fn from_spec(cause: TryReserveError) -> SlabError {
        SlabError::AllocationFailure
    }
}

} // verus!
