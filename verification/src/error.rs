//! What can go wrong.
use vstd::prelude::*;

verus! {

/// Why a graphics context did not allocate a surface.
#[derive(Debug, Clone, Copy, PartialEq, Eq, Structural)]
pub enum AllocationFailure {
    /// A side of the surface is zero or longer than the context supports.
    UnsupportedSize,
    /// The context has not enough memory left for the surface.
    OutOfMemory,
}

/// The errors of this library. There is one kind: nothing but the creation
/// of a surface can fail.
#[derive(Debug, Clone, Copy, PartialEq, Eq, Structural)]
pub enum Error {
    /// The graphics context could not allocate a surface.
    AllocationError(AllocationFailure),
}

} // verus!
