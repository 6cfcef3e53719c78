//! Failures surfaced by the marshaling operations.

use vstd::prelude::*;

verus! {

/// Why a marshaling operation did not write into guest memory.
///
/// `Decoding` is recoverable: the host bytes were not valid text, and no
/// partial write occurred. `OutOfBounds` propagates the instance
/// collaborator's report that a guest offset does not resolve within the
/// memory's currently allocated bounds; again nothing was written.
#[derive(Clone, Copy, Debug, PartialEq, Eq, Structural)]
pub enum MarshalError {
    Decoding,
    OutOfBounds,
}

} // verus!
