//! Identity minting for GPU-mirrored buffers.
//!
//! Every buffer carries an identity drawn from a monotonic counter. The
//! identity is the join key between a CPU-side buffer and the device-side
//! mirror owned by the renderer's cache, so no two buffers may ever share one.
//! The caller owns the counter and threads it through buffer construction.
use vstd::prelude::*;

verus! {

/// Draws the next identity from `counter` and advances it.
///
/// Identities are handed out strictly increasing, so a value returned once is
/// never returned again for the same counter.
pub fn generate_id(counter: &mut u64) -> (id: u64)
    requires
        *old(counter) < u64::MAX,
    ensures
        id == *old(counter),
        *final(counter) == *old(counter) + 1,
{
    let id = *counter;
    *counter = *counter + 1;
    id
}

} // verus!
