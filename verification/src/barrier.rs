//! The fence between filling an entry and handing it to the engine.

use vstd::prelude::*;

verus! {

/// Keeps every write made so far ahead of every write that follows, as
/// another bus master sees them. The body is one call of
/// `std::sync::atomic::fence` with release ordering; the contract claims
/// nothing of it.
#[verifier::external_body]
pub(crate) fn write_barrier() {
    std::sync::atomic::fence(std::sync::atomic::Ordering::Release);
}

} // verus!
