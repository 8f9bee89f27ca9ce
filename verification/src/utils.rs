//! What several modules share.

use vstd::prelude::*;

verus! {

/// The combination of two hashes:
/// `lhs ^ (rhs + 0x9e3779b9 + (lhs << 6) + (lhs >> 2))`, where every sum
/// wraps around at 64 bits.
pub open spec fn spec_hash_combine(lhs: u64, rhs: u64) -> u64 {
    lhs ^ rhs.wrapping_add(0x9e3779b9).wrapping_add(lhs << 6).wrapping_add(lhs >> 2)
}

/// Calls `rg3d_core::hash_combine`.
///
/// Trusted: the body is not verified. The contract restates the one
/// expression that the function consists of.
#[verifier::external_body]
pub(crate) fn hash_combine(lhs: u64, rhs: u64) -> (combined: u64)
    ensures
        combined == spec_hash_combine(lhs, rhs),
{
    rg3d_core::hash_combine(lhs, rhs)
}

} // verus!
