//! Fresh identifier generation.

use vstd::prelude::*;

verus! {

/// Relies on uuid::Uuid::now_v7 for a fresh 128-bit identifier. The value
/// depends on the clock and on randomness, so nothing is promised of it;
/// every store operation that takes an identifier checks it for collisions.
#[verifier::external_body]
pub fn fresh_raw_id() -> u128 {
    uuid::Uuid::now_v7().as_u128()
}

} // verus!
