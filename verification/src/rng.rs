//! The library's single source of randomness.

use vstd::prelude::*;
use rand::Rng;

verus! {

/// Relies on `rand::Rng::random_range` over the thread-local generator:
/// it returns a value drawn from `0..n`, and panics only when the range
/// is empty, which the precondition rules out. Two calls on the same
/// bound may of course return different values; callers get only the
/// range.
#[verifier::external_body]
pub(crate) fn random_below(n: i8) -> (r: i8)
    requires
        0 < n,
    ensures
        0 <= r < n,
{
    rand::rng().random_range(0..n)
}

} // verus!
