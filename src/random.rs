//! The source of random bytes for `CXNN`.
use vstd::prelude::*;

verus! {

/// Relies on `rand::random::<u8>`, which draws from the thread-local
/// generator: a byte drawn uniformly and independently of earlier draws.
/// Nothing is assumed of its value.
#[verifier::external_body]
pub(crate) fn random_byte() -> u8 {
    rand::random::<u8>()
}

} // verus!
