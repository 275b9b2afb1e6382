//! Thin trusted wrappers around the `fastrand` random-number generator.
//!
//! Every stochastic draw of the simulation goes through one of these
//! functions, so the rest of the crate is verified for every value the
//! generator can return.

use vstd::prelude::*;

verus! {

/// Declares `fastrand::Rng` so that an opaque generator value can cross
/// the signatures of verified functions.
#[verifier::external_type_specification]
#[verifier::external_body]
pub struct ExRng(fastrand::Rng);

/// Relies on `fastrand::Rng::u32`: a draw from the inclusive range
/// `0..=bound`, which is never empty, so the call cannot panic.
#[verifier::external_body]
pub(crate) fn rand_u32_inclusive(rng: &fastrand::Rng, bound: u32) -> (r: u32)
    ensures
        r <= bound,
{
    rng.u32(0..=bound)
}

/// Relies on `fastrand::Rng::u8`: a draw from the inclusive range
/// `lo..=hi`, which is non-empty whenever `lo <= hi`, so the call cannot
/// panic.
#[verifier::external_body]
pub(crate) fn rand_u8_between(rng: &fastrand::Rng, lo: u8, hi: u8) -> (r: u8)
    requires
        lo <= hi,
    ensures
        lo <= r && r <= hi,
{
    rng.u8(lo..=hi)
}

/// Relies on `fastrand::Rng::bool`: a draw of one random bit.
#[verifier::external_body]
pub(crate) fn rand_bool(rng: &fastrand::Rng) -> bool {
    rng.bool()
}

} // verus!
