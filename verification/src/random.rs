//! The trusted boundary around the `fake` crate, which supplies the random
//! sample data the table is filled with. Each wrapper states only what
//! holds of every outcome of the call.

use vstd::prelude::*;
use fake::Fake;
use fake::Faker;

verus! {

/// Relies on fake's `Dummy<Faker>` impl for `String`: an alphanumeric
/// string whose character count is drawn from `5..20`.
#[verifier::external_body]
pub(crate) fn fake_string() -> (r: String)
    ensures
        5 <= r@.len() < 20,
{
    Faker.fake::<String>()
}

/// Relies on fake's `Dummy<core::ops::Range<i64>>` impl: a uniform sample
/// from `lo..hi`. The sampler panics on an empty range, so one is ruled out.
#[verifier::external_body]
pub(crate) fn fake_i64_in(lo: i64, hi: i64) -> (r: i64)
    requires
        lo < hi,
    ensures
        lo <= r < hi,
{
    (lo..hi).fake::<i64>()
}

/// Relies on fake's `Dummy<core::ops::Range<usize>>` impl: a uniform sample
/// from `lo..hi`. The sampler panics on an empty range, so one is ruled out.
#[verifier::external_body]
pub(crate) fn fake_usize_in(lo: usize, hi: usize) -> (r: usize)
    requires
        lo < hi,
    ensures
        lo <= r < hi,
{
    (lo..hi).fake::<usize>()
}

} // verus!
