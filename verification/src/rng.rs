//! Trusted wrappers around the process-wide random source.
//!
//! Each wrapper makes one call into the `rand` crate. Nothing is assumed
//! about which value comes back beyond the range that `rand` documents:
//! the verified generation logic holds for every outcome.

use rand::Rng;
use vstd::prelude::*;

verus! {

/// Holds for the bytes that `rand::distributions::Alphanumeric` samples:
/// ASCII lowercase letters, uppercase letters and digits.
pub open spec fn is_alphanumeric_byte(b: u8) -> bool {
    (97 <= b <= 122) || (65 <= b <= 90) || (48 <= b <= 57)
}

/// Relies on rand::random::<bool>: the standard distribution on `bool`
/// draws `true` and `false` each with probability one half. Nothing can be
/// promised of a single draw.
#[verifier::external_body]
pub(crate) fn coin_flip() -> bool {
    rand::random::<bool>()
}

/// Relies on rand::Rng::gen_range on the thread-local generator: for a
/// non-empty range `0..n` it returns a value of that range. An empty range
/// panics, which the precondition rules out.
#[verifier::external_body]
pub(crate) fn random_index(n: usize) -> (r: usize)
    requires
        n >= 1,
    ensures
        r < n,
{
    rand::thread_rng().gen_range(0..n)
}

/// Relies on rand::Rng::sample with rand::distributions::Alphanumeric on
/// the thread-local generator: it returns a uniformly drawn byte from
/// `a-z`, `A-Z`, `0-9`.
#[verifier::external_body]
pub(crate) fn random_alphanumeric_byte() -> (r: u8)
    ensures
        is_alphanumeric_byte(r),
{
    rand::thread_rng().sample(rand::distributions::Alphanumeric)
}

/// Relies on String::from_utf8: ASCII bytes are valid UTF-8, and each
/// ASCII byte decodes to the character with the same scalar value. The
/// precondition keeps every byte in the ASCII range, so the error case
/// cannot occur.
#[verifier::external_body]
pub(crate) fn string_from_ascii(bytes: Vec<u8>) -> (r: String)
    requires
        forall|j: int| 0 <= j < bytes@.len() ==> bytes@[j] < 128,
    ensures
        r@.len() == bytes@.len(),
        forall|j: int| 0 <= j < bytes@.len() ==> r@[j] == bytes@[j] as char,
{
    String::from_utf8(bytes).unwrap_or_default()
}

} // verus!
