//! The random source: the thread-local generator of `rand`.

use rand::Rng;
use vstd::prelude::*;

verus! {

/// Whether `byte` is an ASCII letter or digit.
pub open spec fn is_alphanumeric(byte: u8) -> bool {
    ||| 0x30 <= byte <= 0x39
    ||| 0x41 <= byte <= 0x5a
    ||| 0x61 <= byte <= 0x7a
}

/// `rand::Rng::gen` on `rand::thread_rng()`, read as a `u32`: 32 random
/// bits, of which nothing is known.
#[verifier::external_body]
pub(crate) fn random_word() -> (word: u32) {
    rand::thread_rng().gen()
}

/// `rand::Rng::gen_range` on `rand::thread_rng()`, over the inclusive range
/// from `low` to `high`: the number drawn lies in that range. The call
/// panics on an empty range, which `requires` leaves out.
#[verifier::external_body]
pub(crate) fn uniform_between(low: u64, high: u64) -> (drawn: u64)
    requires
        low <= high,
    ensures
        low <= drawn <= high,
{
    rand::thread_rng().gen_range(low..=high)
}

/// `rand::Rng::sample` of `rand::distributions::Alphanumeric` on
/// `rand::thread_rng()`: the byte drawn is an ASCII letter or digit.
#[verifier::external_body]
pub(crate) fn alphanumeric_byte() -> (byte: u8)
    ensures
        is_alphanumeric(byte),
{
    rand::thread_rng().sample(rand::distributions::Alphanumeric)
}

} // verus!
