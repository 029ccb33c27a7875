//! The random values that one request can consume.

use crate::event::RpcEvent;
use crate::probability::RESOLUTION;
use crate::random::{alphanumeric_byte, is_alphanumeric, random_word};
use vstd::prelude::*;

verus! {

/// The number of random bytes behind a fabricated signature.
pub const SEED_LENGTH: usize = 64;

/// The shortest delay of the event `Latency`, in seconds.
pub const LATENCY_MIN: u64 = 5;

/// The longest delay of the event `Latency`, in seconds.
pub const LATENCY_MAX: u64 = 10;

/// The shortest delay of the event `Timeout`, in seconds.
pub const TIMEOUT_MIN: u64 = 15;

/// The longest delay of the event `Timeout`, in seconds.
pub const TIMEOUT_MAX: u64 = 20;

/// The delay of the event `UnconfirmedSignature`, in seconds.
pub const UNCONFIRMED_DELAY: u64 = 5;

/// Whether `seed` can stand behind a fabricated signature: `SEED_LENGTH`
/// ASCII letters and digits.
pub open spec fn is_seed(seed: Seq<u8>) -> bool {
    &&& seed.len() == SEED_LENGTH
    &&& forall|i: int| 0 <= i < seed.len() ==> is_alphanumeric(#[trigger] seed[i])
}

/// The random values that the engine can consume on one request. A request
/// reads only those that its path needs.
#[derive(Debug)]
pub struct Draws {
    /// The draw from the unit interval that is held against the success rate
    /// of calls, in ticks.
    pub call: u32,
    /// The event picked where the call is diverted.
    pub event: RpcEvent,
    /// The draw from the unit interval that is held against the success rate
    /// of transactions, in ticks.
    pub transaction: u32,
    /// The delay of `Latency`, in seconds.
    pub latency: u64,
    /// The delay of `Timeout`, in seconds.
    pub timeout: u64,
    /// The bytes behind a fabricated signature.
    pub seed: Vec<u8>,
}

/// The model of [`Draws`].
pub struct DrawsView {
    pub call: nat,
    pub event: RpcEvent,
    pub transaction: nat,
    pub latency: u64,
    pub timeout: u64,
    pub seed: Seq<u8>,
}

impl View for Draws {
    type V = DrawsView;

    open spec fn view(&self) -> DrawsView {
        DrawsView {
            call: self.call as nat,
            event: self.event,
            transaction: self.transaction as nat,
            latency: self.latency,
            timeout: self.timeout,
            seed: self.seed@,
        }
    }
}

impl DrawsView {
    /// Whether every value lies in the range that it is drawn from.
    pub open spec fn wf(self) -> bool {
        &&& self.call < RESOLUTION
        &&& self.event.is_random()
        &&& self.transaction < RESOLUTION
        &&& LATENCY_MIN <= self.latency <= LATENCY_MAX
        &&& TIMEOUT_MIN <= self.timeout <= TIMEOUT_MAX
        &&& is_seed(self.seed)
    }

    /// Some values in range, to stand for draws that a request never makes.
    pub open spec fn unread() -> DrawsView {
        DrawsView {
            call: 0,
            event: RpcEvent::RateLimit,
            transaction: 0,
            latency: LATENCY_MIN,
            timeout: TIMEOUT_MIN,
            seed: Seq::new(SEED_LENGTH as nat, |i: int| 0x41u8),
        }
    }
}

/// Whether `byte` is an ASCII letter or digit.
pub fn is_alphanumeric_byte(byte: u8) -> (yes: bool)
    ensures
        yes == is_alphanumeric(byte),
{
    (0x30 <= byte && byte <= 0x39) || (0x41 <= byte && byte <= 0x5a) || (0x61 <= byte && byte
        <= 0x7a)
}

impl Draws {
    /// Whether every value lies in the range that it is drawn from.
    pub fn is_valid(&self) -> (valid: bool)
        ensures
            valid == self@.wf(),
    {
        if !(self.call < RESOLUTION && self.transaction < RESOLUTION) {
            return false;
        }
        match self.event {
            RpcEvent::Latency | RpcEvent::RateLimit | RpcEvent::Timeout => {},
            _ => {
                return false;
            },
        }
        if !(LATENCY_MIN <= self.latency && self.latency <= LATENCY_MAX) {
            return false;
        }
        if !(TIMEOUT_MIN <= self.timeout && self.timeout <= TIMEOUT_MAX) {
            return false;
        }
        if self.seed.len() != SEED_LENGTH {
            return false;
        }
        let mut i: usize = 0;
        while i < self.seed.len()
            invariant
                i <= self.seed.len(),
                forall|j: int| 0 <= j < i ==> is_alphanumeric(#[trigger] self.seed@[j]),
            decreases self.seed.len() - i,
        {
            if !is_alphanumeric_byte(self.seed[i]) {
                return false;
            }
            i += 1;
        }
        true
    }
}

/// Draws a point of the unit interval, in ticks: the upper 24 of 32 random
/// bits.
pub fn draw_unit() -> (ticks: u32)
    ensures
        ticks < RESOLUTION,
{
    unit_of_word(random_word())
}

/// Draws the bytes behind a fabricated signature.
pub fn draw_seed() -> (seed: Vec<u8>)
    ensures
        is_seed(seed@),
{
    let mut seed: Vec<u8> = Vec::new();
    while seed.len() < SEED_LENGTH
        invariant
            seed.len() <= SEED_LENGTH,
            forall|j: int| 0 <= j < seed.len() ==> is_alphanumeric(#[trigger] seed@[j]),
        decreases SEED_LENGTH - seed.len(),
    {
        seed.push(alphanumeric_byte());
    }
    seed
}

/// The point of the unit interval that 32 random bits stand for, in ticks:
/// their upper 24 bits, which is the word divided by 256.
pub fn unit_of_word(word: u32) -> (ticks: u32)
    ensures
        ticks == word / 256,
        ticks < RESOLUTION,
{
    assert(word >> 8 == word / 256 && word >> 8 < 16_777_216) by (bit_vector);
    word >> 8
}

} // verus!
