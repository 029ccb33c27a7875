//! Probabilities on the grid of the random source.
//!
//! A draw from the unit interval is one of `RESOLUTION` equally likely points
//! `k / RESOLUTION`, `0 <= k < RESOLUTION`. A probability is held on the same
//! grid, as a number of ticks between `0` and `RESOLUTION`, so that comparing
//! a draw with a probability is a comparison of two integers.

use vstd::arithmetic::power2::{lemma2_to64, lemma_pow2_pos, lemma_pow2_strictly_increases, pow2};
use vstd::bits::lemma_u64_shl_is_mul;
use vstd::prelude::*;

verus! {

/// The number of points of the unit interval that a draw can fall on.
pub const RESOLUTION: u32 = 16_777_216;

/// A probability in `[0, 1]`, in ticks of `1 / RESOLUTION`.
#[derive(Clone, Copy, Debug, PartialEq, Eq, Structural)]
pub struct Probability {
    ticks: u32,
}

impl View for Probability {
    type V = nat;

    closed spec fn view(&self) -> nat {
        self.ticks as nat
    }
}

impl Probability {
    #[verifier::type_invariant]
    spec fn in_range(self) -> bool {
        self.ticks <= RESOLUTION
    }

    /// Whether a call that drew `draw` is diverted: the draw is not below the
    /// probability of success.
    pub open spec fn diverts(self, draw: nat) -> bool {
        draw >= self@
    }

    /// The probability of `ticks / RESOLUTION`, or `None` where that exceeds 1.
    pub fn from_ticks(ticks: u32) -> (made: Option<Probability>)
        ensures
            made is Some <==> ticks <= RESOLUTION,
            made matches Some(p) ==> p@ == ticks,
    {
        if ticks <= RESOLUTION {
            Some(Probability { ticks })
        } else {
            None
        }
    }

    /// The probability that a single-precision number stands for, given by
    /// the bit pattern `bits` of the number: the probability that diverts
    /// exactly the draws that are not below the number. A number above 1
    /// counts as 1 and a number below 0 as 0; what is not a number diverts
    /// no draw.
    pub fn from_f32_bits(bits: u32) -> (p: Probability)
        ensures
            p@ <= RESOLUTION,
            forall|draw: nat| draw < RESOLUTION ==> (p.diverts(draw) <==> reaches(draw, bits)),
    {
        let exponent = (bits >> 23) & 0xff;
        let fraction = bits & 0x7f_ffff;
        let negative = bits >> 31 == 1;
        assert(exponent <= 255 && fraction < 0x80_0000) by (bit_vector)
            requires
                exponent == (bits >> 23) & 0xff,
                fraction == bits & 0x7f_ffff,
        ;
        if exponent == 255 && fraction != 0 {
            Probability::certain()
        } else if negative {
            Probability::impossible()
        } else if exponent >= 127 {
            Probability::certain()
        } else {
            let mantissa: u64 = if exponent == 0 {
                fraction as u64
            } else {
                fraction as u64 + 0x80_0000
            };
            let shift: u64 = if exponent == 0 {
                125
            } else {
                (126 - exponent) as u64
            };
            if shift >= 24 {
                proof {
                    lemma2_to64();
                    if shift > 24 {
                        lemma_pow2_strictly_increases(24, shift as nat);
                    }
                    lemma_below_unit(mantissa as nat, pow2(shift as nat));
                }
                if mantissa == 0 {
                    Probability::impossible()
                } else {
                    Probability { ticks: 1 }
                }
            } else {
                proof {
                    lemma2_to64();
                    if shift < 23 {
                        lemma_pow2_strictly_increases(shift as nat, 23);
                    }
                    lemma_pow2_pos(shift as nat);
                    lemma_u64_shl_is_mul(1, shift);
                }
                let unit: u64 = 1u64 << shift;
                let ticks: u64 = (mantissa + unit - 1) / unit;
                proof {
                    lemma_rounded_up(mantissa as nat, unit as nat);
                    assert(ticks <= mantissa) by (nonlinear_arith)
                        requires
                            unit >= 1,
                            ticks == (mantissa + unit - 1) / (unit as int),
                    ;
                }
                Probability { ticks: ticks as u32 }
            }
        }
    }

    /// Probability 1: no draw is diverted.
    pub fn certain() -> (p: Probability)
        ensures
            p@ == RESOLUTION,
    {
        Probability { ticks: RESOLUTION }
    }

    /// Probability 0: every draw is diverted.
    pub fn impossible() -> (p: Probability)
        ensures
            p@ == 0,
    {
        Probability { ticks: 0 }
    }

    /// The number of ticks.
    pub fn ticks(&self) -> (ticks: u32)
        ensures
            ticks == self@,
            ticks <= RESOLUTION,
    {
        proof {
            use_type_invariant(self);
        }
        self.ticks
    }

    /// Compares a draw with this probability of success.
    pub fn is_diverted(&self, draw: u32) -> (diverted: bool)
        ensures
            diverted == self.diverts(draw as nat),
    {
        draw >= self.ticks
    }
}

/// Whether the point `draw / RESOLUTION` of the unit interval is not below
/// the single-precision number with the bit pattern `bits`.
///
/// The number has a sign bit, eight bits of exponent and 23 bits of
/// fraction. With an exponent `e` between 1 and 254 and the fraction `f` it
/// is `(f + 2^23) * 2^(e - 150)`, so the point reaches it where
/// `draw * 2^(126 - e)` is at least `f + 2^23`. With the exponent 0 it is
/// `f * 2^-149`. With the exponent 255 it is infinite, or, with a fraction
/// other than 0, not a number, which no point reaches.
pub open spec fn reaches(draw: nat, bits: u32) -> bool {
    let exponent = (bits >> 23) & 0xff;
    let fraction = bits & 0x7f_ffff;
    let negative = bits >> 31 == 1;
    if exponent == 255 && fraction != 0 {
        false
    } else if negative {
        true
    } else if exponent >= 127 {
        false
    } else if exponent == 0 {
        draw * pow2(125) >= fraction
    } else {
        draw * pow2((126 - exponent) as nat) >= fraction + 0x80_0000
    }
}

/// Where `mantissa` is below `unit`, a multiple of `unit` reaches it only
/// if it is not 0 or `mantissa` is.
proof fn lemma_below_unit(mantissa: nat, unit: nat)
    requires
        mantissa < unit,
    ensures
        forall|draw: nat| #[trigger] (draw * unit) >= mantissa <==> (draw >= 1 || mantissa == 0),
{
    assert forall|draw: nat| #[trigger] (draw * unit) >= mantissa <==> (draw >= 1 || mantissa
        == 0) by {
        if draw >= 1 {
            assert(draw * unit >= unit) by (nonlinear_arith)
                requires
                    draw >= 1,
            ;
        } else {
            assert(draw * unit == 0) by (nonlinear_arith)
                requires
                    draw == 0,
            ;
        }
    }
}

/// The multiples of `unit` that reach `mantissa` are those from
/// `mantissa / unit`, rounded up.
proof fn lemma_rounded_up(mantissa: nat, unit: nat)
    requires
        unit > 0,
    ensures
        forall|draw: nat|
            #[trigger] (draw * unit) >= mantissa <==> draw >= (mantissa + unit - 1) / (unit as int),
{
    let quotient = (mantissa + unit - 1) / (unit as int);
    assert(quotient * unit >= mantissa && (quotient - 1) * unit < mantissa) by (nonlinear_arith)
        requires
            unit > 0,
            quotient == (mantissa + unit - 1) / (unit as int),
    ;
    assert forall|draw: nat| #[trigger] (draw * unit) >= mantissa <==> draw >= quotient by {
        if draw >= quotient {
            assert(draw * unit >= quotient * unit) by (nonlinear_arith)
                requires
                    draw >= quotient,
                    unit > 0,
            ;
        } else {
            assert(draw * unit <= (quotient - 1) * unit) by (nonlinear_arith)
                requires
                    draw <= quotient - 1,
                    unit > 0,
            ;
        }
    }
}

} // verus!
