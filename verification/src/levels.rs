//! Black/white level normalisation of a single sample, computed exactly.
//!
//! A normalised sample is the quotient `(sample - black) / (white - black)`,
//! clamped from above at one and left unclamped below zero. It is kept as a
//! pair of integers, so that nothing is rounded before the consumer decides
//! on a number format.

use vstd::prelude::*;

verus! {

/// An exact quotient `num / den` of two integers.
#[derive(Clone, Copy, Debug, PartialEq, Eq, Structural)]
pub struct Ratio {
    pub num: i32,
    pub den: i32,
}

impl Ratio {
    /// A ratio produced by normalisation: a positive denominator, and a
    /// value of at most one.
    pub open spec fn wf(self) -> bool {
        0 < self.den && self.num <= self.den
    }

    /// The ratio stands for exactly zero.
    pub open spec fn is_zero(self) -> bool {
        self.num == 0
    }

    /// The ratio stands for exactly one.
    pub open spec fn is_one(self) -> bool {
        self.num == self.den
    }

    /// The ratio stands for a value below zero.
    pub open spec fn is_negative(self) -> bool {
        self.num < 0
    }

    /// Zero, written over the denominator one.
    pub open spec fn zero_spec() -> Ratio {
        Ratio { num: 0, den: 1 }
    }

    /// Zero, written over the denominator one.
    #[verifier::when_used_as_spec(zero_spec)]
    pub fn zero() -> (r: Ratio)
        ensures
            r == Ratio::zero_spec(),
            r.wf(),
            r.is_zero(),
    {
        Ratio { num: 0, den: 1 }
    }
}

/// A channel's levels span a usable range: white lies above black.
pub open spec fn levels_span(black: u16, white: u16) -> bool {
    black < white
}

/// Numerator of the normalised sample: the distance from the black level,
/// cut off at the distance between the two levels.
pub open spec fn norm_num(sample: int, black: int, white: int) -> int {
    if sample < white {
        sample - black
    } else {
        white - black
    }
}

/// The normalised value of `sample` under the levels `black` and `white`.
pub open spec fn normalized(sample: u16, black: u16, white: u16) -> Ratio {
    Ratio {
        num: norm_num(sample as int, black as int, white as int) as i32,
        den: (white - black) as i32,
    }
}

/// Normalises one sample.
pub fn normalize(sample: u16, black: u16, white: u16) -> (r: Ratio)
    requires
        levels_span(black, white),
    ensures
        r == normalized(sample, black, white),
        r.num == norm_num(sample as int, black as int, white as int),
        r.den == white - black,
        r.wf(),
{
    let range: i32 = white as i32 - black as i32;
    let offset: i32 = sample as i32 - black as i32;
    if offset < range {
        Ratio { num: offset, den: range }
    } else {
        Ratio { num: range, den: range }
    }
}

/// A sample at or above the white level normalises to exactly one.
pub proof fn lemma_upper_clamp(sample: u16, black: u16, white: u16)
    requires
        levels_span(black, white),
        sample >= white,
    ensures
        normalized(sample, black, white).is_one(),
{
}

/// Nothing is clamped from below: a sample under the black level keeps its
/// negative value, and a sample at the black level is exactly zero.
pub proof fn lemma_no_lower_clamp(sample: u16, black: u16, white: u16)
    requires
        levels_span(black, white),
    ensures
        sample < black <==> normalized(sample, black, white).is_negative(),
        sample == black <==> normalized(sample, black, white).is_zero(),
        sample < black ==> normalized(sample, black, white).num == sample - black,
{
}

/// Below the white level nothing is lost: adding the black level back to the
/// numerator returns the sample, and at or above it returns the white level.
pub proof fn lemma_sample_recovered(sample: u16, black: u16, white: u16)
    requires
        levels_span(black, white),
    ensures
        black + normalized(sample, black, white).num == (if sample < white {
            sample as int
        } else {
            white as int
        }),
{
}

} // verus!
