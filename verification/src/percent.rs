//! Whole-percent ratios, as used for the DEX payment fee and royalty.
use vstd::prelude::*;

verus! {

/// `ceil(n * parts / 100)` over the integers.
pub open spec fn ceil_percent_of(n: int, parts: int) -> int {
    (n * parts + 99) / 100
}

/// The smaller of a percent value and 100.
pub open spec fn clamp_percent(x: u8) -> int {
    if x <= 100 { x as int } else { 100 }
}

/// `sp_arithmetic::Percent::from_parts(parts).mul_ceil(n)`.
///
/// Trusted: `from_parts` saturates `parts` at 100, and `mul_ceil` returns
/// `n / 100 * parts` plus the remainder correction rounded up, which is the
/// exact ceiling of `n * parts / 100`.
#[verifier::external_body]
fn sp_percent_mul_ceil(parts: u8, n: u128) -> (r: u128)
    ensures
        r == ceil_percent_of(n as int, clamp_percent(parts)),
{
    sp_arithmetic::Percent::from_parts(parts).mul_ceil(n)
}

/// A ratio of whole percent points between 0 and 100 inclusive.
#[derive(Clone, Copy, Debug)]
pub struct Percent {
    parts: u8,
}

/// Percent points never exceed 100.
pub broadcast proof fn lemma_percent_value_bounded(p: Percent)
    ensures
        0 <= #[trigger] p.value() <= 100,
{
}

fn clamped(parts: u8) -> (r: u8)
    ensures
        r == clamp_percent(parts),
{
    if parts <= 100 {
        parts
    } else {
        100
    }
}

impl Percent {
    /// The number of percent points.
    pub closed spec fn value(self) -> int {
        clamp_percent(self.parts)
    }

    /// Builds a percent from a number of points, saturating at 100.
    pub fn from_parts(parts: u8) -> (p: Percent)
        ensures
            p.value() == clamp_percent(parts),
    {
        if parts <= 100 {
            Percent { parts }
        } else {
            Percent { parts: 100 }
        }
    }

    /// Builds a percent from `x` percent, saturating at 100.
    pub fn from_percent(x: u8) -> (p: Percent)
        ensures
            p.value() == clamp_percent(x),
    {
        Self::from_parts(x)
    }

    /// Zero percent.
    pub fn zero() -> (p: Percent)
        ensures
            p.value() == 0,
    {
        Percent { parts: 0 }
    }

    /// The number of percent points, at most 100.
    pub fn deconstruct(&self) -> (r: u8)
        ensures
            r == self.value(),
            r <= 100,
    {
        clamped(self.parts)
    }

    /// Whether `self` is no larger than `other`.
    pub fn le(&self, other: &Percent) -> (r: bool)
        ensures
            r == (self.value() <= other.value()),
    {
        clamped(self.parts) <= clamped(other.parts)
    }

    /// This ratio of `n`, rounded up: `ceil(n * self / 100)`, never more than `n`.
    pub fn mul_ceil(&self, n: u128) -> (r: u128)
        ensures
            r == ceil_percent_of(n as int, self.value()),
            r <= n,
    {
        proof {
            lemma_ceil_percent_bounded(n as int, self.value());
        }
        sp_percent_mul_ceil(self.parts, n)
    }
}

/// Rounding up a ratio of at most one never exceeds the whole.
pub proof fn lemma_ceil_percent_bounded(n: int, parts: int)
    requires
        0 <= n,
        0 <= parts <= 100,
    ensures
        0 <= ceil_percent_of(n, parts) <= n,
{
    assert(0 <= n * parts <= n * 100) by (nonlinear_arith)
        requires
            0 <= n,
            0 <= parts <= 100,
    ;
}

} // verus!
