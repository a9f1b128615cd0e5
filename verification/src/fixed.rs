//! Decimal fixed-point numbers.
//!
//! Touch coordinates, motion multipliers and layout proportions are
//! fractional quantities. They are held as a whole number of millionths, so
//! that every computation on them is exact integer arithmetic.

use vstd::prelude::*;

verus! {

/// How many millionths make one.
pub const MICROS_PER_UNIT: i64 = 1_000_000;

/// The denominator of a product of two fixed-point numbers.
pub const MICROS_SQUARED: u128 = 1_000_000_000_000;

/// A signed number with six decimal places: it stands for `micros / 1_000_000`.
#[derive(Clone, Copy, Debug, PartialEq, Eq, Structural)]
pub struct Fixed {
    pub micros: i64,
}

/// `num / den` rounded to the nearest integer, a tie going away from zero.
pub open spec fn round_half_away(num: int, den: int) -> int
    recommends
        den > 0,
{
    if num >= 0 {
        (num + den / 2) / den
    } else {
        -((-num + den / 2) / den)
    }
}

/// `v` brought into the range of `i32`.
pub open spec fn clamp_i32(v: int) -> int {
    if v < i32::MIN {
        i32::MIN as int
    } else if v > i32::MAX {
        i32::MAX as int
    } else {
        v
    }
}

/// The product `mult * (to - from)` before rounding, in units of `10^-12`.
pub open spec fn raw_product(mult: Fixed, from: Fixed, to: Fixed) -> int {
    mult.micros * (to.micros - from.micros)
}

/// The product `mult * (to - from)` rounded to whole device units.
pub open spec fn rounded_product(mult: Fixed, from: Fixed, to: Fixed) -> int {
    round_half_away(raw_product(mult, from, to), MICROS_SQUARED as int)
}

/// Whether the rounded product `mult * (to - from)` is an `i32`.
pub open spec fn fits_i32(mult: Fixed, from: Fixed, to: Fixed) -> bool {
    i32::MIN <= rounded_product(mult, from, to) <= i32::MAX
}

/// The displacement from `from` to `to` scaled by `mult`, in whole device
/// units: rounded to nearest, a tie going away from zero, and saturated at the
/// bounds of `i32`.
pub open spec fn scaled_delta(mult: Fixed, from: Fixed, to: Fixed) -> int {
    clamp_i32(rounded_product(mult, from, to))
}

impl Fixed {
    /// The number that stands for `micros / 1_000_000`.
    pub fn from_micros(micros: i64) -> (r: Fixed)
        ensures
            r.micros == micros,
    {
        Fixed { micros }
    }

    /// The whole number `n`.
    pub fn from_int(n: i32) -> (r: Fixed)
        ensures
            r.micros == n * MICROS_PER_UNIT,
    {
        Fixed { micros: (n as i64) * MICROS_PER_UNIT }
    }

    /// The number of millionths.
    pub fn micros(&self) -> (r: i64)
        ensures
            r == self.micros,
    {
        self.micros
    }
}

/// The magnitude of `v`.
fn magnitude(v: i128) -> (r: u128)
    requires
        v > i128::MIN,
    ensures
        r == if v < 0 { -v } else { v as int },
{
    if v < 0 {
        (-v) as u128
    } else {
        v as u128
    }
}

/// Computes [`scaled_delta`].
pub fn scale_delta(mult: Fixed, from: Fixed, to: Fixed) -> (r: i32)
    ensures
        r == scaled_delta(mult, from, to),
{
    let m: i128 = mult.micros as i128;
    let d: i128 = (to.micros as i128) - (from.micros as i128);
    let negative: bool = (m < 0) != (d < 0);
    let m_abs: u128 = magnitude(m);
    let d_abs: u128 = magnitude(d);
    assert(m_abs * d_abs <= 0x8000_0000_0000_0000 * 0x1_0000_0000_0000_0000) by (nonlinear_arith)
        requires
            m_abs <= 0x8000_0000_0000_0000,
            d_abs <= 0x1_0000_0000_0000_0000,
    ;
    let p: u128 = m_abs * d_abs;
    assert(negative ==> m * d == -(p as int)) by (nonlinear_arith)
        requires
            negative == ((m < 0) != (d < 0)),
            m_abs == (if m < 0 { -m } else { m as int }),
            d_abs == (if d < 0 { -d } else { d as int }),
            p == m_abs * d_abs,
    ;
    assert(!negative ==> m * d == p as int) by (nonlinear_arith)
        requires
            negative == ((m < 0) != (d < 0)),
            m_abs == (if m < 0 { -m } else { m as int }),
            d_abs == (if d < 0 { -d } else { d as int }),
            p == m_abs * d_abs,
    ;
    let q: u128 = (p + MICROS_SQUARED / 2) / MICROS_SQUARED;
    if negative {
        if q > 0x8000_0000 {
            i32::MIN
        } else {
            (-(q as i64)) as i32
        }
    } else {
        if q > 0x7fff_ffff {
            i32::MAX
        } else {
            q as i32
        }
    }
}

/// Rounding to nearest moves a quotient by at most half a unit.
pub proof fn lemma_round_half_away_error(num: int, den: int)
    requires
        den > 0,
        den % 2 == 0,
    ensures
        -(den / 2) <= round_half_away(num, den) * den - num <= den / 2,
{
    let h = den / 2;
    if num >= 0 {
        let q = (num + h) / den;
        assert((num + h) == den * q + (num + h) % den) by (nonlinear_arith)
            requires
                den > 0,
                q == (num + h) / den,
        ;
        assert(0 <= (num + h) % den < den) by (nonlinear_arith)
            requires
                den > 0,
        ;
        assert(q * den == den * q) by (nonlinear_arith);
    } else {
        let q = (-num + h) / den;
        assert((-num + h) == den * q + (-num + h) % den) by (nonlinear_arith)
            requires
                den > 0,
                q == (-num + h) / den,
        ;
        assert(0 <= (-num + h) % den < den) by (nonlinear_arith)
            requires
                den > 0,
        ;
        assert((-q) * den == -(den * q)) by (nonlinear_arith);
    }
}

} // verus!
