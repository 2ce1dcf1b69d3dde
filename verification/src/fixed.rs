//! Fixed-point numbers with six decimal places, and the rounding and
//! saturation rules that every computation of the crate goes through.

use vstd::arithmetic::div_mod::{lemma_fundamental_div_mod, lemma_mod_bound};
use vstd::prelude::*;

verus! {

/// Number of raw units in the value one.
pub const UNIT: i64 = 1_000_000;

/// A signed fixed-point number: `raw` counts millionths.
#[derive(Clone, Copy, Debug, PartialEq, Eq, Structural)]
pub struct Fixed {
    pub raw: i64,
}

impl View for Fixed {
    type V = int;

    /// The number of millionths that the value holds.
    open spec fn view(&self) -> int {
        self.raw as int
    }
}

/// The representable number nearest to `x`.
pub open spec fn saturate(x: int) -> int {
    if x < i64::MIN {
        i64::MIN as int
    } else if x > i64::MAX {
        i64::MAX as int
    } else {
        x
    }
}

/// Whether `x` is representable: within the 64-bit range of raw units.
pub open spec fn representable(x: int) -> bool {
    i64::MIN <= x <= i64::MAX
}

/// The distance of `x` from zero.
pub open spec fn magnitude(x: int) -> int {
    if x < 0 {
        -x
    } else {
        x
    }
}

/// The quotient `p / d` rounded away from zero, for a positive divisor.
pub open spec fn div_away(p: int, d: int) -> int
    recommends
        d > 0,
{
    if p >= 0 {
        (p + d - 1) / d
    } else {
        -((-p + d - 1) / d)
    }
}

/// Rounding away from zero, said without division: `d` times the quotient
/// lies beyond `p` as seen from zero, less than `d` away from it; and the
/// rule treats both signs alike.
pub proof fn lemma_div_away(p: int, d: int)
    requires
        d > 0,
    ensures
        p >= 0 ==> p <= div_away(p, d) * d < p + d,
        p <= 0 ==> p - d < div_away(p, d) * d <= p,
        magnitude(div_away(p, d) * d - p) < d,
        div_away(-p, d) == -div_away(p, d),
{
    let x = if p >= 0 {
        p + d - 1
    } else {
        -p + d - 1
    };
    lemma_fundamental_div_mod(x, d);
    lemma_mod_bound(x, d);
    assert(d * (x / d) == (x / d) * d) by (nonlinear_arith);
    assert((-(x / d)) * d == -((x / d) * d)) by (nonlinear_arith);
    if p == 0 {
        assert(x / d == 0) by (nonlinear_arith)
            requires
                x == d * (x / d) + (x % d),
                0 <= x % d < d,
                x == d - 1,
                d > 0,
        ;
    }
}

/// The product of two fixed-point numbers given in raw units, in raw units,
/// rounded away from zero.
pub open spec fn scaled(a: int, b: int) -> int {
    div_away(a * b, UNIT as int)
}

/// The product of two 64-bit numbers fits in 128 bits with room to spare.
pub proof fn lemma_product_bounds(a: int, b: int)
    requires
        i64::MIN <= a <= i64::MAX,
        i64::MIN <= b <= i64::MAX,
    ensures
        -0x4000_0000_0000_0000_0000_0000_0000_0000 <= a * b
            <= 0x4000_0000_0000_0000_0000_0000_0000_0000,
{
    assert(-0x4000_0000_0000_0000_0000_0000_0000_0000 <= a * b
        <= 0x4000_0000_0000_0000_0000_0000_0000_0000) by (nonlinear_arith)
        requires
            -0x8000_0000_0000_0000 <= a <= 0x8000_0000_0000_0000,
            -0x8000_0000_0000_0000 <= b <= 0x8000_0000_0000_0000,
    ;
}

/// The representable number nearest to a 128-bit intermediate result.
pub(crate) fn saturate_i128(v: i128) -> (r: Fixed)
    ensures
        r@ == saturate(v as int),
{
    if v < i64::MIN as i128 {
        Fixed { raw: i64::MIN }
    } else if v > i64::MAX as i128 {
        Fixed { raw: i64::MAX }
    } else {
        Fixed { raw: v as i64 }
    }
}

/// Division rounded away from zero on 128-bit intermediates.
pub(crate) fn div_away_i128(p: i128, d: i128) -> (q: i128)
    requires
        0 < d <= 0x1000_0000_0000_0000,
        -0x4000_0000_0000_0000_0000_0000_0000_0000 <= p
            <= 0x4000_0000_0000_0000_0000_0000_0000_0000,
    ensures
        q == div_away(p as int, d as int),
{
    if p >= 0 {
        (p + (d - 1)) / d
    } else {
        -((-p + (d - 1)) / d)
    }
}

impl Fixed {
    /// The number with the given count of millionths.
    pub fn from_raw(raw: i64) -> (r: Fixed)
        ensures
            r@ == raw,
    {
        Fixed { raw }
    }

    /// The fixed-point number that equals the whole number `n`.
    pub fn from_int(n: i32) -> (r: Fixed)
        ensures
            r@ == n * UNIT,
    {
        let wide: i64 = n as i64;
        Fixed { raw: wide * UNIT }
    }

    /// The sum, or the end of the range that the sum lies beyond.
    pub fn saturating_add(self, other: Fixed) -> (r: Fixed)
        ensures
            r@ == saturate(self@ + other@),
    {
        saturate_i128(self.raw as i128 + other.raw as i128)
    }

    /// The difference, or the end of the range that it lies beyond.
    pub fn saturating_sub(self, other: Fixed) -> (r: Fixed)
        ensures
            r@ == saturate(self@ - other@),
    {
        saturate_i128(self.raw as i128 - other.raw as i128)
    }

    /// The product, rounded away from zero to the next millionth and
    /// saturated.
    pub fn scaled_by(self, factor: Fixed) -> (r: Fixed)
        ensures
            r@ == saturate(scaled(self@, factor@)),
    {
        proof {
            lemma_product_bounds(self@, factor@);
        }
        let product: i128 = self.raw as i128 * factor.raw as i128;
        saturate_i128(div_away_i128(product, UNIT as i128))
    }
}

} // verus!
