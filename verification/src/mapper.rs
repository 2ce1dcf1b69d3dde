//! From a distance on the screen to the distance in the world that it spans.
//!
//! The camera is orthographic and never rotated, so the zoom factor alone
//! relates the two: a screen distance times the scale is the world distance.
//! The full viewport projection is not consulted.

use vstd::prelude::*;
use crate::fixed::{lemma_div_away, magnitude, saturate, scaled, Fixed, UNIT};

verus! {

/// The world-space distance that a screen-space distance spans at a scale,
/// each axis by itself.
pub open spec fn world_delta(screen_delta: (int, int), scale: int) -> (int, int) {
    (saturate(scaled(screen_delta.0, scale)), saturate(scaled(screen_delta.1, scale)))
}

/// A rounded product is less than one raw unit away from the exact one,
/// has its sign, and is zero only where a factor is zero.
pub proof fn lemma_scaled_sign(a: int, b: int)
    ensures
        magnitude(scaled(a, b) * UNIT - a * b) < UNIT,
        scaled(a, b) == 0 <==> (a == 0 || b == 0),
        a * b > 0 ==> scaled(a, b) > 0,
        a * b < 0 ==> scaled(a, b) < 0,
{
    lemma_div_away(a * b, UNIT as int);
    assert(a * b == 0 <==> (a == 0 || b == 0)) by (nonlinear_arith);
}

/// Swapping the sign of one factor swaps the sign of the rounded product.
pub proof fn lemma_scaled_negation(a: int, b: int)
    ensures
        scaled(-a, b) == -scaled(a, b),
{
    lemma_div_away(a * b, UNIT as int);
    assert((-a) * b == -(a * b)) by (nonlinear_arith);
}

/// Converts a screen-space distance in pixels to world units at the given
/// scale.
///
/// Each axis is the product of the screen distance and the scale, rounded
/// away from zero, so that the result is `(0, 0)` only for a screen distance
/// of `(0, 0)` or a scale of zero.
pub fn screen_to_world_delta(screen_delta: (Fixed, Fixed), scale: Fixed) -> (world: (Fixed, Fixed))
    ensures
        world@ == world_delta(screen_delta@, scale@),
        world@ == (0int, 0int) <==> (scale@ == 0 || screen_delta@ == (0int, 0int)),
{
    proof {
        lemma_scaled_sign(screen_delta.0@, scale@);
        lemma_scaled_sign(screen_delta.1@, scale@);
    }
    (screen_delta.0.scaled_by(scale), screen_delta.1.scaled_by(scale))
}

} // verus!
