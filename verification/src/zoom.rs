//! The zoom controller: scroll input rescales the camera by a fixed share
//! of its current scale, so that zooming feels the same at every level.

use vstd::prelude::*;
use crate::camera::{CameraState, CameraView};
use crate::fixed::{
    div_away, div_away_i128, lemma_div_away, lemma_product_bounds, magnitude, representable,
    saturate, saturate_i128, Fixed, UNIT,
};

verus! {

/// The scroll sensitivity is 0.02: one unit of scroll changes the scale by
/// one part in this many.
pub const SCROLL_SENSITIVITY_INVERSE: i64 = 50;

/// The product of a scale and a scroll delta, both in raw units, divided by
/// this is 0.02 times their product in raw units.
pub const ZOOM_DIVISOR: i64 = SCROLL_SENSITIVITY_INVERSE * UNIT;

/// The scroll input of one tick. Only the vertical part is used.
#[derive(Clone, Copy, Debug, PartialEq, Eq)]
pub struct ScrollSample {
    /// Accumulated vertical scroll; positive is wheel up.
    pub delta_y: Fixed,
}

/// The vertical scroll of a tick in raw units; a tick without a sample
/// scrolled by zero.
pub open spec fn scroll_delta(sample: Option<ScrollSample>) -> int {
    match sample {
        Some(s) => s.delta_y@,
        None => 0,
    }
}

/// The change of the scale for a scroll: `-0.02 * delta_y * scale`, rounded
/// away from zero, so that no scroll is lost to rounding.
pub open spec fn zoom_change(scale: int, delta_y: int) -> int {
    div_away(-(scale * delta_y), ZOOM_DIVISOR as int)
}

/// The scale after a scroll, `scale * (1 - 0.02 * delta_y)`, before
/// saturation.
pub open spec fn zoomed_exactly(scale: int, delta_y: int) -> int {
    scale + zoom_change(scale, delta_y)
}

/// The scale after a scroll.
pub open spec fn zoomed_scale(scale: int, delta_y: int) -> int {
    saturate(zoomed_exactly(scale, delta_y))
}

/// The camera after a scroll: the scale changes, the translation stays.
pub open spec fn zoomed_camera(camera: CameraView, delta_y: int) -> CameraView {
    CameraView { translation: camera.translation, scale: zoomed_scale(camera.scale, delta_y) }
}

/// A scroll moves a positive scale in the direction opposite to its sign,
/// by at least one raw unit, and a scroll of zero leaves it alone.
pub proof fn lemma_zoom_direction(scale: int, delta_y: int)
    requires
        scale > 0,
    ensures
        delta_y > 0 ==> zoomed_exactly(scale, delta_y) < scale,
        delta_y < 0 ==> zoomed_exactly(scale, delta_y) > scale,
        delta_y == 0 ==> zoomed_exactly(scale, delta_y) == scale,
{
    lemma_div_away(-(scale * delta_y), ZOOM_DIVISOR as int);
    assert(delta_y > 0 ==> scale * delta_y > 0) by (nonlinear_arith)
        requires
            scale > 0,
    ;
    assert(delta_y < 0 ==> scale * delta_y < 0) by (nonlinear_arith)
        requires
            scale > 0,
    ;
    assert(delta_y == 0 ==> scale * delta_y == 0) by (nonlinear_arith);
}

/// A positive scale stays positive exactly where the scroll, as a share of
/// the scale, leaves at least one raw unit: a scroll down always does, a
/// scroll up by fifty or more never does.
pub proof fn lemma_zoom_keeps_positive(scale: int, delta_y: int)
    requires
        scale > 0,
    ensures
        zoomed_scale(scale, delta_y) > 0 <==> scale * delta_y <= (scale - 1) * ZOOM_DIVISOR,
        delta_y <= 0 ==> zoomed_scale(scale, delta_y) > 0,
        delta_y >= ZOOM_DIVISOR ==> zoomed_scale(scale, delta_y) <= 0,
{
    let k = ZOOM_DIVISOR as int;
    let p = -(scale * delta_y);
    let q = div_away(p, k);
    lemma_div_away(p, k);
    assert((scale - 1) * k == scale * k - k) by (nonlinear_arith);
    assert((scale + q) * k == scale * k + q * k) by (nonlinear_arith);
    assert(scale + q > 0 <==> (scale + q) * k > 0) by (nonlinear_arith)
        requires
            k > 0,
    ;
    assert(delta_y <= 0 ==> scale * delta_y <= 0) by (nonlinear_arith)
        requires
            scale > 0,
    ;
    assert(delta_y >= k ==> scale * delta_y >= scale * k) by (nonlinear_arith)
        requires
            scale > 0,
    ;
}

/// The rounded scale is less than one raw unit away from the exact one:
/// `ZOOM_DIVISOR` times the result differs from
/// `scale * (ZOOM_DIVISOR - delta_y)` by less than `ZOOM_DIVISOR`.
pub proof fn lemma_zoom_rounding(scale: int, delta_y: int)
    ensures
        ({
            let k = ZOOM_DIVISOR as int;
            magnitude(zoomed_exactly(scale, delta_y) * k - scale * (k - delta_y)) < k
        }),
{
    let k = ZOOM_DIVISOR as int;
    let p = -(scale * delta_y);
    let q = div_away(p, k);
    lemma_div_away(p, k);
    assert(scale * (k - delta_y) == scale * k - scale * delta_y) by (nonlinear_arith);
    assert((scale + q) * k == scale * k + q * k) by (nonlinear_arith);
}

/// Zoom is multiplicative: two scrolls in two ticks scale by the product of
/// their factors.
///
/// With `K` for `ZOOM_DIVISOR`, the factor of a scroll `d` is
/// `(K - d) / K`, that is `1 - 0.02 * d`. After scrolls `d1` and `d2` the
/// scale differs from `scale * (1 - 0.02 * d1) * (1 - 0.02 * d2)` by less
/// than `1 + |1 - 0.02 * d2|` raw units: one rounding in each tick, the
/// first of them scaled by the second factor. The statement below is this
/// one multiplied by `K * K`. It holds where neither tick saturates.
pub proof fn lemma_zoom_multiplicative(scale: int, d1: int, d2: int)
    requires
        representable(zoomed_exactly(scale, d1)),
        representable(zoomed_exactly(zoomed_scale(scale, d1), d2)),
    ensures
        ({
            let k = ZOOM_DIVISOR as int;
            let twice = zoomed_scale(zoomed_scale(scale, d1), d2);
            magnitude(twice * k * k - scale * (k - d1) * (k - d2)) < k * k + k * magnitude(k - d2)
        }),
{
    let k = ZOOM_DIVISOR as int;
    let s1 = zoomed_exactly(scale, d1);
    let s2 = zoomed_exactly(s1, d2);
    let e1 = s1 * k - scale * (k - d1);
    let e2 = s2 * k - s1 * (k - d2);
    let f2 = k - d2;
    lemma_zoom_rounding(scale, d1);
    lemma_zoom_rounding(s1, d2);
    assert(s2 * k * k - scale * (k - d1) * f2 == e2 * k + e1 * f2) by (nonlinear_arith)
        requires
            e1 == s1 * k - scale * (k - d1),
            e2 == s2 * k - s1 * f2,
    ;
    assert(magnitude(e1 * f2) <= k * magnitude(f2)) by (nonlinear_arith)
        requires
            magnitude(e1) < k,
    ;
    assert(magnitude(e2 * k) < k * k) by (nonlinear_arith)
        requires
            magnitude(e2) < k,
            k > 0,
    ;
}

/// Applies the scroll of one tick to the camera's scale:
/// `scale * (1 - 0.02 * delta_y)`, so that wheel up zooms in.
///
/// The change is rounded away from zero and the result saturates at the
/// ends of the representable range; it is not clamped otherwise. A tick
/// without a sample, or one that scrolled by zero, changes nothing. The
/// translation is never touched.
pub fn zoom(camera: &mut CameraState, sample: Option<ScrollSample>)
    ensures
        final(camera)@ == zoomed_camera(old(camera)@, scroll_delta(sample)),
        scroll_delta(sample) == 0 ==> *final(camera) == *old(camera),
        old(camera).scale@ > 0 && scroll_delta(sample) > 0
            ==> final(camera).scale@ < old(camera).scale@,
        0 < old(camera).scale@ < i64::MAX && scroll_delta(sample) < 0
            ==> final(camera).scale@ > old(camera).scale@,
{
    if let Some(scroll) = sample {
        let scale: i64 = camera.scale.raw;
        let delta_y: i64 = scroll.delta_y.raw;
        proof {
            lemma_product_bounds(scale as int, delta_y as int);
            if scale > 0 {
                lemma_zoom_direction(scale as int, delta_y as int);
            }
            if delta_y == 0 {
                assert(scale * delta_y == 0) by (nonlinear_arith)
                    requires
                        delta_y == 0,
                ;
            }
        }
        let product: i128 = scale as i128 * delta_y as i128;
        let change: i128 = div_away_i128(-product, ZOOM_DIVISOR as i128);
        camera.scale = saturate_i128(scale as i128 + change);
    }
}

} // verus!
