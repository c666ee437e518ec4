//! The projection engine: fisheye correction and the mapping from a ray
//! distance to a vertical wall slice on screen.
//!
//! Screen geometry is in thousandths of a pixel; distances are in
//! thousandths of a grid unit.

use vstd::prelude::*;
use crate::fixed::div_floor;
use crate::ray::DIST_CAP;
use crate::trig::{cos_fp, cos_spec, norm_angle, norm_spec, FULL_TURN};

verus! {

/// Tallest screen the projection accepts, in thousandths of a pixel.
pub const SCREEN_LIMIT: i64 = 10_000_000;

/// A distance clamped away from zero before dividing, to one thousandth of
/// a grid unit.
pub open spec fn clamp_dist(d: int) -> int {
    if d < 1 {
        1
    } else {
        d
    }
}

/// A ray distance corrected for fisheye distortion: scaled by the cosine of
/// the ray's angular offset from the viewing direction.
pub open spec fn fisheye_spec(d: int, pov: int, ray_angle: int) -> int {
    d * cos_spec(norm_spec(pov - ray_angle)) / 1000
}

/// Height of the wall slice for a corrected distance, in thousandths of a
/// pixel: the screen height over the distance, scaled up by one and a half.
pub open spec fn wall_height_spec(sh: int, d: int) -> int {
    (sh * 1000 / clamp_dist(d)) * 3 / 2
}

/// Top edge of the wall slice, in thousandths of a pixel.
pub open spec fn slice_top_spec(sh: int, d: int) -> int {
    sh / 2 - wall_height_spec(sh, d) / 2
}

/// Bottom edge of the wall slice, in thousandths of a pixel.
pub open spec fn slice_bottom_spec(sh: int, d: int) -> int {
    sh / 2 + wall_height_spec(sh, d) / 2
}

/// Scales a raw ray distance by the cosine of the offset between the
/// viewing direction and the ray's own direction, undoing the fisheye
/// distortion of fan casting.
pub fn corrected_distance(d: i64, pov: i64, ray_angle: i64) -> (r: i64)
    requires
        0 <= d <= DIST_CAP,
        0 <= pov < FULL_TURN,
        0 <= ray_angle < FULL_TURN,
    ensures
        r == fisheye_spec(d as int, pov as int, ray_angle as int),
        -DIST_CAP <= r <= DIST_CAP,
{
    let diff = norm_angle(pov - ray_angle);
    let c = cos_fp(diff);
    proof {
        assert(-1_000_000_000 <= d * c <= 1_000_000_000) by (nonlinear_arith)
            requires
                0 <= d <= 1_000_000int && -1000 <= c <= 1000,
        ;
        assert(d * c <= 1000 * d && -(1000 * d) <= d * c) by (nonlinear_arith)
            requires
                0 <= d && -1000 <= c <= 1000,
        ;
        vstd::arithmetic::div_mod::lemma_div_is_ordered(d * c as int, 1000 * d as int, 1000);
        vstd::arithmetic::div_mod::lemma_div_is_ordered(-(1000 * d as int), d * c as int, 1000);
        vstd::arithmetic::div_mod::lemma_div_multiples_vanish(d as int, 1000);
        vstd::arithmetic::div_mod::lemma_div_multiples_vanish(-(d as int), 1000);
    }
    div_floor(d * c, 1000)
}

/// Turns a corrected distance into the top and bottom edge of the wall
/// slice for one screen column. A sentinel or otherwise huge distance
/// yields a sliver around the screen midline; a distance at or below the
/// clamp yields a slice far taller than the screen.
pub fn project_slice(sh: i64, d: i64) -> (r: (i64, i64))
    requires
        0 < sh <= SCREEN_LIMIT,
        -DIST_CAP <= d <= DIST_CAP,
    ensures
        r.0 == slice_top_spec(sh as int, d as int),
        r.1 == slice_bottom_spec(sh as int, d as int),
        r.0 <= r.1,
{
    let dc = if d < 1 { 1 } else { d };
    let h0 = (sh * 1000) / dc;
    proof {
        vstd::arithmetic::div_mod::lemma_div_pos_is_pos(sh * 1000 as int, dc as int);
        vstd::arithmetic::div_mod::lemma_div_is_ordered(
            sh * 1000 as int,
            10_000_000_000int,
            dc as int,
        );
        vstd::arithmetic::div_mod::lemma_div_multiples_vanish(10_000_000_000int, 1);
        assert(sh * 1000 / (dc as int) <= sh * 1000) by {
            vstd::arithmetic::div_mod::lemma_div_is_ordered_by_denominator(
                sh * 1000 as int,
                1,
                dc as int,
            );
            vstd::arithmetic::div_mod::lemma_div_by_multiple(sh * 1000 as int, 1);
        }
    }
    let wh = (h0 * 3) / 2;
    let half = wh / 2;
    (sh / 2 - half, sh / 2 + half)
}

/// A ray cast exactly along the viewing direction keeps its raw distance:
/// the fisheye correction at zero offset is the identity.
pub proof fn lemma_fisheye_identity(d: int, a: int)
    requires
        0 <= d,
    ensures
        fisheye_spec(d, a, a) == d,
{
    vstd::arithmetic::div_mod::lemma_small_mod(0nat, FULL_TURN as nat);
    crate::trig::lemma_cardinal_values();
    assert(fisheye_spec(d, a, a) == d * 1000 / 1000);
    vstd::arithmetic::div_mod::lemma_div_multiples_vanish(d, 1000);
}

/// Projection is antitone in distance: a farther wall never yields a taller
/// slice.
pub proof fn lemma_projection_monotone(sh: int, d1: int, d2: int)
    requires
        0 < sh,
        1 <= d1 < d2,
    ensures
        wall_height_spec(sh, d1) >= wall_height_spec(sh, d2),
{
    vstd::arithmetic::div_mod::lemma_div_pos_is_pos(sh * 1000, d1);
    vstd::arithmetic::div_mod::lemma_div_is_ordered_by_denominator(sh * 1000, d1, d2);
    let h1 = sh * 1000 / d1;
    let h2 = sh * 1000 / d2;
    vstd::arithmetic::div_mod::lemma_div_is_ordered(h2 * 3, h1 * 3, 2);
}

/// Projection is strictly antitone while the distances are close enough to
/// the screen scale for the quantized heights to stay apart: a strictly
/// farther wall yields a strictly shorter slice.
pub proof fn lemma_projection_strict(sh: int, d1: int, d2: int)
    requires
        0 < sh,
        1 <= d1 < d2,
        d1 * d2 <= sh * 1000,
    ensures
        wall_height_spec(sh, d1) > wall_height_spec(sh, d2),
{
    let kk = sh * 1000;
    let h1 = kk / d1;
    let h2 = kk / d2;
    vstd::arithmetic::div_mod::lemma_fundamental_div_mod(kk, d1);
    vstd::arithmetic::div_mod::lemma_fundamental_div_mod(kk, d2);
    assert(h1 >= h2 + 1) by (nonlinear_arith)
        requires
            kk == d1 * h1 + kk % d1,
            0 <= kk % d1 < d1,
            kk == d2 * h2 + kk % d2,
            0 <= kk % d2 < d2,
            1 <= d1 < d2,
            d1 * d2 <= kk,
    ;
    assert((h2 * 3 + 3) / 2 >= h2 * 3 / 2 + 1) by {
        vstd::arithmetic::div_mod::lemma_hoist_over_denominator(h2 * 3, 1, 2nat);
        vstd::arithmetic::div_mod::lemma_div_is_ordered(h2 * 3 + 2, h2 * 3 + 3, 2);
    }
    vstd::arithmetic::div_mod::lemma_div_is_ordered(h2 * 3 + 3, h1 * 3, 2);
}

} // verus!
