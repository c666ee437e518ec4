//! The fixed-step ray marcher: advances along the ray in small fixed
//! increments until it leaves the grid's bounding box or enters a wall cell.

use vstd::prelude::*;
use crate::fixed::{div_floor, POS_LIMIT};
use crate::grid::Grid;
use crate::trig::{cos_fp, cos_spec, sin_fp, sin_spec, FULL_TURN};

verus! {

/// March increment: one hundredth of a grid unit, in fixed point.
pub const STEP: i64 = 10;

/// Distance budget and "no hit" sentinel: one thousand grid units.
pub const DIST_CAP: i64 = 1_000_000;

/// Where a ray cast stopped: the point reached and the distance travelled,
/// all in thousandths of a grid unit.
#[derive(Clone, Copy, Debug, PartialEq, Eq, Structural)]
pub struct RayHit {
    pub x: i64,
    pub y: i64,
    pub distance: i64,
}

/// X coordinate of the point at parameter `d` along a ray from `px`.
pub open spec fn ray_x_spec(px: int, angle: int, d: int) -> int {
    px + d * cos_spec(angle) / 1000
}

/// Y coordinate of the point at parameter `d` along a ray from `py`.
pub open spec fn ray_y_spec(py: int, angle: int, d: int) -> int {
    py + d * sin_spec(angle) / 1000
}

/// Whether the march stops at parameter `d`: the ray point has left the
/// grid's bounding box, or its cell is a wall.
pub open spec fn stop_at(grid: Grid, px: int, py: int, angle: int, d: int) -> bool {
    let x = ray_x_spec(px, angle, d);
    let y = ray_y_spec(py, angle, d);
    ||| x < 0
    ||| x >= grid.width_spec() * 1000
    ||| y < 0
    ||| y >= grid.height_spec() * 1000
    ||| grid.wall_at(x / 1000, y / 1000)
}

/// The distance at which the march starting from parameter `d` stops: the
/// first stopping multiple of `STEP`, or `DIST_CAP` when the budget runs out.
pub open spec fn march_stop_dist(grid: Grid, px: int, py: int, angle: int, d: int) -> int
    decreases DIST_CAP + STEP - d,
{
    if d >= DIST_CAP {
        DIST_CAP as int
    } else if stop_at(grid, px, py, angle, d) {
        d
    } else {
        march_stop_dist(grid, px, py, angle, d + STEP)
    }
}

/// Casts a ray from `(px, py)` at `angle` and marches in `STEP` increments
/// until the point leaves the grid or lands in a wall cell; the returned
/// distance is `DIST_CAP` when the budget ran out with no stop.
pub fn cast_ray(grid: &Grid, px: i64, py: i64, angle: i64) -> (r: RayHit)
    requires
        grid.wf(),
        0 <= angle < FULL_TURN,
        -POS_LIMIT <= px <= POS_LIMIT,
        -POS_LIMIT <= py <= POS_LIMIT,
    ensures
        r.distance == march_stop_dist(*grid, px as int, py as int, angle as int, STEP as int),
        STEP <= r.distance <= DIST_CAP,
        r.distance as int % (STEP as int) == 0,
        r.x == ray_x_spec(px as int, angle as int, r.distance as int),
        r.y == ray_y_spec(py as int, angle as int, r.distance as int),
        -2_000_000_000 <= r.x <= 2_000_000_000,
        -2_000_000_000 <= r.y <= 2_000_000_000,
        r.distance < DIST_CAP ==> stop_at(*grid, px as int, py as int, angle as int, r.distance as int),
        forall|d: int|
            STEP <= d < r.distance && d % (STEP as int) == 0 ==> !stop_at(
                *grid,
                px as int,
                py as int,
                angle as int,
                d,
            ),
{
    let s = sin_fp(angle);
    let c = cos_fp(angle);
    let w_edge: i64 = (grid.width() as i64) * 1000;
    let h_edge: i64 = (grid.height() as i64) * 1000;
    let mut d: i64 = 0;
    loop
        invariant
            grid.wf(),
            0 <= angle < FULL_TURN,
            -POS_LIMIT <= px <= POS_LIMIT,
            -POS_LIMIT <= py <= POS_LIMIT,
            s == sin_spec(angle as int),
            c == cos_spec(angle as int),
            -1000 <= s <= 1000,
            -1000 <= c <= 1000,
            w_edge == grid.width_spec() * 1000,
            h_edge == grid.height_spec() * 1000,
            0 <= d < DIST_CAP,
            d as int % (STEP as int) == 0,
            march_stop_dist(*grid, px as int, py as int, angle as int, STEP as int)
                == march_stop_dist(*grid, px as int, py as int, angle as int, d + STEP),
            forall|dd: int|
                STEP <= dd <= d && dd % (STEP as int) == 0 ==> !stop_at(
                    *grid,
                    px as int,
                    py as int,
                    angle as int,
                    dd,
                ),
        decreases DIST_CAP - d,
    {
        d = d + STEP;
        proof {
            assert(-1_000_000_000 <= d * c <= 1_000_000_000) by (nonlinear_arith)
                requires
                    0 <= d <= 1_000_000int && -1000 <= c <= 1000,
            ;
            assert(-1_000_000_000 <= d * s <= 1_000_000_000) by (nonlinear_arith)
                requires
                    0 <= d <= 1_000_000int && -1000 <= s <= 1000,
            ;
        }
        let x = px + div_floor(d * c, 1000);
        let y = py + div_floor(d * s, 1000);
        if x < 0 || x >= w_edge || y < 0 || y >= h_edge {
            return RayHit { x, y, distance: d };
        }
        let cx = x / 1000;
        let cy = y / 1000;
        if grid.check_collision(cx, cy) {
            return RayHit { x, y, distance: d };
        }
        if d == DIST_CAP {
            return RayHit { x, y, distance: d };
        }
        proof {
            assert(!stop_at(*grid, px as int, py as int, angle as int, d as int));
            assert(march_stop_dist(*grid, px as int, py as int, angle as int, d as int)
                == march_stop_dist(*grid, px as int, py as int, angle as int, d + STEP));
        }
    }
}

/// The longer of the grid's two sides, in cells.
pub open spec fn grid_long_side(grid: Grid) -> int {
    if grid.width_spec() >= grid.height_spec() {
        grid.width_spec()
    } else {
        grid.height_spec()
    }
}

/// The march never passes a stopping multiple of `STEP`: its result is at
/// most any parameter at which the stop condition holds.
pub proof fn lemma_march_min(grid: Grid, px: int, py: int, angle: int, start: int, dstar: int)
    requires
        STEP <= start <= dstar < DIST_CAP,
        start % (STEP as int) == 0,
        dstar % (STEP as int) == 0,
        stop_at(grid, px, py, angle, dstar),
    ensures
        march_stop_dist(grid, px, py, angle, start) <= dstar,
    decreases dstar - start,
{
    if stop_at(grid, px, py, angle, start) {
    } else {
        assert(start != dstar);
        lemma_march_min(grid, px, py, angle, start + STEP, dstar);
    }
}

/// The march's result carries its meaning: it lies past its start, on the
/// step lattice, and short of the budget only where the stop condition
/// holds.
pub proof fn lemma_march_stops(grid: Grid, px: int, py: int, angle: int, start: int)
    requires
        STEP <= start <= DIST_CAP,
        start % (STEP as int) == 0,
    ensures
        start <= march_stop_dist(grid, px, py, angle, start) <= DIST_CAP,
        march_stop_dist(grid, px, py, angle, start) % (STEP as int) == 0,
        march_stop_dist(grid, px, py, angle, start) < DIST_CAP ==> stop_at(
            grid,
            px,
            py,
            angle,
            march_stop_dist(grid, px, py, angle, start),
        ),
    decreases DIST_CAP - start,
{
    if start >= DIST_CAP {
        assert((DIST_CAP as int) % (STEP as int) == 0) by {
            vstd::arithmetic::div_mod::lemma_mod_multiples_basic(100_000, STEP as int);
        }
    } else if stop_at(grid, px, py, angle, start) {
    } else {
        assert((start + STEP) % (STEP as int) == 0) by {
            vstd::arithmetic::div_mod::lemma_mod_add_multiples_vanish(start, STEP as int);
        }
        lemma_march_stops(grid, px, py, angle, start + STEP);
    }
}

/// Nothing stops the march before its result: the stop condition fails at
/// every earlier multiple of `STEP`.
pub proof fn lemma_march_first(grid: Grid, px: int, py: int, angle: int, start: int, dd: int)
    requires
        STEP <= start <= dd,
        start % (STEP as int) == 0,
        dd % (STEP as int) == 0,
        dd < march_stop_dist(grid, px, py, angle, start),
    ensures
        !stop_at(grid, px, py, angle, dd),
    decreases dd - start,
{
    if start > DIST_CAP {
        assert(march_stop_dist(grid, px, py, angle, start) == DIST_CAP);
        assert(false);
    }
    lemma_march_stops(grid, px, py, angle, start);
    assert(start < DIST_CAP);
    assert(!stop_at(grid, px, py, angle, start));
    if dd > start {
        assert((start + STEP) % (STEP as int) == 0) by {
            vstd::arithmetic::div_mod::lemma_mod_add_multiples_vanish(start, STEP as int);
        }
        assert(start + STEP <= dd) by {
            vstd::arithmetic::div_mod::lemma_sub_mod_noop(dd, start, STEP as int);
            vstd::arithmetic::div_mod::lemma_small_mod(0nat, STEP as nat);
            vstd::arithmetic::div_mod::lemma_fundamental_div_mod(dd - start, STEP as int);
            let q = (dd - start) / (STEP as int);
            assert(dd - start == (STEP as int) * q);
            assert(q >= 1) by (nonlinear_arith)
                requires
                    dd - start == (STEP as int) * q && dd - start > 0 && STEP == 10i64,
            ;
        }
        lemma_march_first(grid, px, py, angle, start + STEP, dd);
    }
}

/// One march step moves the ray point at most one step's worth along each
/// axis.
pub proof fn lemma_ray_step(px: int, py: int, angle: int, d: int)
    requires
        0 <= angle < FULL_TURN,
        STEP <= d,
    ensures
        ray_x_spec(px, angle, d) - ray_x_spec(px, angle, d - STEP) <= STEP,
        ray_x_spec(px, angle, d - STEP) - ray_x_spec(px, angle, d) <= STEP,
        ray_y_spec(py, angle, d) - ray_y_spec(py, angle, d - STEP) <= STEP,
        ray_y_spec(py, angle, d - STEP) - ray_y_spec(py, angle, d) <= STEP,
{
    crate::trig::lemma_trig_bounds(angle);
    let c = cos_spec(angle);
    let s = sin_spec(angle);
    assert(d * c - (d - STEP) * c == (STEP as int) * c) by (nonlinear_arith);
    assert(d * s - (d - STEP) * s == (STEP as int) * s) by (nonlinear_arith);
    vstd::arithmetic::div_mod::lemma_hoist_over_denominator((d - STEP) * c, STEP as int, 1000nat);
    vstd::arithmetic::div_mod::lemma_hoist_over_denominator(d * c, STEP as int, 1000nat);
    vstd::arithmetic::div_mod::lemma_div_is_ordered(d * c, (d - STEP) * c + 10_000, 1000);
    vstd::arithmetic::div_mod::lemma_div_is_ordered((d - STEP) * c, d * c + 10_000, 1000);
    vstd::arithmetic::div_mod::lemma_hoist_over_denominator((d - STEP) * s, STEP as int, 1000nat);
    vstd::arithmetic::div_mod::lemma_hoist_over_denominator(d * s, STEP as int, 1000nat);
    vstd::arithmetic::div_mod::lemma_div_is_ordered(d * s, (d - STEP) * s + 10_000, 1000);
    vstd::arithmetic::div_mod::lemma_div_is_ordered((d - STEP) * s, d * s + 10_000, 1000);
}

/// The cell of a fixed-point coordinate lying within one strip of cells.
proof fn lemma_cell_of_strip(v: int, q: int)
    requires
        q * 1000 <= v < (q + 1) * 1000,
    ensures
        v / 1000 == q,
{
    vstd::arithmetic::div_mod::lemma_fundamental_div_mod_converse(v, 1000, q, v - q * 1000);
}

/// On a grid bordered entirely by walls, a march from strictly inside the
/// interior always ends on a wall cell, never by slipping out of the
/// bounding box: one step is too short to jump the border strip.
pub proof fn lemma_bordered_wall_hit(grid: Grid, px: int, py: int, angle: int)
    requires
        grid.wf(),
        grid.bordered(),
        grid_long_side(grid) <= 499,
        0 <= angle < FULL_TURN,
        1000 <= px <= grid.width_spec() * 1000 - 1000,
        1000 <= py <= grid.height_spec() * 1000 - 1000,
    ensures
        ({
            let m = march_stop_dist(grid, px, py, angle, STEP as int);
            &&& STEP <= m < DIST_CAP
            &&& grid.wall_at(ray_x_spec(px, angle, m) / 1000, ray_y_spec(py, angle, m) / 1000)
        }),
{
    let w = grid.width_spec();
    let h = grid.height_spec();
    lemma_march_bounded(grid, px, py, angle);
    assert((STEP as int) % (STEP as int) == 0) by {
        vstd::arithmetic::div_mod::lemma_mod_self_0(STEP as int);
    }
    lemma_march_stops(grid, px, py, angle, STEP as int);
    let m = march_stop_dist(grid, px, py, angle, STEP as int);
    let x = ray_x_spec(px, angle, m);
    let y = ray_y_spec(py, angle, m);
    assert(stop_at(grid, px, py, angle, m));
    if !grid.wall_at(x / 1000, y / 1000) {
        // the stop must then be a box exit; find the cell probed one step
        // earlier, show it sits on the border, hence was a wall — so the
        // march would have stopped there already
        lemma_ray_step(px, py, angle, m);
        if m == STEP {
            assert(ray_x_spec(px, angle, 0) == px);
            assert(ray_y_spec(py, angle, 0) == py);
            assert(0 <= x < w * 1000);
            assert(0 <= y < h * 1000);
            assert(false);
        } else {
            let d0 = m - STEP;
            assert(d0 % (STEP as int) == 0) by {
                vstd::arithmetic::div_mod::lemma_mod_sub_multiples_vanish(m, STEP as int);
            }
            lemma_march_first(grid, px, py, angle, STEP as int, d0);
            let x0 = ray_x_spec(px, angle, d0);
            let y0 = ray_y_spec(py, angle, d0);
            assert(0 <= x0 < w * 1000);
            assert(0 <= y0 < h * 1000);
            vstd::arithmetic::div_mod::lemma_div_pos_is_pos(x0, 1000);
            vstd::arithmetic::div_mod::lemma_div_pos_is_pos(y0, 1000);
            assert(x0 / 1000 <= w - 1) by {
                vstd::arithmetic::div_mod::lemma_div_is_ordered(x0, w * 1000 - 1, 1000);
                lemma_cell_of_strip(w * 1000 - 1, w - 1);
            }
            assert(y0 / 1000 <= h - 1) by {
                vstd::arithmetic::div_mod::lemma_div_is_ordered(y0, h * 1000 - 1, 1000);
                lemma_cell_of_strip(h * 1000 - 1, h - 1);
            }
            if x >= w * 1000 {
                assert(x0 >= w * 1000 - 10);
                lemma_cell_of_strip(x0, w - 1);
                assert(grid.wall_at(w - 1, y0 / 1000));
            } else if x < 0 {
                assert(x0 <= 9);
                lemma_cell_of_strip(x0, 0);
                assert(grid.wall_at(0, y0 / 1000));
            } else if y >= h * 1000 {
                assert(y0 >= h * 1000 - 10);
                lemma_cell_of_strip(y0, h - 1);
                assert(grid.wall_at(x0 / 1000, h - 1));
            } else {
                assert(y < 0);
                assert(y0 <= 9);
                lemma_cell_of_strip(y0, 0);
                assert(grid.wall_at(x0 / 1000, 0));
            }
            assert(stop_at(grid, px, py, angle, d0));
            assert(false);
        }
    }
}

/// From an origin inside the bounding box of a moderately sized grid, the
/// fixed-step march always stops within twice the grid's longer side plus
/// one step — never by exhausting its distance budget. The constant is
/// twice the side rather than the diagonal because the fixed-point
/// direction vector can be as short as half a unit along either axis.
pub proof fn lemma_march_bounded(grid: Grid, px: int, py: int, angle: int)
    requires
        grid.wf(),
        grid_long_side(grid) <= 499,
        0 <= px <= grid.width_spec() * 1000,
        0 <= py <= grid.height_spec() * 1000,
        0 <= angle < FULL_TURN,
    ensures
        march_stop_dist(grid, px, py, angle, STEP as int) <= 2000 * grid_long_side(grid) + STEP,
        march_stop_dist(grid, px, py, angle, STEP as int) < DIST_CAP,
{
    let side = grid_long_side(grid);
    let b = 2000 * side + STEP;
    let s = sin_spec(angle);
    let c = cos_spec(angle);
    crate::trig::lemma_trig_dominant(angle);
    assert((b * 500) / 1000 == 1000 * side + 5) by {
        vstd::arithmetic::div_mod::lemma_div_multiples_vanish(1000 * side + 5, 1000);
        assert(b * 500 == 1000 * (1000 * side + 5));
    }
    assert((b * -500) / 1000 == -(1000 * side + 5)) by {
        vstd::arithmetic::div_mod::lemma_div_multiples_vanish(-(1000 * side + 5), 1000);
        assert(b * -500 == 1000 * (-(1000 * side + 5)));
    }
    if c >= 500 {
        assert(b * c >= b * 500) by (nonlinear_arith)
            requires
                c >= 500 && b >= 0,
        ;
        vstd::arithmetic::div_mod::lemma_div_is_ordered(b * 500, b * c, 1000);
        assert(ray_x_spec(px, angle, b) >= grid.width_spec() * 1000);
    } else if c <= -500 {
        assert(b * c <= b * -500) by (nonlinear_arith)
            requires
                c <= -500 && b >= 0,
        ;
        vstd::arithmetic::div_mod::lemma_div_is_ordered(b * c, b * -500, 1000);
        assert(ray_x_spec(px, angle, b) < 0);
    } else if s >= 500 {
        assert(b * s >= b * 500) by (nonlinear_arith)
            requires
                s >= 500 && b >= 0,
        ;
        vstd::arithmetic::div_mod::lemma_div_is_ordered(b * 500, b * s, 1000);
        assert(ray_y_spec(py, angle, b) >= grid.height_spec() * 1000);
    } else {
        assert(s <= -500);
        assert(b * s <= b * -500) by (nonlinear_arith)
            requires
                s <= -500 && b >= 0,
        ;
        vstd::arithmetic::div_mod::lemma_div_is_ordered(b * s, b * -500, 1000);
        assert(ray_y_spec(py, angle, b) < 0);
    }
    assert(stop_at(grid, px, py, angle, b));
    assert(b % (STEP as int) == 0) by {
        vstd::arithmetic::div_mod::lemma_mod_multiples_vanish(200 * side + 1, 0, STEP as int);
        assert(b == (STEP as int) * (200 * side + 1) + 0);
        vstd::arithmetic::div_mod::lemma_small_mod(0nat, STEP as nat);
    }
    vstd::arithmetic::div_mod::lemma_small_mod(0nat, STEP as nat);
    assert((STEP as int) % (STEP as int) == 0) by {
        vstd::arithmetic::div_mod::lemma_mod_self_0(STEP as int);
    }
    lemma_march_min(grid, px, py, angle, STEP as int, b);
}

} // verus!
