//! The grid-line-crossing ray stepper: instead of marching in small fixed
//! increments, it jumps straight to successive horizontal grid-line
//! crossings (`check_y`) and vertical ones (`check_x`), tests the cell
//! entered at each crossing, and takes the nearer of the two sub-results.
//!
//! A ray exactly parallel to the grid lines of one family never crosses
//! them: that sub-stepper reports the sentinel instead of dividing by the
//! vanished trigonometric component. A crossing whose cell lies outside the
//! grid ends that sub-stepper with the sentinel, as does a hit farther than
//! the distance budget.

use vstd::prelude::*;
use crate::fixed::{div_floor, POS_LIMIT};
use crate::grid::Grid;
use crate::ray::{RayHit, DIST_CAP};
use crate::trig::{cos_fp, cos_spec, sin_fp, sin_spec, FULL_TURN};

verus! {

/// Absolute value.
pub open spec fn iabs(v: int) -> int {
    if v < 0 {
        -v
    } else {
        v
    }
}

/// Whether the ray's y component points toward larger y.
pub open spec fn ray_up(angle: int) -> bool {
    sin_spec(angle) > 0
}

/// Whether the ray's x component points toward larger x.
pub open spec fn ray_right(angle: int) -> bool {
    cos_spec(angle) > 0
}

/// Y coordinate of the k-th horizontal grid-line crossing.
pub open spec fn ycross_y(py: int, angle: int, k: int) -> int {
    if ray_up(angle) {
        (py / 1000 + 1 + k) * 1000
    } else {
        (py / 1000 - k) * 1000
    }
}

/// Row of the cell entered at the k-th horizontal crossing.
pub open spec fn ycross_row(py: int, angle: int, k: int) -> int {
    if ray_up(angle) {
        py / 1000 + 1 + k
    } else {
        py / 1000 - 1 - k
    }
}

/// Magnitude of the y displacement to the k-th horizontal crossing.
pub open spec fn ycross_m(py: int, angle: int, k: int) -> int {
    if ray_up(angle) {
        ycross_y(py, angle, k) - py
    } else {
        py - ycross_y(py, angle, k)
    }
}

/// X coordinate of the k-th horizontal crossing.
pub open spec fn ycross_x(px: int, py: int, angle: int, k: int) -> int {
    px + ycross_m(py, angle, k) * cos_spec(angle) / iabs(sin_spec(angle))
}

/// Ray distance to the k-th horizontal crossing.
pub open spec fn ycross_dist(py: int, angle: int, k: int) -> int {
    ycross_m(py, angle, k) * 1000 / iabs(sin_spec(angle))
}

/// Whether the cell entered at the k-th horizontal crossing is inside the grid.
pub open spec fn ycross_cell_in(grid: Grid, px: int, py: int, angle: int, k: int) -> bool {
    &&& 0 <= ycross_x(px, py, angle, k) / 1000 < grid.width_spec()
    &&& 0 <= ycross_row(py, angle, k) < grid.height_spec()
}

/// Whether the cell entered at the k-th horizontal crossing is a wall.
pub open spec fn ycross_hit(grid: Grid, px: int, py: int, angle: int, k: int) -> bool {
    grid.wall_at(ycross_x(px, py, angle, k) / 1000, ycross_row(py, angle, k))
}

/// Index of the first horizontal crossing, from `k` on with `n` crossings
/// left in the budget, whose cell is a wall; `None` once a crossing leaves
/// the grid or the budget runs out.
pub open spec fn ycross_search(grid: Grid, px: int, py: int, angle: int, k: int, n: nat) -> Option<
    int,
>
    decreases n,
{
    if n == 0 {
        None
    } else if !ycross_cell_in(grid, px, py, angle, k) {
        None
    } else if ycross_hit(grid, px, py, angle, k) {
        Some(k)
    } else {
        ycross_search(grid, px, py, angle, k + 1, (n - 1) as nat)
    }
}

/// The point and distance `check_y` answers: the first wall cell entered at
/// a horizontal crossing, or the origin with the sentinel distance.
pub open spec fn ycheck_result(grid: Grid, px: int, py: int, angle: int) -> (int, int, int) {
    if sin_spec(angle) == 0 {
        (px, py, DIST_CAP as int)
    } else {
        match ycross_search(grid, px, py, angle, 0, (grid.height_spec() + 2) as nat) {
            Option::None => (px, py, DIST_CAP as int),
            Option::Some(k) => if ycross_dist(py, angle, k) >= DIST_CAP {
                (px, py, DIST_CAP as int)
            } else {
                (ycross_x(px, py, angle, k), ycross_y(py, angle, k), ycross_dist(py, angle, k))
            },
        }
    }
}

/// Steps the ray to successive horizontal grid-line crossings and returns
/// the first wall hit among them, or the sentinel distance when the ray is
/// horizontal, leaves the grid, or exhausts the crossing budget.
pub fn check_y(grid: &Grid, px: i64, py: i64, angle: i64) -> (r: RayHit)
    requires
        grid.wf(),
        0 <= angle < FULL_TURN,
        -POS_LIMIT <= px <= POS_LIMIT,
        -POS_LIMIT <= py <= POS_LIMIT,
    ensures
        r.x == ycheck_result(*grid, px as int, py as int, angle as int).0,
        r.y == ycheck_result(*grid, px as int, py as int, angle as int).1,
        r.distance == ycheck_result(*grid, px as int, py as int, angle as int).2,
        0 <= r.distance <= DIST_CAP,
        -4_000_000_000_000 <= r.x <= 4_000_000_000_000,
        -4_000_000_000_000 <= r.y <= 4_000_000_000_000,
{
    let s = sin_fp(angle);
    let c = cos_fp(angle);
    if s == 0 {
        return RayHit { x: px, y: py, distance: DIST_CAP };
    }
    let up = s > 0;
    let sabs = if s > 0 { s } else { -s };
    let base = div_floor(py, 1000);
    let cap: i64 = (grid.height() as i64) + 2;
    let ghost n_total: nat = (grid.height_spec() + 2) as nat;
    let mut k: i64 = 0;
    loop
        invariant
            grid.wf(),
            0 <= angle < FULL_TURN,
            -POS_LIMIT <= px <= POS_LIMIT,
            -POS_LIMIT <= py <= POS_LIMIT,
            s == sin_spec(angle as int),
            c == cos_spec(angle as int),
            s != 0,
            -1000 <= s <= 1000,
            -1000 <= c <= 1000,
            up == ray_up(angle as int),
            sabs == iabs(s as int),
            1 <= sabs <= 1000,
            base == py as int / 1000,
            cap == grid.height_spec() + 2,
            n_total == (grid.height_spec() + 2) as nat,
            0 <= k <= cap,
            ycross_search(*grid, px as int, py as int, angle as int, 0, n_total)
                == ycross_search(
                *grid,
                px as int,
                py as int,
                angle as int,
                k as int,
                (n_total - k) as nat,
            ),
        decreases cap - k,
    {
        if k == cap {
            return RayHit { x: px, y: py, distance: DIST_CAP };
        }
        let row: i64 = if up { base + 1 + k } else { base - 1 - k };
        let yk: i64 = if up { (base + 1 + k) * 1000 } else { (base - k) * 1000 };
        let m: i64 = if up { yk - py } else { py - yk };
        proof {
            assert(yk == ycross_y(py as int, angle as int, k as int));
            assert(m == ycross_m(py as int, angle as int, k as int));
            assert(0 <= m <= 3_000_000_000int);
            assert(-3_000_000_000_000int <= m * c <= 3_000_000_000_000int) by (nonlinear_arith)
                requires
                    0 <= m <= 3_000_000_000int && -1000 <= c <= 1000,
            ;
        }
        let xk: i64 = px + div_floor(m * c, sabs);
        let col: i64 = div_floor(xk, 1000);
        if col < 0 || col >= grid.width() as i64 || row < 0 || row >= grid.height() as i64 {
            proof {
                assert(!ycross_cell_in(*grid, px as int, py as int, angle as int, k as int));
            }
            return RayHit { x: px, y: py, distance: DIST_CAP };
        }
        if grid.check_collision(col, row) {
            proof {
                assert(ycross_hit(*grid, px as int, py as int, angle as int, k as int));
                assert(ycross_search(
                    *grid,
                    px as int,
                    py as int,
                    angle as int,
                    k as int,
                    (n_total - k) as nat,
                ) == Some(k as int));
            }
            let dist: i64 = (m * 1000) / sabs;
            if dist >= DIST_CAP {
                return RayHit { x: px, y: py, distance: DIST_CAP };
            }
            return RayHit { x: xk, y: yk, distance: dist };
        }
        proof {
            assert(ycross_search(
                *grid,
                px as int,
                py as int,
                angle as int,
                k as int,
                (n_total - k) as nat,
            ) == ycross_search(
                *grid,
                px as int,
                py as int,
                angle as int,
                k as int + 1,
                (n_total - k - 1) as nat,
            ));
        }
        k = k + 1;
    }
}

/// X coordinate of the k-th vertical grid-line crossing.
pub open spec fn xcross_x(px: int, angle: int, k: int) -> int {
    if ray_right(angle) {
        (px / 1000 + 1 + k) * 1000
    } else {
        (px / 1000 - k) * 1000
    }
}

/// Column of the cell entered at the k-th vertical crossing.
pub open spec fn xcross_col(px: int, angle: int, k: int) -> int {
    if ray_right(angle) {
        px / 1000 + 1 + k
    } else {
        px / 1000 - 1 - k
    }
}

/// Magnitude of the x displacement to the k-th vertical crossing.
pub open spec fn xcross_m(px: int, angle: int, k: int) -> int {
    if ray_right(angle) {
        xcross_x(px, angle, k) - px
    } else {
        px - xcross_x(px, angle, k)
    }
}

/// Y coordinate of the k-th vertical crossing.
pub open spec fn xcross_y(px: int, py: int, angle: int, k: int) -> int {
    py + xcross_m(px, angle, k) * sin_spec(angle) / iabs(cos_spec(angle))
}

/// Ray distance to the k-th vertical crossing.
pub open spec fn xcross_dist(px: int, angle: int, k: int) -> int {
    xcross_m(px, angle, k) * 1000 / iabs(cos_spec(angle))
}

/// Whether the cell entered at the k-th vertical crossing is inside the grid.
pub open spec fn xcross_cell_in(grid: Grid, px: int, py: int, angle: int, k: int) -> bool {
    &&& 0 <= xcross_col(px, angle, k) < grid.width_spec()
    &&& 0 <= xcross_y(px, py, angle, k) / 1000 < grid.height_spec()
}

/// Whether the cell entered at the k-th vertical crossing is a wall.
pub open spec fn xcross_hit(grid: Grid, px: int, py: int, angle: int, k: int) -> bool {
    grid.wall_at(xcross_col(px, angle, k), xcross_y(px, py, angle, k) / 1000)
}

/// Index of the first vertical crossing, from `k` on with `n` crossings
/// left in the budget, whose cell is a wall; `None` once a crossing leaves
/// the grid or the budget runs out.
pub open spec fn xcross_search(grid: Grid, px: int, py: int, angle: int, k: int, n: nat) -> Option<
    int,
>
    decreases n,
{
    if n == 0 {
        None
    } else if !xcross_cell_in(grid, px, py, angle, k) {
        None
    } else if xcross_hit(grid, px, py, angle, k) {
        Some(k)
    } else {
        xcross_search(grid, px, py, angle, k + 1, (n - 1) as nat)
    }
}

/// The point and distance `check_x` answers: the first wall cell entered at
/// a vertical crossing, or the origin with the sentinel distance.
pub open spec fn xcheck_result(grid: Grid, px: int, py: int, angle: int) -> (int, int, int) {
    if cos_spec(angle) == 0 {
        (px, py, DIST_CAP as int)
    } else {
        match xcross_search(grid, px, py, angle, 0, (grid.width_spec() + 2) as nat) {
            Option::None => (px, py, DIST_CAP as int),
            Option::Some(k) => if xcross_dist(px, angle, k) >= DIST_CAP {
                (px, py, DIST_CAP as int)
            } else {
                (xcross_x(px, angle, k), xcross_y(px, py, angle, k), xcross_dist(px, angle, k))
            },
        }
    }
}

/// Steps the ray to successive vertical grid-line crossings and returns the
/// first wall hit among them, or the sentinel distance when the ray is
/// vertical, leaves the grid, or exhausts the crossing budget.
pub fn check_x(grid: &Grid, px: i64, py: i64, angle: i64) -> (r: RayHit)
    requires
        grid.wf(),
        0 <= angle < FULL_TURN,
        -POS_LIMIT <= px <= POS_LIMIT,
        -POS_LIMIT <= py <= POS_LIMIT,
    ensures
        r.x == xcheck_result(*grid, px as int, py as int, angle as int).0,
        r.y == xcheck_result(*grid, px as int, py as int, angle as int).1,
        r.distance == xcheck_result(*grid, px as int, py as int, angle as int).2,
        0 <= r.distance <= DIST_CAP,
        -4_000_000_000_000 <= r.x <= 4_000_000_000_000,
        -4_000_000_000_000 <= r.y <= 4_000_000_000_000,
{
    let s = sin_fp(angle);
    let c = cos_fp(angle);
    if c == 0 {
        return RayHit { x: px, y: py, distance: DIST_CAP };
    }
    let right = c > 0;
    let cabs = if c > 0 { c } else { -c };
    let base = div_floor(px, 1000);
    let cap: i64 = (grid.width() as i64) + 2;
    let ghost n_total: nat = (grid.width_spec() + 2) as nat;
    let mut k: i64 = 0;
    loop
        invariant
            grid.wf(),
            0 <= angle < FULL_TURN,
            -POS_LIMIT <= px <= POS_LIMIT,
            -POS_LIMIT <= py <= POS_LIMIT,
            s == sin_spec(angle as int),
            c == cos_spec(angle as int),
            c != 0,
            -1000 <= s <= 1000,
            -1000 <= c <= 1000,
            right == ray_right(angle as int),
            cabs == iabs(c as int),
            1 <= cabs <= 1000,
            base == px as int / 1000,
            cap == grid.width_spec() + 2,
            n_total == (grid.width_spec() + 2) as nat,
            0 <= k <= cap,
            xcross_search(*grid, px as int, py as int, angle as int, 0, n_total)
                == xcross_search(
                *grid,
                px as int,
                py as int,
                angle as int,
                k as int,
                (n_total - k) as nat,
            ),
        decreases cap - k,
    {
        if k == cap {
            return RayHit { x: px, y: py, distance: DIST_CAP };
        }
        let col: i64 = if right { base + 1 + k } else { base - 1 - k };
        let xk: i64 = if right { (base + 1 + k) * 1000 } else { (base - k) * 1000 };
        let m: i64 = if right { xk - px } else { px - xk };
        proof {
            assert(xk == xcross_x(px as int, angle as int, k as int));
            assert(m == xcross_m(px as int, angle as int, k as int));
            assert(0 <= m <= 3_000_000_000int);
            assert(-3_000_000_000_000int <= m * s <= 3_000_000_000_000int) by (nonlinear_arith)
                requires
                    0 <= m <= 3_000_000_000int && -1000 <= s <= 1000,
            ;
        }
        let yk: i64 = py + div_floor(m * s, cabs);
        let row: i64 = div_floor(yk, 1000);
        if col < 0 || col >= grid.width() as i64 || row < 0 || row >= grid.height() as i64 {
            proof {
                assert(!xcross_cell_in(*grid, px as int, py as int, angle as int, k as int));
            }
            return RayHit { x: px, y: py, distance: DIST_CAP };
        }
        if grid.check_collision(col, row) {
            proof {
                assert(xcross_hit(*grid, px as int, py as int, angle as int, k as int));
                assert(xcross_search(
                    *grid,
                    px as int,
                    py as int,
                    angle as int,
                    k as int,
                    (n_total - k) as nat,
                ) == Some(k as int));
            }
            let dist: i64 = (m * 1000) / cabs;
            if dist >= DIST_CAP {
                return RayHit { x: px, y: py, distance: DIST_CAP };
            }
            return RayHit { x: xk, y: yk, distance: dist };
        }
        proof {
            assert(xcross_search(
                *grid,
                px as int,
                py as int,
                angle as int,
                k as int,
                (n_total - k) as nat,
            ) == xcross_search(
                *grid,
                px as int,
                py as int,
                angle as int,
                k as int + 1,
                (n_total - k - 1) as nat,
            ));
        }
        k = k + 1;
    }
}

/// The nearer of the two sub-results for one cast: what the grid-crossing
/// caster returns.
pub open spec fn dda_result(grid: Grid, px: int, py: int, angle: int) -> (int, int, int) {
    let rx = xcheck_result(grid, px, py, angle);
    let ry = ycheck_result(grid, px, py, angle);
    if rx.2 <= ry.2 {
        rx
    } else {
        ry
    }
}

/// Casts a ray by grid-line crossings: the overall result is whichever of
/// the vertical and horizontal sub-steppers stops the ray nearer to its
/// origin; the sentinel distance means no wall was found.
pub fn cast_ray_dda(grid: &Grid, px: i64, py: i64, angle: i64) -> (r: RayHit)
    requires
        grid.wf(),
        0 <= angle < FULL_TURN,
        -POS_LIMIT <= px <= POS_LIMIT,
        -POS_LIMIT <= py <= POS_LIMIT,
    ensures
        r.x == dda_result(*grid, px as int, py as int, angle as int).0,
        r.y == dda_result(*grid, px as int, py as int, angle as int).1,
        r.distance == dda_result(*grid, px as int, py as int, angle as int).2,
        0 <= r.distance <= DIST_CAP,
        -4_000_000_000_000 <= r.x <= 4_000_000_000_000,
        -4_000_000_000_000 <= r.y <= 4_000_000_000_000,
{
    let rx = check_x(grid, px, py, angle);
    let ry = check_y(grid, px, py, angle);
    if rx.distance <= ry.distance {
        rx
    } else {
        ry
    }
}

} // verus!
