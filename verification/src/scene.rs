//! The scene composer: one frame becomes a list of drawable primitives in
//! fixed-point screen coordinates — a wall slice per screen column, the
//! minimap tiles, the player marker and one minimap line per cast ray.

use vstd::prelude::*;
use crate::dda::{cast_ray_dda, dda_result};
use crate::grid::Grid;
use crate::input::Player;
use crate::project::{
    corrected_distance, fisheye_spec, project_slice, slice_bottom_spec, slice_top_spec,
};
use crate::ray::{cast_ray, march_stop_dist, ray_x_spec, ray_y_spec, RayHit, DIST_CAP, STEP};
use crate::trig::{norm_angle, norm_spec, FULL_TURN, HALF_TURN};

verus! {

/// Screen width, in thousandths of a pixel.
pub const SCREEN_W: i64 = 1_280_000;

/// Screen height, in thousandths of a pixel.
pub const SCREEN_H: i64 = 960_000;

/// Screen columns, one ray each.
pub const NUM_RAYS: usize = 320;

/// Width of one wall slice: the screen width over the number of columns.
pub const SLICE_W: i64 = 4_000;

/// Minimap scale: thousandths of a pixel per thousandth of a grid unit.
pub const MAP_SCALE: i64 = 50;

/// Half the player marker's side, in thousandths of a pixel.
pub const MARKER_HALF: i64 = 2_000;

/// Width of a minimap ray line, in thousandths of a pixel.
pub const RAY_WIDTH: i64 = 1_000;

/// Symbolic colors; the renderer picks the actual shades.
#[derive(Clone, Copy, Debug, PartialEq, Eq, Structural)]
pub enum ColorTag {
    Background,
    Wall,
    MapWall,
    PlayerMarker,
    RayLine,
}

/// An axis-aligned filled rectangle in fixed-point screen coordinates.
#[derive(Clone, Copy, Debug, PartialEq, Eq, Structural)]
pub struct Rect {
    pub x1: i64,
    pub y1: i64,
    pub x2: i64,
    pub y2: i64,
    pub color: ColorTag,
}

/// A line segment in fixed-point screen coordinates.
#[derive(Clone, Copy, Debug, PartialEq, Eq, Structural)]
pub struct LineSeg {
    pub x1: i64,
    pub y1: i64,
    pub x2: i64,
    pub y2: i64,
    pub width: i64,
    pub color: ColorTag,
}

/// Which ray-marching strategy a frame is composed with.
#[derive(Clone, Copy, Debug, PartialEq, Eq, Structural)]
pub enum MarcherKind {
    FixedStep,
    GridCrossing,
}

/// The point and distance the chosen marcher reports for one ray.
pub open spec fn cast_spec(grid: Grid, px: int, py: int, angle: int, kind: MarcherKind) -> (
    int,
    int,
    int,
) {
    match kind {
        MarcherKind::FixedStep => {
            let d = march_stop_dist(grid, px, py, angle, STEP as int);
            (ray_x_spec(px, angle, d), ray_y_spec(py, angle, d), d)
        },
        MarcherKind::GridCrossing => dda_result(grid, px, py, angle),
    }
}

/// Casts one ray with the chosen strategy.
pub fn cast_with(grid: &Grid, px: i64, py: i64, angle: i64, kind: MarcherKind) -> (r: RayHit)
    requires
        grid.wf(),
        0 <= angle < FULL_TURN,
        -crate::fixed::POS_LIMIT <= px <= crate::fixed::POS_LIMIT,
        -crate::fixed::POS_LIMIT <= py <= crate::fixed::POS_LIMIT,
    ensures
        r.x == cast_spec(*grid, px as int, py as int, angle as int, kind).0,
        r.y == cast_spec(*grid, px as int, py as int, angle as int, kind).1,
        r.distance == cast_spec(*grid, px as int, py as int, angle as int, kind).2,
        0 <= r.distance <= DIST_CAP,
        -4_000_000_000_000 <= r.x <= 4_000_000_000_000,
        -4_000_000_000_000 <= r.y <= 4_000_000_000_000,
{
    match kind {
        MarcherKind::FixedStep => cast_ray(grid, px, py, angle),
        MarcherKind::GridCrossing => cast_ray_dda(grid, px, py, angle),
    }
}

/// Direction of the ray for screen column `i` of `n`: the fan of width
/// `fov` centered on the viewing direction, normalized.
pub open spec fn column_angle(pov: int, fov: int, i: int, n: int) -> int {
    norm_spec(pov - fov / 2 + fov * i / n)
}

/// Computes the ray angle for one screen column.
pub fn ray_angle_for(pov: i64, fov: i64, i: i64, n: i64) -> (r: i64)
    requires
        0 <= pov < FULL_TURN,
        0 < fov <= HALF_TURN,
        0 <= i < n <= 1_000_000,
    ensures
        r == column_angle(pov as int, fov as int, i as int, n as int),
        0 <= r < FULL_TURN,
{
    proof {
        assert(0 <= fov * i <= 180_000_000_000int) by (nonlinear_arith)
            requires
                0 < fov <= 180_000int && 0 <= i <= 1_000_000int,
        ;
        vstd::arithmetic::div_mod::lemma_div_pos_is_pos(fov * i as int, n as int);
        assert(fov * i <= fov * n) by (nonlinear_arith)
            requires
                0 < fov && 0 <= i <= n,
        ;
        vstd::arithmetic::div_mod::lemma_div_is_ordered(fov * i as int, fov * n as int, n as int);
        vstd::arithmetic::div_mod::lemma_div_multiples_vanish(fov as int, n as int);
        assert(n * fov == fov * n) by (nonlinear_arith);
    }
    let spread = (fov * i) / n;
    norm_angle(pov - fov / 2 + spread)
}

/// The fisheye-corrected distance of the ray for column `i`.
pub open spec fn column_distance(
    grid: Grid,
    p: Player,
    fov: int,
    kind: MarcherKind,
    i: int,
) -> int {
    let a = column_angle(p.pov as int, fov, i, NUM_RAYS as int);
    fisheye_spec(cast_spec(grid, p.x as int, p.y as int, a, kind).2, p.pov as int, a)
}

/// What the wall-slice rectangle of column `i` must be.
pub open spec fn slice_ok(grid: Grid, p: Player, fov: int, kind: MarcherKind, i: int, r: Rect) -> bool {
    let d = column_distance(grid, p, fov, kind, i);
    &&& r.x1 == i * SLICE_W
    &&& r.x2 == (i + 1) * SLICE_W
    &&& r.y1 == slice_top_spec(SCREEN_H as int, d)
    &&& r.y2 == slice_bottom_spec(SCREEN_H as int, d)
    &&& r.color == ColorTag::Wall
}

/// What a whole column of wall slices must be: one rectangle per screen
/// column, each fixed by the player, the grid and its own index alone.
pub open spec fn slices_ok(grid: Grid, p: Player, fov: int, kind: MarcherKind, s: Seq<Rect>) -> bool {
    &&& s.len() == NUM_RAYS
    &&& forall|i: int| 0 <= i < NUM_RAYS ==> slice_ok(grid, p, fov, kind, i, #[trigger] s[i])
}

/// Casts one ray per screen column and projects each hit into a wall-slice
/// rectangle.
pub fn wall_slices(grid: &Grid, p: &Player, fov: i64, kind: MarcherKind) -> (r: Vec<Rect>)
    requires
        grid.wf(),
        p.wf(),
        0 < fov <= HALF_TURN,
    ensures
        slices_ok(*grid, *p, fov as int, kind, r@),
{
    let mut out: Vec<Rect> = Vec::new();
    let mut i: usize = 0;
    while i < NUM_RAYS
        invariant
            grid.wf(),
            p.wf(),
            0 < fov <= HALF_TURN,
            0 <= i <= NUM_RAYS,
            out@.len() == i,
            forall|j: int| 0 <= j < i ==> slice_ok(*grid, *p, fov as int, kind, j, #[trigger] out@[j]),
        decreases NUM_RAYS - i,
    {
        let a = ray_angle_for(p.pov, fov, i as i64, NUM_RAYS as i64);
        let hit = cast_with(grid, p.x, p.y, a, kind);
        let d = corrected_distance(hit.distance, p.pov, a);
        let (top, bottom) = project_slice(SCREEN_H, d);
        let x1 = (i as i64) * SLICE_W;
        out.push(Rect { x1, y1: top, x2: x1 + SLICE_W, y2: bottom, color: ColorTag::Wall });
        i = i + 1;
    }
    out
}

/// The minimap tile of one wall cell.
pub open spec fn tile_rect(x: int, y: int) -> Rect {
    Rect {
        x1: (x * 50_000) as i64,
        y1: (y * 50_000) as i64,
        x2: (x * 50_000 + 50_000) as i64,
        y2: (y * 50_000 + 50_000) as i64,
        color: ColorTag::MapWall,
    }
}

/// Minimap tiles of row `y` from column `x` rightward: one tile per cell
/// holding exactly 1, in column order.
pub open spec fn row_tiles(grid: Grid, y: int, x: int) -> Seq<Rect>
    decreases grid.width_spec() - x,
{
    if x < 0 || x >= grid.width_spec() {
        Seq::empty()
    } else {
        let rest = row_tiles(grid, y, x + 1);
        if grid.cells_spec()[y * grid.width_spec() + x] == 1 {
            seq![tile_rect(x, y)] + rest
        } else {
            rest
        }
    }
}

/// Minimap tiles from row `y` downward, row-major.
pub open spec fn tiles_from(grid: Grid, y: int) -> Seq<Rect>
    decreases grid.height_spec() - y,
{
    if y < 0 || y >= grid.height_spec() {
        Seq::empty()
    } else {
        row_tiles(grid, y, 0) + tiles_from(grid, y + 1)
    }
}

/// Collects the minimap tile of every cell holding exactly 1, row-major.
pub fn minimap_tiles(grid: &Grid) -> (r: Vec<Rect>)
    requires
        grid.wf(),
    ensures
        r@ == tiles_from(*grid, 0),
{
    let mut out: Vec<Rect> = Vec::new();
    let height = grid.height();
    let width = grid.width();
    let mut y: usize = 0;
    proof {
        assert(out@ + tiles_from(*grid, 0) =~= tiles_from(*grid, 0));
    }
    while y < height
        invariant
            grid.wf(),
            height == grid.height_spec(),
            width == grid.width_spec(),
            0 <= y <= height,
            out@ + tiles_from(*grid, y as int) == tiles_from(*grid, 0),
        decreases height - y,
    {
        let mut x: usize = 0;
        proof {
            assert(tiles_from(*grid, y as int) == row_tiles(*grid, y as int, 0) + tiles_from(
                *grid,
                y as int + 1,
            ));
            assert(out@ + (row_tiles(*grid, y as int, 0) + tiles_from(*grid, y as int + 1)) =~= (out@
                + row_tiles(*grid, y as int, 0)) + tiles_from(*grid, y as int + 1));
        }
        while x < width
            invariant
                grid.wf(),
                height == grid.height_spec(),
                width == grid.width_spec(),
                0 <= y < height,
                0 <= x <= width,
                (out@ + row_tiles(*grid, y as int, x as int)) + tiles_from(*grid, y as int + 1)
                    == tiles_from(*grid, 0),
            decreases width - x,
        {
            let v = grid.cell_at(x, y);
            proof {
                let g = *grid;
                let yy = y as int;
                let xx = x as int;
                if g.cells_spec()[yy * g.width_spec() + xx] == 1 {
                    assert(row_tiles(g, yy, xx) == seq![tile_rect(xx, yy)] + row_tiles(
                        g,
                        yy,
                        xx + 1,
                    ));
                    assert((out@ + (seq![tile_rect(xx, yy)] + row_tiles(g, yy, xx + 1))) =~= ((out@
                        + seq![tile_rect(xx, yy)]) + row_tiles(g, yy, xx + 1)));
                    assert(out@.push(tile_rect(xx, yy)) =~= out@ + seq![tile_rect(xx, yy)]);
                }
            }
            if v == 1 {
                out.push(
                    Rect {
                        x1: (x as i64) * 50_000,
                        y1: (y as i64) * 50_000,
                        x2: (x as i64) * 50_000 + 50_000,
                        y2: (y as i64) * 50_000 + 50_000,
                        color: ColorTag::MapWall,
                    },
                );
                proof {
                    assert(out@[out@.len() - 1] == tile_rect(x as int, y as int));
                }
            }
            x = x + 1;
        }
        proof {
            assert(row_tiles(*grid, y as int, width as int) =~= Seq::<Rect>::empty());
            assert((out@ + Seq::<Rect>::empty()) =~= out@);
        }
        y = y + 1;
    }
    proof {
        assert(tiles_from(*grid, height as int) =~= Seq::<Rect>::empty());
        assert((out@ + Seq::<Rect>::empty()) =~= out@);
    }
    out
}

/// The player's minimap marker.
pub open spec fn marker_rect(p: Player) -> Rect {
    Rect {
        x1: (p.x * MAP_SCALE - MARKER_HALF) as i64,
        y1: (p.y * MAP_SCALE - MARKER_HALF) as i64,
        x2: (p.x * MAP_SCALE + MARKER_HALF) as i64,
        y2: (p.y * MAP_SCALE + MARKER_HALF) as i64,
        color: ColorTag::PlayerMarker,
    }
}

/// Builds the player's minimap marker.
pub fn player_marker(p: &Player) -> (r: Rect)
    requires
        p.wf(),
    ensures
        r == marker_rect(*p),
{
    Rect {
        x1: p.x * MAP_SCALE - MARKER_HALF,
        y1: p.y * MAP_SCALE - MARKER_HALF,
        x2: p.x * MAP_SCALE + MARKER_HALF,
        y2: p.y * MAP_SCALE + MARKER_HALF,
        color: ColorTag::PlayerMarker,
    }
}

/// What the minimap ray line of column `i` must be: from the player's
/// marker position to the scaled hit point of that column's ray.
pub open spec fn ray_line_ok(
    grid: Grid,
    p: Player,
    fov: int,
    kind: MarcherKind,
    i: int,
    r: LineSeg,
) -> bool {
    let a = column_angle(p.pov as int, fov, i, NUM_RAYS as int);
    let hit = cast_spec(grid, p.x as int, p.y as int, a, kind);
    &&& r.x1 == p.x * MAP_SCALE
    &&& r.y1 == p.y * MAP_SCALE
    &&& r.x2 == hit.0 * MAP_SCALE
    &&& r.y2 == hit.1 * MAP_SCALE
    &&& r.width == RAY_WIDTH
    &&& r.color == ColorTag::RayLine
}

/// Casts one ray per column and draws each on the minimap.
pub fn ray_lines(grid: &Grid, p: &Player, fov: i64, kind: MarcherKind) -> (r: Vec<LineSeg>)
    requires
        grid.wf(),
        p.wf(),
        0 < fov <= HALF_TURN,
    ensures
        r@.len() == NUM_RAYS,
        forall|i: int|
            0 <= i < NUM_RAYS ==> ray_line_ok(*grid, *p, fov as int, kind, i, #[trigger] r@[i]),
{
    let mut out: Vec<LineSeg> = Vec::new();
    let mut i: usize = 0;
    while i < NUM_RAYS
        invariant
            grid.wf(),
            p.wf(),
            0 < fov <= HALF_TURN,
            0 <= i <= NUM_RAYS,
            out@.len() == i,
            forall|j: int|
                0 <= j < i ==> ray_line_ok(*grid, *p, fov as int, kind, j, #[trigger] out@[j]),
        decreases NUM_RAYS - i,
    {
        let a = ray_angle_for(p.pov, fov, i as i64, NUM_RAYS as i64);
        let hit = cast_with(grid, p.x, p.y, a, kind);
        proof {
            assert(-4_000_000_000_000_000int <= hit.x * MAP_SCALE <= 4_000_000_000_000_000int)
                by (nonlinear_arith)
                requires
                    -10_000_000_000_000int <= hit.x <= 10_000_000_000_000int && MAP_SCALE == 50,
            ;
            assert(-4_000_000_000_000_000int <= hit.y * MAP_SCALE <= 4_000_000_000_000_000int)
                by (nonlinear_arith)
                requires
                    -10_000_000_000_000int <= hit.y <= 10_000_000_000_000int && MAP_SCALE == 50,
            ;
        }
        out.push(
            LineSeg {
                x1: p.x * MAP_SCALE,
                y1: p.y * MAP_SCALE,
                x2: hit.x * MAP_SCALE,
                y2: hit.y * MAP_SCALE,
                width: RAY_WIDTH,
                color: ColorTag::RayLine,
            },
        );
        i = i + 1;
    }
    out
}

/// One composed frame: the primitives the renderer draws, in order.
pub struct Frame {
    pub background: ColorTag,
    pub slices: Vec<Rect>,
    pub tiles: Vec<Rect>,
    pub marker: Rect,
    pub rays: Vec<LineSeg>,
}

/// Composes a whole frame: wall slices, minimap tiles, player marker and
/// minimap ray lines.
pub fn compose_frame(grid: &Grid, p: &Player, fov: i64, kind: MarcherKind) -> (r: Frame)
    requires
        grid.wf(),
        p.wf(),
        0 < fov <= HALF_TURN,
    ensures
        r.background == ColorTag::Background,
        slices_ok(*grid, *p, fov as int, kind, r.slices@),
        r.tiles@ == tiles_from(*grid, 0),
        r.marker == marker_rect(*p),
        r.rays@.len() == NUM_RAYS,
        forall|i: int|
            0 <= i < NUM_RAYS ==> ray_line_ok(*grid, *p, fov as int, kind, i, #[trigger] r.rays@[i]),
{
    Frame {
        background: ColorTag::Background,
        slices: wall_slices(grid, p, fov, kind),
        tiles: minimap_tiles(grid),
        marker: player_marker(p),
        rays: ray_lines(grid, p, fov, kind),
    }
}

/// Each column's rectangle is a function of the shared, immutable state and
/// its own index alone, so any two schedules that fill the columns — one
/// thread or many, in any order — produce identical geometry.
pub proof fn lemma_columns_independent(
    grid: Grid,
    p: Player,
    fov: int,
    kind: MarcherKind,
    s1: Seq<Rect>,
    s2: Seq<Rect>,
)
    requires
        slices_ok(grid, p, fov, kind, s1),
        slices_ok(grid, p, fov, kind, s2),
    ensures
        s1 == s2,
{
    assert forall|i: int| 0 <= i < s1.len() implies s1[i] == s2[i] by {
        assert(slice_ok(grid, p, fov, kind, i, s1[i]));
        assert(slice_ok(grid, p, fov, kind, i, s2[i]));
    }
    assert(s1 =~= s2);
}

} // verus!
