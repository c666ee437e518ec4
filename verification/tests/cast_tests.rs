use raycaster::dda::{cast_ray_dda, check_x, check_y};
use raycaster::grid::Grid;
use raycaster::ray::{cast_ray, DIST_CAP};

fn border_grid_6() -> Grid {
    let cells: Vec<i32> = vec![
        1, 1, 1, 1, 1, 1,
        1, 0, 0, 0, 0, 1,
        1, 0, 0, 0, 0, 1,
        1, 0, 0, 0, 0, 1,
        1, 0, 0, 0, 0, 1,
        1, 1, 1, 1, 1, 1,
    ];
    Grid::new(6, 6, cells).unwrap()
}

#[test]
fn golden_cast_straight_up_fixed_step() {
    // player at (3.0, 3.0), looking at 90 degrees: direction (0, +1);
    // the bottom border row begins two grid units away
    let g = border_grid_6();
    let hit = cast_ray(&g, 3_000, 3_000, 90_000);
    assert_eq!(hit.distance, 2_000);
    assert_eq!(hit.x, 3_000);
    assert_eq!(hit.y, 5_000);
}

#[test]
fn golden_cast_straight_up_grid_crossing() {
    let g = border_grid_6();
    let hit = cast_ray_dda(&g, 3_000, 3_000, 90_000);
    assert_eq!(hit.distance, 2_000);
    assert_eq!(hit.x, 3_000);
    assert_eq!(hit.y, 5_000);
}

#[test]
fn degenerate_angles_fixed_step() {
    // exactly horizontal and exactly vertical rays stay well-defined
    let g = border_grid_6();
    let right = cast_ray(&g, 3_000, 3_000, 0);
    assert_eq!(right.distance, 2_000);
    assert_eq!(right.x, 5_000);
    assert_eq!(right.y, 3_000);
    let up = cast_ray(&g, 3_000, 3_000, 90_000);
    assert_eq!(up.distance, 2_000);
    // leftward and downward the wall cell begins at coordinate 999, one
    // step past the 1000 boundary, so the march takes one extra step
    let left = cast_ray(&g, 3_000, 3_000, 180_000);
    assert_eq!(left.distance, 2_010);
    assert_eq!(left.x, 990);
    let down = cast_ray(&g, 3_000, 3_000, 270_000);
    assert_eq!(down.distance, 2_010);
    assert_eq!(down.y, 990);
}

#[test]
fn degenerate_angles_grid_crossing() {
    let g = border_grid_6();
    // a horizontal ray crosses no horizontal grid line: check_y misses
    let ry = check_y(&g, 3_000, 3_000, 0);
    assert_eq!(ry.distance, DIST_CAP);
    // but check_x finds the border wall two units to the right
    let rx = check_x(&g, 3_000, 3_000, 0);
    assert_eq!(rx.distance, 2_000);
    assert_eq!(rx.x, 5_000);
    assert_eq!(rx.y, 3_000);
    let combined = cast_ray_dda(&g, 3_000, 3_000, 0);
    assert_eq!(combined.distance, 2_000);
    // and symmetrically for a vertical ray
    let rx = check_x(&g, 3_000, 3_000, 90_000);
    assert_eq!(rx.distance, DIST_CAP);
    let ry = check_y(&g, 3_000, 3_000, 90_000);
    assert_eq!(ry.distance, 2_000);
}

#[test]
fn cast_from_outside_the_box_stops_immediately() {
    let g = border_grid_6();
    let hit = cast_ray(&g, -500_000, -500_000, 0);
    // the first step already lies outside the bounding box
    assert_eq!(hit.distance, 10);
    let miss = cast_ray_dda(&g, 20_000, 20_000, 45_000);
    assert_eq!(miss.distance, DIST_CAP);
}

#[test]
fn distances_agree_between_marchers_on_diagonals() {
    // both marchers must find a wall in the bordered grid, and the
    // fixed-step answer can only stop at multiples of one step
    let g = border_grid_6();
    let mut a: i64 = 0;
    while a < 360_000 {
        let fixed = cast_ray(&g, 3_500, 3_500, a);
        let dda = cast_ray_dda(&g, 3_500, 3_500, a);
        assert!(fixed.distance < DIST_CAP);
        assert!(dda.distance < DIST_CAP);
        assert_eq!(fixed.distance % 10, 0);
        // the two strategies bracket the same wall boundary
        let gap = (fixed.distance - dda.distance).abs();
        assert!(gap <= 30, "angle {}: fixed {} dda {}", a, fixed.distance, dda.distance);
        a += 7_000;
    }
}

#[test]
fn march_is_bounded_by_grid_size() {
    let g = border_grid_6();
    let mut a: i64 = 0;
    while a < 360_000 {
        let hit = cast_ray(&g, 1_500, 1_500, a);
        assert!(hit.distance <= 2_000 * 6 + 10);
        // from inside a bordered grid the march always ends on a wall cell
        assert!(hit.x >= 0 && hit.y >= 0);
        assert!(g.check_collision(hit.x / 1_000, hit.y / 1_000));
        a += 3_000;
    }
}
