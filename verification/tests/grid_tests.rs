use raycaster::grid::Grid;

fn border_grid_6() -> Grid {
    let cells: Vec<i32> = vec![
        1, 1, 1, 1, 1, 1,
        1, 0, 0, 0, 0, 1,
        1, 0, 0, 0, 0, 1,
        1, 0, 0, 0, 0, 1,
        1, 0, 0, 0, 0, 1,
        1, 1, 1, 1, 1, 1,
    ];
    Grid::new(6, 6, cells).unwrap()
}

#[test]
fn new_accepts_matching_dimensions() {
    let g = Grid::new(2, 3, vec![0, 1, 0, 1, 0, 1]);
    assert!(g.is_some());
    let g = g.unwrap();
    assert_eq!(g.width(), 2);
    assert_eq!(g.height(), 3);
}

#[test]
fn new_rejects_size_mismatch() {
    assert!(Grid::new(2, 3, vec![0, 1, 0]).is_none());
    assert!(Grid::new(0, 3, vec![]).is_none());
    assert!(Grid::new(3, 0, vec![]).is_none());
}

#[test]
fn collision_inside() {
    let g = border_grid_6();
    assert!(g.check_collision(0, 0));
    assert!(g.check_collision(5, 5));
    assert!(g.check_collision(3, 0));
    assert!(!g.check_collision(1, 1));
    assert!(!g.check_collision(4, 4));
}

#[test]
fn collision_false_outside_bounds() {
    let g = border_grid_6();
    assert!(!g.check_collision(-1, 0));
    assert!(!g.check_collision(0, -1));
    assert!(!g.check_collision(6, 0));
    assert!(!g.check_collision(0, 6));
    assert!(!g.check_collision(-100, -100));
    assert!(!g.check_collision(1000, 3));
    assert!(!g.check_collision(3, 1000));
}

#[test]
fn cell_values_are_read_back() {
    let g = Grid::new(3, 2, vec![0, 1, 2, 3, 0, 1]).unwrap();
    assert_eq!(g.cell_at(0, 0), 0);
    assert_eq!(g.cell_at(1, 0), 1);
    assert_eq!(g.cell_at(2, 0), 2);
    assert_eq!(g.cell_at(0, 1), 3);
    assert_eq!(g.cell_at(2, 1), 1);
    // a cell holding 2 is a wall for collisions, though not a minimap tile
    assert!(g.check_collision(2, 0));
}
