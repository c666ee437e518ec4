use raycaster::grid::Grid;
use raycaster::input::Player;
use raycaster::project::{corrected_distance, project_slice};
use raycaster::scene::{
    compose_frame, minimap_tiles, player_marker, ray_angle_for, ray_lines, wall_slices, cast_with,
    ColorTag, MarcherKind, Rect, NUM_RAYS, SCREEN_H, SLICE_W,
};

fn border_grid_6() -> Grid {
    let cells: Vec<i32> = vec![
        1, 1, 1, 1, 1, 1,
        1, 0, 0, 0, 0, 1,
        1, 0, 0, 0, 0, 1,
        1, 0, 0, 0, 0, 1,
        1, 0, 0, 0, 0, 1,
        1, 1, 1, 1, 1, 1,
    ];
    Grid::new(6, 6, cells).unwrap()
}

fn player_center() -> Player {
    Player::new(3_000, 3_000, 90_000)
}

#[test]
fn wall_slices_cover_the_screen_in_order() {
    let g = border_grid_6();
    let p = player_center();
    let slices = wall_slices(&g, &p, 60_000, MarcherKind::FixedStep);
    assert_eq!(slices.len(), NUM_RAYS);
    for (i, r) in slices.iter().enumerate() {
        assert_eq!(r.x1, (i as i64) * SLICE_W);
        assert_eq!(r.x2, (i as i64 + 1) * SLICE_W);
        assert!(r.y1 <= r.y2);
        assert_eq!(r.color, ColorTag::Wall);
    }
}

#[test]
fn center_column_matches_golden_projection() {
    // column 160 of 320 looks exactly along the view: distance 2.0,
    // slice from 120 to 840 pixels
    let g = border_grid_6();
    let p = player_center();
    let slices = wall_slices(&g, &p, 60_000, MarcherKind::FixedStep);
    let r = &slices[160];
    assert_eq!(r.x1, 640_000);
    assert_eq!(r.y1, 120_000);
    assert_eq!(r.y2, 840_000);
}

#[test]
fn parallel_schedule_matches_sequential() {
    // recompute every column independently, in reverse order, and compare
    // bit for bit with the composed sequence
    let g = border_grid_6();
    let p = player_center();
    let fov: i64 = 60_000;
    for kind in [MarcherKind::FixedStep, MarcherKind::GridCrossing] {
        let seq_slices = wall_slices(&g, &p, fov, kind);
        let mut rev: Vec<Rect> = Vec::new();
        for i in (0..NUM_RAYS).rev() {
            let a = ray_angle_for(p.pov, fov, i as i64, NUM_RAYS as i64);
            let hit = cast_with(&g, p.x, p.y, a, kind);
            let d = corrected_distance(hit.distance, p.pov, a);
            let (top, bottom) = project_slice(SCREEN_H, d);
            let x1 = (i as i64) * SLICE_W;
            rev.push(Rect { x1, y1: top, x2: x1 + SLICE_W, y2: bottom, color: ColorTag::Wall });
        }
        rev.reverse();
        assert_eq!(seq_slices, rev);
        // and a second sequential run is bit-for-bit identical
        assert_eq!(seq_slices, wall_slices(&g, &p, fov, kind));
    }
}

#[test]
fn minimap_tiles_mark_only_ones() {
    let g = Grid::new(3, 2, vec![1, 0, 2, 0, 1, 0]).unwrap();
    let tiles = minimap_tiles(&g);
    // the cell holding 2 is a wall but not a minimap tile
    assert_eq!(tiles.len(), 2);
    assert_eq!(tiles[0].x1, 0);
    assert_eq!(tiles[0].y1, 0);
    assert_eq!(tiles[0].x2, 50_000);
    assert_eq!(tiles[0].y2, 50_000);
    assert_eq!(tiles[0].color, ColorTag::MapWall);
    assert_eq!(tiles[1].x1, 50_000);
    assert_eq!(tiles[1].y1, 50_000);
}

#[test]
fn minimap_of_border_grid_has_twenty_tiles() {
    let tiles = minimap_tiles(&border_grid_6());
    assert_eq!(tiles.len(), 20);
}

#[test]
fn marker_surrounds_the_player() {
    let r = player_marker(&player_center());
    assert_eq!(r.x1, 148_000);
    assert_eq!(r.y1, 148_000);
    assert_eq!(r.x2, 152_000);
    assert_eq!(r.y2, 152_000);
    assert_eq!(r.color, ColorTag::PlayerMarker);
}

#[test]
fn ray_lines_start_at_the_player() {
    let g = border_grid_6();
    let p = player_center();
    let lines = ray_lines(&g, &p, 60_000, MarcherKind::FixedStep);
    assert_eq!(lines.len(), NUM_RAYS);
    for l in lines.iter() {
        assert_eq!(l.x1, 150_000);
        assert_eq!(l.y1, 150_000);
        assert_eq!(l.width, 1_000);
        assert_eq!(l.color, ColorTag::RayLine);
    }
    // the center ray ends on the wall straight ahead
    assert_eq!(lines[160].x2, 150_000);
    assert_eq!(lines[160].y2, 250_000);
}

#[test]
fn composed_frame_carries_all_parts() {
    let g = border_grid_6();
    let p = player_center();
    let f = compose_frame(&g, &p, 60_000, MarcherKind::GridCrossing);
    assert_eq!(f.background, ColorTag::Background);
    assert_eq!(f.slices.len(), NUM_RAYS);
    assert_eq!(f.tiles.len(), 20);
    assert_eq!(f.rays.len(), NUM_RAYS);
    assert_eq!(f.marker, player_marker(&p));
}
