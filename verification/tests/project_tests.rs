use raycaster::project::{corrected_distance, project_slice};
use raycaster::ray::DIST_CAP;

#[test]
fn fisheye_identity_along_view_direction() {
    assert_eq!(corrected_distance(1_234, 77_000, 77_000), 1_234);
    assert_eq!(corrected_distance(0, 0, 0), 0);
    assert_eq!(corrected_distance(DIST_CAP, 123_000, 123_000), DIST_CAP);
}

#[test]
fn fisheye_shortens_offset_rays() {
    // thirty degrees off axis: the fixed-point cosine is 864/1000
    assert_eq!(corrected_distance(2_000, 90_000, 60_000), 1_728);
    // the offset wraps correctly in the other direction too
    assert_eq!(corrected_distance(2_000, 60_000, 90_000), 1_728);
}

#[test]
fn projection_golden_values() {
    // distance 2.0 on a 960-pixel screen: slice from 120 to 840 pixels
    let (top, bottom) = project_slice(960_000, 2_000);
    assert_eq!(top, 120_000);
    assert_eq!(bottom, 840_000);
}

#[test]
fn projection_sentinel_is_a_sliver() {
    let (top, bottom) = project_slice(960_000, DIST_CAP);
    assert_eq!(top, 479_280);
    assert_eq!(bottom, 480_720);
    assert!(top < bottom);
}

#[test]
fn projection_clamps_tiny_distances() {
    assert_eq!(project_slice(960_000, 0), project_slice(960_000, 1));
    assert_eq!(project_slice(960_000, -5), project_slice(960_000, 1));
    let (top, bottom) = project_slice(960_000, 1);
    assert!(top < 0);
    assert!(bottom > 960_000);
}

#[test]
fn projection_is_monotone() {
    let mut prev_height: i64 = i64::MAX;
    let mut d: i64 = 100;
    while d <= 10_000 {
        let (top, bottom) = project_slice(960_000, d);
        let height = bottom - top;
        assert!(height < prev_height, "distance {}: height {}", d, height);
        prev_height = height;
        d += 100;
    }
}
