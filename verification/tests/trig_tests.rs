use raycaster::trig::{cos_fp, norm_angle, sin_fp};

#[test]
fn sine_exact_at_cardinals() {
    assert_eq!(sin_fp(0), 0);
    assert_eq!(sin_fp(90_000), 1000);
    assert_eq!(sin_fp(180_000), 0);
    assert_eq!(sin_fp(270_000), -1000);
}

#[test]
fn cosine_exact_at_cardinals() {
    assert_eq!(cos_fp(0), 1000);
    assert_eq!(cos_fp(90_000), 0);
    assert_eq!(cos_fp(180_000), -1000);
    assert_eq!(cos_fp(270_000), 0);
}

#[test]
fn sine_exact_at_thirty_degrees() {
    assert_eq!(sin_fp(30_000), 500);
    assert_eq!(sin_fp(150_000), 500);
    assert_eq!(sin_fp(210_000), -500);
}

#[test]
fn sine_bounded_every_degree() {
    let mut a: i64 = 0;
    while a < 360_000 {
        let s = sin_fp(a);
        let c = cos_fp(a);
        assert!(-1000 <= s && s <= 1000);
        assert!(-1000 <= c && c <= 1000);
        // the direction vector never degenerates
        assert!(s.abs() >= 500 || c.abs() >= 500);
        a += 1000;
    }
}

#[test]
fn norm_angle_wraps_both_ways() {
    assert_eq!(norm_angle(-5_000), 355_000);
    assert_eq!(norm_angle(0), 0);
    assert_eq!(norm_angle(359_999), 359_999);
    assert_eq!(norm_angle(360_000), 0);
    assert_eq!(norm_angle(415_000), 55_000);
}
