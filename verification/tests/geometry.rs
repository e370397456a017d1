use simple_fps::geometry::{cross, is_left, segment_intersection, Vec2};

fn v2(x: i64, y: i64) -> Vec2 {
    Vec2 { x, y }
}

#[test]
fn cross_product_values() {
    assert_eq!(cross(v2(1000, 0), v2(0, 1000)), 1000000);
    assert_eq!(cross(v2(0, 1000), v2(1000, 0)), -1000000);
    assert_eq!(cross(v2(3, 4), v2(3, 4)), 0);
}

#[test]
fn is_left_test() {
    assert!(is_left(v2(1000, 0), v2(0, 1)));
    assert!(!is_left(v2(1000, 0), v2(0, -1)));
    assert!(!is_left(v2(1000, 0), v2(500, 0)));
}

#[test]
fn segments_crossing_at_midpoint() {
    // A plus sign: the segments cross at the origin.
    let r = segment_intersection(v2(-1000, 0), v2(1000, 0), v2(0, -1000), v2(0, 1000));
    assert_eq!(r, Some(v2(0, 0)));
}

#[test]
fn segments_crossing_off_center() {
    let r = segment_intersection(v2(0, 0), v2(4000, 4000), v2(0, 4000), v2(4000, 0));
    assert_eq!(r, Some(v2(2000, 2000)));
}

#[test]
fn parallel_segments_do_not_intersect() {
    let r = segment_intersection(v2(0, 0), v2(1000, 0), v2(0, 500), v2(1000, 500));
    assert_eq!(r, None);
}

#[test]
fn disjoint_segments_do_not_intersect() {
    // The lines cross, but outside both segments.
    let r = segment_intersection(v2(0, 0), v2(1000, 0), v2(5000, -1000), v2(5000, 1000));
    assert_eq!(r, None);
}

#[test]
fn intersection_is_symmetric_in_the_segments() {
    let a = v2(-3000, -1000);
    let b = v2(2500, 4000);
    let c = v2(-1000, 3000);
    let d = v2(3000, -2000);
    let r1 = segment_intersection(a, b, c, d);
    let r2 = segment_intersection(c, d, a, b);
    assert!(r1.is_some());
    assert_eq!(r1, r2);
}

#[test]
fn touching_endpoints_intersect() {
    let r = segment_intersection(v2(0, 0), v2(1000, 1000), v2(1000, 1000), v2(2000, 0));
    assert_eq!(r, Some(v2(1000, 1000)));
}
