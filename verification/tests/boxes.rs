use rustics_2d::{BoundingBox, V2};

#[test]
fn smallest_is_the_empty_sentinel() {
    let b = BoundingBox::smallest();
    assert_eq!(b.min, V2::new(i64::MAX, i64::MAX));
    assert_eq!(b.max, V2::new(i64::MIN, i64::MIN));
}

#[test]
fn largest_covers_the_plane() {
    let b = BoundingBox::largest();
    assert_eq!(b.min, V2::new(i64::MIN, i64::MIN));
    assert_eq!(b.max, V2::new(i64::MAX, i64::MAX));
}

#[test]
fn contains_point_is_inclusive() {
    let b = BoundingBox::new(V2::new(-1_000_000, -1_000_000), V2::new(1_000_000, 1_000_000));
    assert!(b.contains_point(&V2::new(0, 0)));
    assert!(b.contains_point(&V2::new(1_000_000, -1_000_000)));
    assert!(!b.contains_point(&V2::new(1_000_001, 0)));
    assert!(!b.contains_point(&V2::new(0, -1_000_001)));
}

#[test]
fn contains_bbox_is_an_overlap_test() {
    let a = BoundingBox::new(V2::new(0, 0), V2::new(2_000_000, 2_000_000));
    let b = BoundingBox::new(V2::new(1_000_000, 1_000_000), V2::new(3_000_000, 3_000_000));
    let c = BoundingBox::new(V2::new(2_500_000, 0), V2::new(3_000_000, 2_000_000));
    // b overlaps a without being contained in it
    assert!(a.contains_bbox(&b));
    assert!(!a.contains_bbox(&c));
    // a huge box "contained" in a small one: overlap, not containment
    let small = BoundingBox::new(V2::new(0, 0), V2::new(1, 1));
    let huge = BoundingBox::largest();
    assert!(small.contains_bbox(&huge));
}

#[test]
fn contains_bbox_is_symmetric() {
    let a = BoundingBox::new(V2::new(0, 0), V2::new(2_000_000, 2_000_000));
    let b = BoundingBox::new(V2::new(1_000_000, 1_000_000), V2::new(3_000_000, 3_000_000));
    let c = BoundingBox::new(V2::new(2_500_000, 0), V2::new(3_000_000, 2_000_000));
    assert_eq!(a.contains_bbox(&b), b.contains_bbox(&a));
    assert_eq!(a.contains_bbox(&c), c.contains_bbox(&a));
}

#[test]
fn add_point_expands_and_seeds_from_the_sentinel() {
    let mut b = BoundingBox::smallest();
    b.add_point(V2::new(1_000_000, -2_000_000));
    assert_eq!(b.min, V2::new(1_000_000, -2_000_000));
    assert_eq!(b.max, V2::new(1_000_000, -2_000_000));
    b.add_point(V2::new(-1_000_000, 3_000_000));
    assert_eq!(b.min, V2::new(-1_000_000, -2_000_000));
    assert_eq!(b.max, V2::new(1_000_000, 3_000_000));
}

#[test]
fn add_point_inside_changes_nothing() {
    let mut b = BoundingBox::new(V2::new(-1_000_000, -1_000_000), V2::new(1_000_000, 1_000_000));
    let before = b;
    b.add_point(V2::new(500_000, -500_000));
    assert_eq!(b, before);
    // a boundary point is already inside
    b.add_point(V2::new(1_000_000, 1_000_000));
    assert_eq!(b, before);
}

#[test]
fn from_points_round_trip() {
    let points = vec![
        V2::new(1_000_000, 2_000_000),
        V2::new(5_000_000, -3_000_000),
        V2::new(0, 7_000_000),
    ];
    let b = BoundingBox::from_points(&points);
    assert_eq!(b.min, V2::new(0, -3_000_000));
    assert_eq!(b.max, V2::new(5_000_000, 7_000_000));
    for p in &points {
        assert!(b.contains_point(p));
    }
    let via_from = BoundingBox::from(points);
    assert_eq!(via_from, b);
}

#[test]
fn from_points_of_nothing_is_the_sentinel() {
    let b = BoundingBox::from_points(&vec![]);
    assert_eq!(b, BoundingBox::smallest());
}

#[test]
fn corners_come_counter_clockwise_from_top_left() {
    let b = BoundingBox::new(V2::new(-1_000_000, -2_000_000), V2::new(3_000_000, 4_000_000));
    let corners = b.get_corners();
    assert_eq!(corners.len(), 4);
    assert_eq!(corners[0], V2::new(-1_000_000, 4_000_000));
    assert_eq!(corners[1], V2::new(3_000_000, 4_000_000));
    assert_eq!(corners[2], V2::new(3_000_000, -2_000_000));
    assert_eq!(corners[3], V2::new(-1_000_000, -2_000_000));
}

#[test]
fn center_is_the_midpoint() {
    let b = BoundingBox::new(V2::new(-1_000_000, -2_000_000), V2::new(3_000_000, 6_000_000));
    assert_eq!(b.center(), V2::new(1_000_000, 2_000_000));
}
