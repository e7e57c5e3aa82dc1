use rustics_2d::scalar::{SCALE, fmul, isqrt_u128, sat_add, sat_neg, sat_sub};
use rustics_2d::{M22, V2};

#[test]
fn it_works() {
    assert_eq!(2 + 2, 4);
}

#[test]
fn new_sets_components() {
    assert_eq!(V2::new(1_000_000, 2_000_000), V2 { x: 1_000_000, y: 2_000_000 });
}

#[test]
fn saturating_scalar_ops() {
    assert_eq!(sat_add(i64::MAX, 1), i64::MAX);
    assert_eq!(sat_add(i64::MIN, -1), i64::MIN);
    assert_eq!(sat_add(2, 3), 5);
    assert_eq!(sat_sub(i64::MIN, 1), i64::MIN);
    assert_eq!(sat_sub(7, 3), 4);
    assert_eq!(sat_neg(i64::MIN), i64::MAX);
    assert_eq!(sat_neg(5), -5);
}

#[test]
fn fixed_point_multiplication_truncates_toward_zero() {
    // 0.5 * 0.3 == 0.15
    assert_eq!(fmul(500_000, 300_000), 150_000);
    assert_eq!(fmul(-500_000, 300_000), -150_000);
    assert_eq!(fmul(500_000, -300_000), -150_000);
    assert_eq!(fmul(-500_000, -300_000), 150_000);
    // 1.0 is the multiplicative identity
    assert_eq!(fmul(123_456_789, SCALE), 123_456_789);
    assert_eq!(fmul(SCALE, -987_654_321), -987_654_321);
    // saturation instead of overflow
    assert_eq!(fmul(i64::MAX, i64::MAX), i64::MAX);
    assert_eq!(fmul(i64::MAX, i64::MIN), i64::MIN);
}

#[test]
fn integer_square_root() {
    assert_eq!(isqrt_u128(0), 0);
    assert_eq!(isqrt_u128(1), 1);
    assert_eq!(isqrt_u128(10), 3);
    assert_eq!(isqrt_u128(16), 4);
    assert_eq!(isqrt_u128(u128::MAX), u64::MAX);
}

#[test]
fn add_sub_neg_are_component_wise() {
    let a = V2::new(1_000_000, 2_000_000);
    let b = V2::new(2_000_000, 1_000_000);
    assert_eq!(a.add(&b), V2::new(3_000_000, 3_000_000));
    assert_eq!(a.sub(&b), V2::new(-1_000_000, 1_000_000));
    assert_eq!(a.neg(), V2::new(-1_000_000, -2_000_000));
}

#[test]
fn scale_multiplies_both_components() {
    let a = V2::new(1_000_000, -2_000_000);
    assert_eq!(a.scale(500_000), V2::new(500_000, -1_000_000));
}

#[test]
fn min_max_are_component_wise() {
    let a = V2::new(1_000_000, 2_000_000);
    let b = V2::new(2_000_000, 1_000_000);
    assert_eq!(V2::min(&a, &b), V2 { x: 1_000_000, y: 1_000_000 });
    assert_eq!(V2::max(&a, &b), V2 { x: 2_000_000, y: 2_000_000 });
}

#[test]
fn dot_product() {
    // (1, 2) . (2, 1) == 4
    let a = V2::new(1_000_000, 2_000_000);
    let b = V2::new(2_000_000, 1_000_000);
    assert_eq!(V2::dot(&a, &b), 4_000_000);
}

#[test]
fn cross_is_perp_dot() {
    // (1, 2) x (2, 1) == 1*1 - 2*2 == -3
    let a = V2::new(1_000_000, 2_000_000);
    let b = V2::new(2_000_000, 1_000_000);
    assert_eq!(V2::cross(&a, &b), -3_000_000);
    // anti-symmetry of the perp-dot form
    assert_eq!(V2::cross(&b, &a), 3_000_000);
    // parallel vectors have zero cross product
    let c = V2::new(2_000_000, 4_000_000);
    assert_eq!(V2::cross(&a, &c), 0);
}

#[test]
fn len_and_len_sq() {
    let v = V2::new(5_000_000, 5_000_000);
    // |(5,5)|^2 == 50
    assert_eq!(v.len_sq(), 50_000_000);
    // |(5,5)| == 7.071067...
    assert_eq!(v.len(), 7_071_067);
    assert_eq!(V2::new(3_000_000, 4_000_000).len(), 5_000_000);
    assert_eq!(V2::new(0, 0).len(), 0);
}

#[test]
fn norm_gives_a_unit_vector() {
    let mut v = V2::new(5_000_000, 5_000_000);
    v.norm();
    assert_eq!(v, V2::new(707_106, 707_106));
    // within truncation error of length 1.0
    assert_eq!(v.len(), 999_998);

    let mut w = V2::new(0, -3_000_000);
    w.norm();
    assert_eq!(w, V2::new(0, -SCALE));
}

#[test]
fn matrix_new_and_identity() {
    let m = M22::new(1, 2, 3, 4);
    assert_eq!(m, M22 { m11: 1, m12: 2, m21: 3, m22: 4 });
    assert_eq!(M22::identity(), M22 { m11: SCALE, m12: 0, m21: 0, m22: SCALE });
}
