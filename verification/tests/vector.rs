use blobbin::vector2::Vector2;

#[test]
fn new_keeps_the_components() {
    let v = Vector2::new(1.5, -2.0);
    assert_eq!(v.x, 1.5);
    assert_eq!(v.y, -2.0);
}

#[test]
fn from_pair_keeps_the_order() {
    let v: Vector2<i32> = (3, 4).into();
    assert_eq!(v.x, 3);
    assert_eq!(v.y, 4);
    let w = Vector2::from((0.5, 0.25));
    assert_eq!((w.x, w.y), (0.5, 0.25));
}

#[test]
fn default_is_the_zero_vector() {
    let v: Vector2<f64> = Vector2::default();
    assert_eq!((v.x, v.y), (0.0, 0.0));
}

#[test]
fn add_is_componentwise() {
    let v = Vector2::new(1.0, 2.0) + Vector2::new(10.0, 20.0);
    assert_eq!((v.x, v.y), (11.0, 22.0));
}

#[test]
fn sub_is_componentwise() {
    let v = Vector2::new(1.0, 2.0) - Vector2::new(10.0, 20.5);
    assert_eq!((v.x, v.y), (-9.0, -18.5));
}

#[test]
fn neg_flips_both_components() {
    let v = -Vector2::new(1.0, -2.0);
    assert_eq!((v.x, v.y), (-1.0, 2.0));
}

#[test]
fn mul_scales_both_components() {
    let v = Vector2::new(1.5, -2.0) * 4.0;
    assert_eq!((v.x, v.y), (6.0, -8.0));
}

#[test]
fn div_divides_both_components() {
    let v = Vector2::new(6.0, -8.0) / 4.0;
    assert_eq!((v.x, v.y), (1.5, -2.0));
}

#[test]
fn integer_vectors_use_integer_arithmetic() {
    let v = (Vector2::new(1i64, 2) + Vector2::new(10, 20)) * 3;
    assert_eq!((v.x, v.y), (33, 66));
    let w = Vector2::new(7i64, -7) / 2;
    assert_eq!((w.x, w.y), (3, -3));
}

#[test]
fn vector_to_points_from_target_to_self() {
    let a = Vector2::new(5.0, 1.0);
    let b = Vector2::new(2.0, 3.0);
    let v = a.vector_to(&b);
    assert_eq!((v.x, v.y), (3.0, -2.0));
    let w = b.vector_to(&a);
    assert_eq!((w.x, w.y), (-3.0, 2.0));
}

#[test]
fn magnitude_is_the_root_of_the_squares() {
    assert_eq!(Vector2::new(3.0, 4.0).magnitude(&f64::sqrt), 5.0);
    assert_eq!(Vector2::new(-3.0, 4.0).magnitude(&f64::sqrt), 5.0);
    assert_eq!(Vector2::new(0.0, 0.0).magnitude(&f64::sqrt), 0.0);
}

#[test]
fn magnitude_calls_the_given_root() {
    // With the identity in place of the root the result is the squared length.
    assert_eq!(Vector2::new(3.0, 4.0).magnitude(&|s: f64| s), 25.0);
}

#[test]
fn distance_is_the_magnitude_of_the_difference() {
    let a = Vector2::new(1.0, 1.0);
    let b = Vector2::new(4.0, 5.0);
    assert_eq!(a.distance(&b, &f64::sqrt), 5.0);
    assert_eq!(b.distance(&a, &f64::sqrt), 5.0);
    assert_eq!(a.distance(&a, &f64::sqrt), 0.0);
}

#[test]
fn normalized_divides_by_the_magnitude() {
    let n = Vector2::new(0.0, -8.0).normalized(&f64::sqrt);
    assert_eq!((n.x, n.y), (0.0, -1.0));
    let m = Vector2::new(3.0, 4.0).normalized(&f64::sqrt);
    assert_eq!((m.x, m.y), (3.0 / 5.0, 4.0 / 5.0));
}

#[test]
fn normalized_zero_vector_is_not_a_number() {
    let n = Vector2::new(0.0, 0.0).normalized(&f64::sqrt);
    assert!(n.x.is_nan());
    assert!(n.y.is_nan());
}
