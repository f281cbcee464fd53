use blobbin::blob::Blob;
use blobbin::vector2::Vector2;

fn blob_at(x: f64, y: f64) -> Blob<f64> {
    Blob::new(0, 2.0, (x, y))
}

#[test]
fn new_blob_is_at_rest_at_its_position() {
    let blob: Blob<f64> = Blob::new(7, 1.5, (3.0, 4.0));
    assert_eq!(blob.id, 7);
    assert_eq!(blob.size, 1.5);
    assert_eq!((blob.position.x, blob.position.y), (3.0, 4.0));
    assert_eq!((blob.velocity.x, blob.velocity.y), (0.0, 0.0));
    assert_eq!((blob.acceleration.x, blob.acceleration.y), (0.0, 0.0));
}

#[test]
fn new_blob_takes_a_vector_as_position() {
    let blob: Blob<f64> = Blob::new(1, 1.0, Vector2::new(8.0, 9.0));
    assert_eq!((blob.position.x, blob.position.y), (8.0, 9.0));
}

#[test]
fn default_blob_is_all_zero() {
    let blob: Blob<f64> = Blob::default();
    assert_eq!(blob.id, 0);
    assert_eq!(blob.size, 0.0);
    assert_eq!((blob.position.x, blob.position.y), (0.0, 0.0));
    assert_eq!((blob.velocity.x, blob.velocity.y), (0.0, 0.0));
    assert_eq!((blob.acceleration.x, blob.acceleration.y), (0.0, 0.0));
}

#[test]
fn contains_point_includes_the_borders() {
    let blob = blob_at(10.0, 20.0);
    assert!(blob.contains_point(&Vector2::new(10.0, 20.0)));
    assert!(blob.contains_point(&Vector2::new(12.0, 22.0)));
    assert!(blob.contains_point(&Vector2::new(11.0, 21.0)));
    assert!(blob.contains_point(&Vector2::new(10.0, 22.0)));
}

#[test]
fn contains_point_excludes_what_lies_outside() {
    let blob = blob_at(10.0, 20.0);
    assert!(!blob.contains_point(&Vector2::new(9.99, 21.0)));
    assert!(!blob.contains_point(&Vector2::new(12.01, 21.0)));
    assert!(!blob.contains_point(&Vector2::new(11.0, 19.99)));
    assert!(!blob.contains_point(&Vector2::new(11.0, 22.01)));
}

#[test]
fn contains_point_tests_a_square_not_a_disc() {
    // The corner of the square is farther from the centre than the radius.
    let blob = blob_at(0.0, 0.0);
    assert!(blob.contains_point(&Vector2::new(2.0, 2.0)));
    assert!(blob.contains_point(&Vector2::new(0.0, 2.0)));
}

#[test]
fn apply_force_adds_force_times_time() {
    let mut blob = blob_at(0.0, 0.0);
    blob.acceleration = Vector2::new(1.0, 1.0);
    blob.apply_force(Vector2::new(4.0, -8.0), 0.5);
    assert_eq!((blob.acceleration.x, blob.acceleration.y), (3.0, -3.0));
    assert_eq!((blob.velocity.x, blob.velocity.y), (0.0, 0.0));
}

#[test]
fn apply_forces_adds_each_in_turn() {
    let mut blob = blob_at(0.0, 0.0);
    let forces = vec![Vector2::new(1.0, 0.0), Vector2::new(0.0, 2.0), Vector2::new(-4.0, 0.0)];
    blob.apply_forces(&forces, 2.0);
    assert_eq!((blob.acceleration.x, blob.acceleration.y), (-6.0, 4.0));
    blob.apply_forces(&Vec::new(), 2.0);
    assert_eq!((blob.acceleration.x, blob.acceleration.y), (-6.0, 4.0));
}

#[test]
fn reflect_flips_at_the_near_wall() {
    let mut blob = blob_at(0.0, 5.0);
    blob.velocity = Vector2::new(-1.0, 3.0);
    blob.reflect(Vector2::new(100.0, 100.0));
    assert_eq!((blob.velocity.x, blob.velocity.y), (1.0, 3.0));
    assert_eq!((blob.position.x, blob.position.y), (0.0, 5.0));
}

#[test]
fn reflect_flips_past_the_far_wall() {
    let mut blob = blob_at(50.0, 98.5);
    blob.velocity = Vector2::new(2.0, 3.0);
    blob.reflect(Vector2::new(100.0, 100.0));
    assert_eq!((blob.velocity.x, blob.velocity.y), (2.0, -3.0));
}

#[test]
fn reflect_leaves_a_blob_that_just_touches_the_far_wall() {
    // position + size == limit is not beyond the wall.
    let mut blob = blob_at(98.0, 98.0);
    blob.velocity = Vector2::new(2.0, 3.0);
    blob.reflect(Vector2::new(100.0, 100.0));
    assert_eq!((blob.velocity.x, blob.velocity.y), (2.0, 3.0));
}

#[test]
fn reflect_flips_even_a_velocity_that_points_inward() {
    let mut blob = blob_at(-1.0, 5.0);
    blob.velocity = Vector2::new(4.0, 0.0);
    blob.reflect(Vector2::new(100.0, 100.0));
    assert_eq!(blob.velocity.x, -4.0);
}

#[test]
fn apply_friction_divides_the_acceleration() {
    let mut blob = blob_at(0.0, 0.0);
    blob.acceleration = Vector2::new(6.0, -3.0);
    blob.apply_friction(4.0, 0.5);
    assert_eq!((blob.acceleration.x, blob.acceleration.y), (3.0, -1.5));
}

#[test]
fn apply_friction_of_zero_is_not_finite() {
    let mut blob = blob_at(0.0, 0.0);
    blob.acceleration = Vector2::new(6.0, 0.0);
    blob.apply_friction(0.0, 0.5);
    assert!(blob.acceleration.x.is_infinite());
    assert!(blob.acceleration.y.is_nan());
}

#[test]
fn integrate_moves_by_the_new_velocity() {
    let mut blob = blob_at(10.0, 10.0);
    blob.velocity = Vector2::new(1.0, 0.0);
    blob.acceleration = Vector2::new(2.0, -4.0);
    blob.integrate(0.5);
    assert_eq!((blob.velocity.x, blob.velocity.y), (2.0, -2.0));
    assert_eq!((blob.position.x, blob.position.y), (11.0, 9.0));
    assert_eq!((blob.acceleration.x, blob.acceleration.y), (2.0, -4.0));
}

#[test]
fn confine_clamps_each_axis() {
    let mut blob = blob_at(-3.0, 120.0);
    blob.velocity = Vector2::new(1.0, 1.0);
    blob.confine(Vector2::new(100.0, 50.0));
    assert_eq!((blob.position.x, blob.position.y), (0.0, 50.0));
    assert_eq!((blob.velocity.x, blob.velocity.y), (1.0, 1.0));
    let mut inside = blob_at(100.0, 0.0);
    inside.confine(Vector2::new(100.0, 50.0));
    assert_eq!((inside.position.x, inside.position.y), (100.0, 0.0));
}

#[test]
fn step_runs_the_stages_in_order() {
    // Forces, then the wall test, then friction, then the motion, then the clamp.
    let mut blob = blob_at(0.0, 99.0);
    blob.velocity = Vector2::new(-1.0, 2.0);
    blob.acceleration = Vector2::new(1.0, 0.0);
    let forces = vec![Vector2::new(3.0, -8.0)];
    blob.step(&forces, 0.5, 4.0, Vector2::new(100.0, 100.0));
    // acceleration: (1, 0) + (3, -8) * 0.5 = (2.5, -4); divided by 4 * 0.5: (1.25, -2)
    assert_eq!((blob.acceleration.x, blob.acceleration.y), (1.25, -2.0));
    // velocity: flipped on both axes to (1, -2), plus (1.25, -2) * 0.5
    assert_eq!((blob.velocity.x, blob.velocity.y), (1.625, -3.0));
    // position: (0, 99) + (1.625, -3) * 0.5
    assert_eq!((blob.position.x, blob.position.y), (0.8125, 97.5));
}

#[test]
fn step_clamps_a_blob_that_leaves_the_arena() {
    let mut blob = blob_at(5.0, 5.0);
    blob.velocity = Vector2::new(-50.0, 500.0);
    blob.step(&Vec::new(), 1.0, 1.0, Vector2::new(100.0, 100.0));
    assert_eq!((blob.position.x, blob.position.y), (0.0, 100.0));
    assert_eq!((blob.velocity.x, blob.velocity.y), (-50.0, 500.0));
}
