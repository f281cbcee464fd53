use blobbin::config::Config;
use blobbin::vector2::Vector2;
use blobbin::world::{repulsion, World};

fn config() -> Config<f64> {
    Config { blob_size: 1.0, repel_force: 2.0, repel_distance: 5.0, friction_force: 1.0 }
}

fn world() -> World<f64> {
    World::new(100, 100, Vector2::new(100.0, 100.0), config())
}

fn lift(n: usize) -> f64 {
    n as f64
}

#[test]
fn new_world_is_empty() {
    let w = world();
    assert_eq!(w.width, 100);
    assert_eq!(w.height, 100);
    assert_eq!((w.bounds.x, w.bounds.y), (100.0, 100.0));
    assert_eq!(w.config.blob_size, 1.0);
    assert!(w.blobs.is_empty());
}

#[test]
fn setters_change_one_constant_each_and_chain() {
    let mut w = world();
    w.blob_size(3.0).repel_force(4.0).repel_distance(5.5).friction_force(6.0);
    assert_eq!(w.config.blob_size, 3.0);
    assert_eq!(w.config.repel_force, 4.0);
    assert_eq!(w.config.repel_distance, 5.5);
    assert_eq!(w.config.friction_force, 6.0);
    w.repel_force(1.0);
    assert_eq!(w.config.blob_size, 3.0);
    assert_eq!(w.config.repel_force, 1.0);
    assert_eq!((w.width, w.height), (100, 100));
}

#[test]
fn add_blob_numbers_the_blobs_in_order() {
    let mut w = world();
    w.add_blob(1.0, 2.0);
    w.blob_size(7.0);
    w.add_blob(3.0, 4.0);
    assert_eq!(w.blobs.len(), 2);
    assert_eq!(w.blobs[0].id, 0);
    assert_eq!(w.blobs[1].id, 1);
    assert_eq!((w.blobs[0].position.x, w.blobs[0].position.y), (1.0, 2.0));
    assert_eq!((w.blobs[1].position.x, w.blobs[1].position.y), (3.0, 4.0));
    assert_eq!(w.blobs[0].size, 1.0);
    assert_eq!(w.blobs[1].size, 7.0);
    assert_eq!((w.blobs[1].velocity.x, w.blobs[1].velocity.y), (0.0, 0.0));
    assert_eq!((w.blobs[1].acceleration.x, w.blobs[1].acceleration.y), (0.0, 0.0));
}

#[test]
fn add_random_blob_lands_on_a_pixel_of_the_arena() {
    let mut w: World<f64> = World::new(7, 3, Vector2::new(7.0, 3.0), config());
    for _ in 0..200 {
        w.add_random_blob(&lift);
    }
    assert_eq!(w.blobs.len(), 200);
    for (index, blob) in w.blobs.iter().enumerate() {
        assert_eq!(blob.id, index);
        assert_eq!(blob.size, 1.0);
        assert!(blob.position.x >= 0.0 && blob.position.x < 7.0);
        assert!(blob.position.y >= 0.0 && blob.position.y < 3.0);
        assert_eq!(blob.position.x, blob.position.x.floor());
        assert_eq!(blob.position.y, blob.position.y.floor());
        assert_eq!((blob.velocity.x, blob.velocity.y), (0.0, 0.0));
    }
}

#[test]
fn add_random_blob_draws_more_than_one_pixel() {
    let mut w: World<f64> = World::new(1000, 1000, Vector2::new(1000.0, 1000.0), config());
    w.add_random_blobs(50, &lift);
    let first = (w.blobs[0].position.x, w.blobs[0].position.y);
    assert!(w.blobs.iter().any(|b| (b.position.x, b.position.y) != first));
}

#[test]
fn add_random_blob_in_a_one_pixel_arena_is_at_zero() {
    let mut w: World<f64> = World::new(1, 1, Vector2::new(1.0, 1.0), config());
    w.add_random_blob(&lift);
    assert_eq!((w.blobs[0].position.x, w.blobs[0].position.y), (0.0, 0.0));
}

#[test]
fn add_random_blobs_appends_count_blobs() {
    let mut w = world();
    w.add_blob(50.0, 50.0);
    w.add_random_blobs(10, &lift);
    assert_eq!(w.blobs.len(), 11);
    assert_eq!((w.blobs[0].position.x, w.blobs[0].position.y), (50.0, 50.0));
    for (index, blob) in w.blobs.iter().enumerate() {
        assert_eq!(blob.id, index);
    }
    w.add_random_blobs(0, &lift);
    assert_eq!(w.blobs.len(), 11);
}

#[test]
fn add_random_blobs_of_none_needs_no_arena() {
    let mut w: World<f64> = World::new(0, 0, Vector2::new(0.0, 0.0), config());
    w.add_random_blobs(0, &lift);
    assert!(w.blobs.is_empty());
}

#[test]
fn repulsion_in_range_has_the_direction_of_the_offset() {
    let c = config();
    let force = repulsion(Vector2::new(-2.0, 0.0), 2.0, &c).unwrap();
    assert_eq!((force.x, force.y), (-2.0, 0.0));
    let diagonal = repulsion(Vector2::new(3.0, 4.0), 5.0, &c).unwrap();
    assert_eq!((diagonal.x, diagonal.y), (2.0 * (3.0 / 5.0), 2.0 * (4.0 / 5.0)));
}

#[test]
fn repulsion_at_exactly_the_range_still_acts() {
    assert!(repulsion(Vector2::new(5.0, 0.0), 5.0, &config()).is_some());
}

#[test]
fn repulsion_beyond_the_range_is_none() {
    assert!(repulsion(Vector2::new(5.5, 0.0), 5.5, &config()).is_none());
    assert!(repulsion(Vector2::new(0.0, -100.0), 100.0, &config()).is_none());
}

#[test]
fn forces_on_lists_the_forces_in_blob_order() {
    let mut w = world();
    w.add_blob(10.0, 10.0);
    w.add_blob(12.0, 10.0);
    w.add_blob(10.0, 6.0);
    w.add_blob(50.0, 50.0);
    let on_first = w.forces_on(0, &f64::sqrt);
    assert_eq!(on_first.len(), 2);
    assert_eq!((on_first[0].x, on_first[0].y), (-2.0, 0.0));
    assert_eq!((on_first[1].x, on_first[1].y), (0.0, 2.0));
    let on_last = w.forces_on(3, &f64::sqrt);
    assert!(on_last.is_empty());
}

#[test]
fn a_blob_exerts_no_force_on_itself() {
    let mut w = world();
    w.add_blob(10.0, 10.0);
    assert!(w.forces_on(0, &f64::sqrt).is_empty());
    w.blobs[0].acceleration = Vector2::new(3.0, -1.0);
    w.update(1.0, &f64::sqrt);
    // Normalizing the zero offset to itself would give a value that is not a number.
    assert_eq!((w.blobs[0].acceleration.x, w.blobs[0].acceleration.y), (3.0, -1.0));
    assert_eq!((w.blobs[0].position.x, w.blobs[0].position.y), (13.0, 9.0));
}

#[test]
fn self_exclusion_goes_by_id() {
    // Two blobs with one id at different places do not repel each other.
    let mut w = world();
    w.add_blob(10.0, 10.0);
    w.add_blob(11.0, 10.0);
    w.blobs[1].id = 0;
    assert!(w.forces_on(0, &f64::sqrt).is_empty());
    assert!(w.forces_on(1, &f64::sqrt).is_empty());
}

#[test]
fn two_blobs_in_range_repel_with_equal_and_opposite_force() {
    let mut w = world();
    w.add_blob(10.0, 10.0);
    w.add_blob(13.0, 14.0);
    let on_first = w.forces_on(0, &f64::sqrt);
    let on_second = w.forces_on(1, &f64::sqrt);
    assert_eq!(on_first.len(), 1);
    assert_eq!(on_second.len(), 1);
    assert_eq!((on_first[0].x, on_first[0].y), (-on_second[0].x, -on_second[0].y));
    let first = on_first[0].magnitude(&f64::sqrt);
    let second = on_second[0].magnitude(&f64::sqrt);
    assert_eq!(first, second);
    assert!((first - w.config.repel_force).abs() < 1e-12);
}

#[test]
fn blobs_beyond_the_range_keep_their_acceleration() {
    let mut w = world();
    w.add_blob(10.0, 10.0);
    w.add_blob(20.0, 10.0);
    w.blobs[0].acceleration = Vector2::new(0.5, -0.25);
    w.blobs[1].acceleration = Vector2::new(-1.0, 2.0);
    // Friction times the elapsed time is one, so friction changes nothing.
    w.update(1.0, &f64::sqrt);
    assert_eq!((w.blobs[0].acceleration.x, w.blobs[0].acceleration.y), (0.5, -0.25));
    assert_eq!((w.blobs[1].acceleration.x, w.blobs[1].acceleration.y), (-1.0, 2.0));
}

#[test]
fn blobs_beyond_the_range_feel_friction_alone() {
    let mut w = world();
    w.friction_force(4.0);
    w.add_blob(10.0, 10.0);
    w.add_blob(20.0, 10.0);
    w.blobs[0].acceleration = Vector2::new(6.0, -3.0);
    w.update(0.5, &f64::sqrt);
    assert_eq!((w.blobs[0].acceleration.x, w.blobs[0].acceleration.y), (3.0, -1.5));
    assert_eq!((w.blobs[1].acceleration.x, w.blobs[1].acceleration.y), (0.0, 0.0));
}

#[test]
fn a_blob_at_the_left_wall_turns_round() {
    let mut w = world();
    w.add_blob(0.0, 50.0);
    w.blobs[0].velocity = Vector2::new(-1.0, 0.0);
    w.update(1.0, &f64::sqrt);
    assert_eq!(w.blobs[0].velocity.x, 1.0);
    assert_eq!(w.blobs[0].position.x, 1.0);
    assert_eq!(w.blobs[0].position.y, 50.0);
}

#[test]
fn a_blob_at_the_top_wall_turns_round() {
    let mut w = world();
    w.add_blob(50.0, 0.0);
    w.blobs[0].velocity = Vector2::new(0.0, -2.0);
    w.update(0.5, &f64::sqrt);
    assert_eq!(w.blobs[0].velocity.y, 2.0);
    assert_eq!(w.blobs[0].position.y, 1.0);
}

#[test]
fn update_moves_two_blobs_apart() {
    let mut w = world();
    w.add_blob(10.0, 10.0);
    w.add_blob(12.0, 10.0);
    w.update(0.5, &f64::sqrt);
    // force (-2, 0); acceleration 0 + (-2) * 0.5 = -1, divided by 1 * 0.5 = -2;
    // velocity 0 + (-2) * 0.5 = -1; position 10 + (-1) * 0.5 = 9.5
    assert_eq!(w.blobs[0].acceleration.x, -2.0);
    assert_eq!(w.blobs[0].velocity.x, -1.0);
    assert_eq!(w.blobs[0].position.x, 9.5);
    assert_eq!(w.blobs[1].acceleration.x, 2.0);
    assert_eq!(w.blobs[1].velocity.x, 1.0);
    assert_eq!(w.blobs[1].position.x, 12.5);
    assert_eq!(w.blobs[0].position.y, 10.0);
    assert_eq!(w.blobs[1].position.y, 10.0);
}

#[test]
fn update_keeps_the_acceleration_from_tick_to_tick() {
    let mut w = world();
    w.add_blob(10.0, 10.0);
    w.add_blob(20.0, 10.0);
    w.blobs[0].acceleration = Vector2::new(1.0, 0.0);
    w.update(1.0, &f64::sqrt);
    w.update(1.0, &f64::sqrt);
    assert_eq!(w.blobs[0].acceleration.x, 1.0);
    assert_eq!(w.blobs[0].velocity.x, 2.0);
    assert_eq!(w.blobs[0].position.x, 13.0);
}

#[test]
fn update_reads_the_positions_from_before_the_tick() {
    // A, B and C on one line, B in range of both, A and C out of range of
    // each other. Stepping A first takes it out of range of B; B must still
    // feel A where A was, so the forces on B cancel.
    let mut w = world();
    w.repel_force(1.0).repel_distance(2.5);
    w.add_blob(10.0, 5.0);
    w.add_blob(12.0, 5.0);
    w.add_blob(14.0, 5.0);
    w.update(1.0, &f64::sqrt);
    assert_eq!(w.blobs[0].position.x, 9.0);
    assert_eq!(w.blobs[1].position.x, 12.0);
    assert_eq!(w.blobs[2].position.x, 15.0);
    assert_eq!(w.blobs[1].acceleration.x, 0.0);
    assert_eq!(w.blobs[1].velocity.x, 0.0);
}

#[test]
fn update_reads_old_positions_with_all_three_in_range() {
    let mut w = world();
    w.repel_force(1.0);
    w.add_blob(10.0, 5.0);
    w.add_blob(12.0, 5.0);
    w.add_blob(14.0, 5.0);
    w.update(1.0, &f64::sqrt);
    assert_eq!(w.blobs[0].position.x, 8.0);
    assert_eq!(w.blobs[1].position.x, 12.0);
    assert_eq!(w.blobs[2].position.x, 16.0);
}

#[test]
fn update_keeps_every_blob_in_the_arena() {
    let mut w: World<f64> = World::new(20, 10, Vector2::new(20.0, 10.0), config());
    w.repel_force(30.0).repel_distance(8.0).friction_force(2.0);
    w.add_random_blobs(25, &lift);
    w.add_blob(0.0, 0.0);
    w.add_blob(20.0, 10.0);
    w.add_blob(19.5, 9.5);
    for blob in w.blobs.iter_mut() {
        blob.velocity = Vector2::new(blob.position.y - 5.0, 10.0 - blob.position.x);
    }
    for _ in 0..200 {
        w.update(0.75, &f64::sqrt);
        for blob in &w.blobs {
            if !blob.position.x.is_nan() {
                assert!(0.0 <= blob.position.x && blob.position.x <= 20.0);
            }
            if !blob.position.y.is_nan() {
                assert!(0.0 <= blob.position.y && blob.position.y <= 10.0);
            }
        }
    }
    assert_eq!(w.blobs.len(), 28);
    assert_eq!((w.width, w.height), (20, 10));
}

#[test]
fn update_keeps_separate_blobs_strictly_contained() {
    let mut w = world();
    w.add_blob(1.0, 1.0);
    w.add_blob(99.0, 99.0);
    w.blobs[0].velocity = Vector2::new(-30.0, -40.0);
    w.blobs[1].velocity = Vector2::new(30.0, 40.0);
    for _ in 0..50 {
        w.update(1.0, &f64::sqrt);
        for blob in &w.blobs {
            assert!(0.0 <= blob.position.x && blob.position.x <= 100.0);
            assert!(0.0 <= blob.position.y && blob.position.y <= 100.0);
        }
    }
}

#[test]
fn update_of_an_empty_world_does_nothing() {
    let mut w = world();
    w.update(1.0, &f64::sqrt);
    assert!(w.blobs.is_empty());
}

#[test]
fn update_on_integers_follows_the_same_rules() {
    let config = Config { blob_size: 1i64, repel_force: 6, repel_distance: 5, friction_force: 1 };
    let mut w: World<i64> = World::new(100, 100, Vector2::new(100, 100), config);
    w.add_blob(10, 10);
    w.add_blob(13, 10);
    let root = |s: i64| (s as f64).sqrt() as i64;
    w.update(1, &root);
    assert_eq!(w.blobs[0].position.x, 4);
    assert_eq!(w.blobs[1].position.x, 19);
}
