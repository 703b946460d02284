use jump_physics::character::{Character, StaticCollider};
use jump_physics::collision_resolver::{first_overlap, resolution_fits, resolve_collisions};
use jump_physics::config::SimulationConfig;
use jump_physics::geometry::{Aabb, Position, Size};

fn config() -> SimulationConfig {
    SimulationConfig::new(10, 120, 20, 12, 1200)
}

fn block(x: i64, y: i64, width: u64, height: u64) -> StaticCollider {
    StaticCollider::new(Position { x, y }, Size { width, height })
}

fn body(x: i64, y: i64) -> Character {
    Character::new(Position { x, y }, Size { width: 100, height: 100 })
}

#[test]
fn first_overlap_of_an_empty_level_is_none() {
    let b = Aabb::new(Position { x: 0, y: 0 }, Size { width: 10, height: 10 });
    assert_eq!(first_overlap(&b, &[]), None);
}

#[test]
fn first_overlap_is_none_when_nothing_is_near() {
    let b = Aabb::new(Position { x: 0, y: 0 }, Size { width: 10, height: 10 });
    let level = [block(100, 0, 10, 10), block(0, 100, 10, 10), block(10, 0, 10, 10)];
    assert_eq!(first_overlap(&b, &level), None);
}

#[test]
fn first_overlap_takes_the_earliest_collider() {
    let b = Aabb::new(Position { x: 0, y: 0 }, Size { width: 10, height: 10 });
    let level = [
        block(100, 0, 10, 10),
        block(5, 5, 10, 10),
        block(0, 0, 10, 10),
        block(-5, -5, 10, 10),
    ];
    assert_eq!(first_overlap(&b, &level), Some(1));
    let reversed = [level[3], level[2], level[1], level[0]];
    assert_eq!(first_overlap(&b, &reversed), Some(0));
    assert_eq!(first_overlap(&b, &level[2..]), Some(0));
    assert_eq!(first_overlap(&b, &level[..1]), None);
}

#[test]
fn overlap_grounds_and_lifts_by_the_gravity_step() {
    let level = [block(0, -100, 1000, 100)];
    // The ground reaches up to -50; the character's box down to -60.
    let mut c = body(0, -10);
    c.vertical_velocity = 20;
    c.is_jumping = true;
    c.jump_elapsed = 3;
    resolve_collisions(&mut c, &level, 1, &config());
    assert!(c.grounded);
    assert_eq!(c.position, Position { x: 0, y: -10 + 10 * 1 * 120 });
    // Nothing else changes.
    assert_eq!(c.vertical_velocity, 20);
    assert!(c.is_jumping);
    assert_eq!(c.jump_elapsed, 3);
    assert_eq!(c.size, Size { width: 100, height: 100 });
}

#[test]
fn lift_follows_the_timestep() {
    let level = [block(0, -100, 1000, 100)];
    for dt in [0i64, 1, 2, 5, -4] {
        let mut c = body(0, -10);
        resolve_collisions(&mut c, &level, dt, &config());
        assert!(c.grounded);
        let t = if dt < 0 { 0 } else { dt };
        assert_eq!(c.position.y, -10 + 10 * t * 120);
    }
}

#[test]
fn no_overlap_clears_the_flag_and_moves_nothing() {
    let level = [block(0, -100, 1000, 100)];
    let mut c = body(0, 0);
    c.grounded = true;
    resolve_collisions(&mut c, &level, 1, &config());
    // The box reaches down to -50, where the ground ends: they only touch.
    assert!(!c.grounded);
    assert_eq!(c.position, Position { x: 0, y: 0 });
}

#[test]
fn no_colliders_means_not_grounded() {
    let mut c = body(0, 0);
    c.grounded = true;
    resolve_collisions(&mut c, &[], 1, &config());
    assert!(!c.grounded);
    assert_eq!(c.position, Position { x: 0, y: 0 });
}

#[test]
fn several_overlaps_lift_once() {
    let level = [block(0, -100, 1000, 100), block(0, -90, 1000, 100), block(0, -10, 10, 10)];
    let mut c = body(0, -10);
    resolve_collisions(&mut c, &level, 1, &config());
    assert!(c.grounded);
    assert_eq!(c.position.y, -10 + 1200);
}

#[test]
fn overlap_with_a_later_collider_is_enough() {
    let level = [block(5000, 0, 10, 10), block(-5000, 0, 10, 10), block(0, -100, 1000, 100)];
    let mut c = body(0, -10);
    resolve_collisions(&mut c, &level, 1, &config());
    assert!(c.grounded);
    assert_eq!(c.position.y, -10 + 1200);
}

#[test]
fn overlap_from_the_side_grounds_without_moving_sideways() {
    // A wall to the right of the character, reaching into its box.
    let level = [block(100, 0, 110, 1000)];
    let mut c = body(0, 0);
    resolve_collisions(&mut c, &level, 1, &config());
    assert!(c.grounded);
    assert_eq!(c.position, Position { x: 0, y: 1200 });
}

#[test]
fn resolution_fits_wherever_nothing_is_lifted() {
    let c = body(0, i64::MAX);
    assert!(resolution_fits(&c, &[], 1, &config()));
    assert!(resolution_fits(&c, &[block(0, 0, 10, 10)], 1, &config()));
}

#[test]
fn resolution_does_not_fit_when_the_lift_leaves_the_range() {
    let level = [block(0, i64::MAX, 1000, 4000)];
    let c = body(0, i64::MAX);
    assert!(!resolution_fits(&c, &level, 1, &config()));
    assert!(resolution_fits(&c, &level, 0, &config()));
    assert!(resolution_fits(&c, &level, -1, &config()));
    let c = body(0, i64::MAX - 1200);
    assert!(resolution_fits(&c, &level, 1, &config()));
    let c = body(0, i64::MAX - 1199);
    assert!(!resolution_fits(&c, &level, 1, &config()));
}
