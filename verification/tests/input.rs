use jump_physics::config::SimulationConfig;
use jump_physics::input::{sample_input, InputState};
use jump_physics::timestep::clamp_timestep;

#[test]
fn sample_follows_the_keys() {
    let s = sample_input(true, false, false, false);
    assert_eq!(
        s,
        InputState { left: true, right: false, jump_held: false, jump_just_pressed: false }
    );
    let s = sample_input(false, true, true, true);
    assert_eq!(
        s,
        InputState { left: false, right: true, jump_held: true, jump_just_pressed: false }
    );
}

#[test]
fn jump_is_just_pressed_on_the_rising_edge_only() {
    assert!(sample_input(false, false, true, false).jump_just_pressed);
    assert!(!sample_input(false, false, true, true).jump_just_pressed);
    assert!(!sample_input(false, false, false, true).jump_just_pressed);
    assert!(!sample_input(false, false, false, false).jump_just_pressed);
}

#[test]
fn a_held_jump_key_fires_once() {
    // Up, then down for three ticks, then up, then down again.
    let keys = [false, true, true, true, false, true];
    let mut was_held = false;
    let mut fired = Vec::new();
    for &held in keys.iter() {
        let s = sample_input(false, false, held, was_held);
        assert_eq!(s.jump_held, held);
        fired.push(s.jump_just_pressed);
        was_held = s.jump_held;
    }
    assert_eq!(fired, vec![false, true, false, false, false, true]);
}

#[test]
fn negative_timestep_is_clamped_to_zero() {
    assert_eq!(clamp_timestep(-1), 0);
    assert_eq!(clamp_timestep(i64::MIN), 0);
}

#[test]
fn valid_timestep_is_kept() {
    assert_eq!(clamp_timestep(0), 0);
    assert_eq!(clamp_timestep(1), 1);
    assert_eq!(clamp_timestep(16_666_667), 16_666_667);
    assert_eq!(clamp_timestep(i64::MAX), i64::MAX);
}

#[test]
fn config_new_keeps_its_constants() {
    let cfg = SimulationConfig::new(10, 120, 20, 12, 1200);
    assert_eq!(
        cfg,
        SimulationConfig {
            gravity: 10,
            time_scale: 120,
            jump_impulse_velocity: 20,
            jump_window: 12,
            walk_speed: 1200,
        }
    );
}
