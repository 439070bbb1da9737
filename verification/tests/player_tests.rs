//! Player movement and the energy-wave lifecycle: fire, growth, expiry,
//! and the hit test that energizes and redirects balls.

use crash_ball_core::ball::Ball;
use crash_ball_core::ball::BallState;
use crash_ball_core::engine::BodyKind;
use crash_ball_core::player::player_energy_hit_ball;
use crash_ball_core::player::player_fire_energy;
use crash_ball_core::player::player_keyboard_event_system;
use crash_ball_core::player::player_spawn_system;
use crash_ball_core::player::player_update_energy;
use crash_ball_core::player::InputState;
use crash_ball_core::player::Player;
use crash_ball_core::player::PlayerEnergy;
use crash_ball_core::Rectangle;
use crash_ball_core::Vec2;

fn arena() -> Rectangle {
    Rectangle { x: -375_000, y: -375_000, w: 750_000, h: 750_000 }
}

fn idle() -> InputState {
    InputState {
        move_left: false,
        move_right: false,
        move_axis_milli: 0,
        accelerate: false,
        energy_just_pressed: false,
    }
}

fn player_at(x: i64) -> Option<Player> {
    let mut p = player_spawn_system(&arena());
    p.pos.x = x;
    Some(p)
}

#[test]
fn player_spawns_at_bottom_middle() {
    let p = player_spawn_system(&arena());
    assert_eq!(p.pos, Vec2 { x: 0, y: -375_000 });
    assert_eq!(p.body, BodyKind::KinematicPositionBased);
    assert_eq!(p.material.restitution_milli, 1000);
    assert_eq!(p.material.friction_milli, 650);
}

#[test]
fn movement_base_and_accelerated_steps() {
    let a = arena();
    let mut p = player_at(0);
    let input = InputState { move_left: true, ..idle() };
    player_keyboard_event_system(&mut p, &input, &a);
    assert_eq!(p.unwrap().pos.x, -5_833);

    let mut p = player_at(0);
    let input = InputState { move_right: true, accelerate: true, ..idle() };
    player_keyboard_event_system(&mut p, &input, &a);
    assert_eq!(p.unwrap().pos.x, 9_166);

    let mut p = player_at(100);
    player_keyboard_event_system(&mut p, &idle(), &a);
    assert_eq!(p.unwrap().pos.x, 100);
}

#[test]
fn movement_axis_deadband() {
    let a = arena();
    for (axis, expect) in
        [(301, 5_833), (300, 0), (-300, 0), (-301, -5_833), (1000, 5_833), (-1000, -5_833)]
    {
        let mut p = player_at(0);
        let input = InputState { move_axis_milli: axis, ..idle() };
        player_keyboard_event_system(&mut p, &input, &a);
        assert_eq!(p.unwrap().pos.x, expect, "axis {axis}");
    }
}

#[test]
fn movement_discrete_actions_beat_the_axis() {
    let a = arena();
    let mut p = player_at(0);
    let input = InputState { move_left: true, move_right: true, move_axis_milli: 1000, ..idle() };
    player_keyboard_event_system(&mut p, &input, &a);
    assert_eq!(p.unwrap().pos.x, -5_833);
}

#[test]
fn movement_without_player_is_noop() {
    let a = arena();
    let mut p: Option<Player> = None;
    let input = InputState { move_left: true, ..idle() };
    player_keyboard_event_system(&mut p, &input, &a);
    assert!(p.is_none());
}

#[test]
fn moving_left_converges_to_the_left_bound() {
    // The reachable band's left end: arena left + corner radius + player
    // radius.
    let a = arena();
    let lo = -375_000 + 70_000 + 70_000;
    let mut p = player_at(0);
    let input = InputState { move_left: true, accelerate: true, ..idle() };
    for _ in 0..200 {
        player_keyboard_event_system(&mut p, &input, &a);
        assert!(p.unwrap().pos.x >= lo);
    }
    assert_eq!(p.unwrap().pos.x, lo);
    // One more tick stays exactly on the bound.
    player_keyboard_event_system(&mut p, &input, &a);
    assert_eq!(p.unwrap().pos.x, lo);
}

#[test]
fn moving_right_converges_to_the_right_bound() {
    let a = arena();
    let hi = 375_000 - 70_000 - 70_000;
    let mut p = player_at(0);
    let input = InputState { move_right: true, ..idle() };
    for _ in 0..200 {
        player_keyboard_event_system(&mut p, &input, &a);
    }
    assert_eq!(p.unwrap().pos.x, hi);
}

#[test]
fn fire_pushes_one_wave_at_player_radius() {
    let p = player_at(0);
    let mut waves: Vec<PlayerEnergy> = Vec::new();
    let input = InputState { energy_just_pressed: true, ..idle() };
    player_fire_energy(&p, &input, &mut waves);
    assert_eq!(waves.len(), 1);
    // Scale one is fourteen fourteenths: reach 70 units, the player radius.
    assert_eq!(waves[0].scale_fourteenths, 14);
    player_fire_energy(&p, &idle(), &mut waves);
    assert_eq!(waves.len(), 1);
    let none: Option<Player> = None;
    player_fire_energy(&none, &input, &mut waves);
    assert_eq!(waves.len(), 1);
}

#[test]
fn wave_grows_to_150_then_expires() {
    // Fired at reach 70, a wave reaches 150 (70 + 80) after exactly 16
    // growth ticks and is destroyed on the following one.
    let mut waves = vec![PlayerEnergy { scale_fourteenths: 14 }];
    for tick in 1..=16 {
        player_update_energy(&mut waves);
        assert_eq!(waves.len(), 1, "tick {tick}");
        assert_eq!(waves[0].scale_fourteenths, 14 + tick);
    }
    // Reach is the player radius times scale: 70 * 30/14 = 150 units.
    assert_eq!(70 * waves[0].scale_fourteenths / 14, 150);
    player_update_energy(&mut waves);
    assert_eq!(waves.len(), 0);
}

#[test]
fn concurrent_waves_grow_independently() {
    let mut waves = vec![PlayerEnergy { scale_fourteenths: 29 }, PlayerEnergy {
        scale_fourteenths: 14,
    }];
    player_update_energy(&mut waves);
    assert_eq!(waves.len(), 2);
    assert_eq!(waves[0].scale_fourteenths, 30);
    assert_eq!(waves[1].scale_fourteenths, 15);
    player_update_energy(&mut waves);
    assert_eq!(waves.len(), 1);
    assert_eq!(waves[0].scale_fourteenths, 16);
}

#[test]
fn wave_hit_energizes_and_redirects_radially() {
    // A ball 150 units above the player while a wave of effective radius
    // 150 is live: threshold 150 + 20, so it is hit, energized, and leaves
    // straight up at the boosted speed 800.
    let p = player_at(0);
    let waves = vec![PlayerEnergy { scale_fourteenths: 30 }];
    let mut balls = vec![Ball {
        pos: Vec2 { x: 0, y: -375_000 + 150_000 },
        vel: Vec2 { x: 400_000, y: 0 },
        state: BallState::default(),
    }];
    player_energy_hit_ball(&p, &waves, &mut balls);
    assert!(balls[0].state.has_energy);
    assert_eq!(balls[0].vel, Vec2 { x: 0, y: 800_000 });
    assert_eq!(balls[0].pos, Vec2 { x: 0, y: -225_000 });
}

#[test]
fn wave_hit_misses_beyond_threshold() {
    let p = player_at(0);
    let waves = vec![PlayerEnergy { scale_fourteenths: 30 }];
    // Exactly on the threshold (170 units): not hit, the test is strict.
    let on_line = Ball {
        pos: Vec2 { x: 0, y: -375_000 + 170_000 },
        vel: Vec2 { x: 400_000, y: 0 },
        state: BallState::default(),
    };
    let inside = Ball {
        pos: Vec2 { x: 0, y: -375_000 + 169_999 },
        vel: Vec2 { x: 400_000, y: 0 },
        state: BallState::default(),
    };
    let mut balls = vec![on_line, inside];
    player_energy_hit_ball(&p, &waves, &mut balls);
    assert!(!balls[0].state.has_energy);
    assert_eq!(balls[0], on_line);
    assert!(balls[1].state.has_energy);
}

#[test]
fn energized_flag_survives_a_miss() {
    // A ball energized earlier keeps its flag and velocity when no wave
    // covers it now.
    let p = player_at(0);
    let waves = vec![PlayerEnergy { scale_fourteenths: 14 }];
    let far = Ball {
        pos: Vec2 { x: 300_000, y: 0 },
        vel: Vec2 { x: 480_000, y: 640_000 },
        state: BallState { has_energy: true },
    };
    let mut balls = vec![far];
    player_energy_hit_ball(&p, &waves, &mut balls);
    assert_eq!(balls[0], far);
    assert!(balls[0].state.has_energy);
}

#[test]
fn wave_hit_without_player_or_waves_is_noop() {
    let b = Ball {
        pos: Vec2 { x: 0, y: -300_000 },
        vel: Vec2 { x: 400_000, y: 0 },
        state: BallState::default(),
    };
    let mut balls = vec![b];
    let none: Option<Player> = None;
    player_energy_hit_ball(&none, &vec![PlayerEnergy { scale_fourteenths: 30 }], &mut balls);
    assert_eq!(balls[0], b);
    let p = player_at(0);
    player_energy_hit_ball(&p, &Vec::new(), &mut balls);
    assert_eq!(balls[0], b);
}
