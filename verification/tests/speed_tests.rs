//! The constant-speed projection, the integer square root it rests on, and
//! the whole-degree direction table.

use crash_ball_core::ball::ball_update_speed;
use crash_ball_core::ball::BallState;
use crash_ball_core::num::isqrt;
use crash_ball_core::speed::project_to_speed;
use crash_ball_core::trig::cos_deg;
use crash_ball_core::trig::sin_deg;
use crash_ball_core::Vec2;

#[test]
fn isqrt_small_values() {
    assert_eq!(isqrt(0), 0);
    assert_eq!(isqrt(1), 1);
    assert_eq!(isqrt(3), 1);
    assert_eq!(isqrt(4), 2);
    assert_eq!(isqrt(15), 3);
    assert_eq!(isqrt(16), 4);
    assert_eq!(isqrt(999_999), 999);
    assert_eq!(isqrt(1_000_000), 1000);
}

#[test]
fn isqrt_large_values() {
    assert_eq!(isqrt(400_000u64 * 400_000u64), 400_000);
    assert_eq!(isqrt(400_000u64 * 400_000u64 + 1), 400_000);
    assert_eq!(isqrt(2_000_000_000_000_000_000), 1_414_213_562);
}

#[test]
fn projection_rescales_a_three_four_five_triple() {
    // |(300, 400)| = 500 units; at base speed the result is exact.
    let v = Vec2 { x: 300_000, y: 400_000 };
    let r = project_to_speed(v, 400_000);
    assert_eq!(r.x, 240_000);
    assert_eq!(r.y, 320_000);
    // The result's magnitude is exactly the base speed.
    assert_eq!(isqrt((r.x * r.x + r.y * r.y) as u64), 400_000);
}

#[test]
fn projection_keeps_direction_signs() {
    let v = Vec2 { x: -300_000, y: 400_000 };
    let r = project_to_speed(v, 400_000);
    assert_eq!(r.x, -240_000);
    assert_eq!(r.y, 320_000);
    let v = Vec2 { x: -300, y: -400 };
    let r = project_to_speed(v, 400_000);
    assert_eq!(r.x, -240_000);
    assert_eq!(r.y, -320_000);
}

#[test]
fn projection_keeps_zero_vector() {
    let r = project_to_speed(Vec2 { x: 0, y: 0 }, 400_000);
    assert_eq!(r.x, 0);
    assert_eq!(r.y, 0);
}

#[test]
fn projection_applied_twice_equals_once() {
    // Idempotence on an input whose projection lands at the target
    // magnitude exactly.
    let v = Vec2 { x: 300_000, y: 400_000 };
    let once = project_to_speed(v, 400_000);
    let twice = project_to_speed(once, 400_000);
    assert_eq!(once, twice);
}

#[test]
fn ball_update_speed_doubles_when_energized() {
    let v = Vec2 { x: 300_000, y: 400_000 };
    let mut vel = Vec2 { x: 0, y: 0 };
    ball_update_speed(v, &BallState { has_energy: false }, &mut vel);
    assert_eq!(vel, Vec2 { x: 240_000, y: 320_000 });
    ball_update_speed(v, &BallState { has_energy: true }, &mut vel);
    assert_eq!(vel, Vec2 { x: 480_000, y: 640_000 });
    assert_eq!(isqrt((vel.x * vel.x + vel.y * vel.y) as u64), 800_000);
}

#[test]
fn ball_update_speed_magnitude_near_target_for_odd_directions() {
    // A direction that does not divide evenly still lands within a couple
    // of milliunits of the target magnitude.
    let v = Vec2 { x: 123_457, y: -654_321 };
    let mut vel = Vec2 { x: 0, y: 0 };
    ball_update_speed(v, &BallState { has_energy: false }, &mut vel);
    let m = isqrt((vel.x * vel.x + vel.y * vel.y) as u64);
    assert!(399_998 <= m && m <= 400_000, "magnitude {m}");
}

#[test]
fn direction_table_key_angles() {
    assert_eq!(cos_deg(0), 1000);
    assert_eq!(sin_deg(0), 0);
    assert_eq!(cos_deg(45), 707);
    assert_eq!(sin_deg(45), 707);
    assert_eq!(cos_deg(90), 0);
    assert_eq!(sin_deg(90), 1000);
    assert_eq!(cos_deg(135), -707);
    assert_eq!(sin_deg(135), 707);
    assert_eq!(cos_deg(-45), 707);
    assert_eq!(sin_deg(-45), -707);
    assert_eq!(cos_deg(-135), -707);
    assert_eq!(sin_deg(-135), -707);
    assert_eq!(cos_deg(180), -1000);
    assert_eq!(sin_deg(180), 0);
    assert_eq!(sin_deg(-90), -1000);
    assert_eq!(cos_deg(60), 500);
    assert_eq!(sin_deg(30), 500);
}
