//! Ball lifecycle: spawning at corners, the despawn boundary, and the
//! per-tick speed-control pass.

use crash_ball_core::ball::ball_despawn_system;
use crash_ball_core::ball::ball_spawn_system;
use crash_ball_core::ball::ball_speed_control_system;
use crash_ball_core::ball::is_out_of_bound;
use crash_ball_core::ball::make_spawned_ball;
use crash_ball_core::ball::Ball;
use crash_ball_core::ball::BallState;
use crash_ball_core::Rectangle;
use crash_ball_core::Vec2;

fn arena() -> Rectangle {
    Rectangle { x: -375_000, y: -375_000, w: 750_000, h: 750_000 }
}

fn ball_at(x: i64, y: i64) -> Ball {
    Ball { pos: Vec2 { x, y }, vel: Vec2 { x: 400_000, y: 0 }, state: BallState::default() }
}

#[test]
fn out_of_bound_boundary_is_exclusive() {
    // The widened bound lies one corner radius (70) outside the arena: a
    // ball exactly on that line stays, any further out it goes.
    let a = arena();
    assert!(!is_out_of_bound(&Vec2 { x: -445_000, y: 0 }, &a));
    assert!(is_out_of_bound(&Vec2 { x: -445_001, y: 0 }, &a));
    assert!(is_out_of_bound(&Vec2 { x: -446_000, y: 0 }, &a));
    assert!(!is_out_of_bound(&Vec2 { x: 445_000, y: 0 }, &a));
    assert!(is_out_of_bound(&Vec2 { x: 445_001, y: 0 }, &a));
    assert!(!is_out_of_bound(&Vec2 { x: 0, y: -445_000 }, &a));
    assert!(is_out_of_bound(&Vec2 { x: 0, y: -445_001 }, &a));
    assert!(!is_out_of_bound(&Vec2 { x: 0, y: 445_000 }, &a));
    assert!(is_out_of_bound(&Vec2 { x: 0, y: 445_001 }, &a));
}

#[test]
fn despawn_removes_only_out_of_bounds() {
    let a = arena();
    let keep0 = ball_at(-445_000, 0);
    let gone = ball_at(-445_001, 0);
    let keep1 = ball_at(0, 0);
    let mut balls = vec![keep0, gone, keep1];
    let mut counter: u32 = 3;
    ball_despawn_system(&mut balls, &mut counter, &a);
    assert_eq!(balls.len(), 2);
    assert_eq!(counter, 2);
    assert_eq!(balls[0], keep0);
    assert_eq!(balls[1], keep1);
}

#[test]
fn despawn_on_empty_store() {
    let a = arena();
    let mut balls: Vec<Ball> = Vec::new();
    let mut counter: u32 = 0;
    ball_despawn_system(&mut balls, &mut counter, &a);
    assert_eq!(balls.len(), 0);
    assert_eq!(counter, 0);
}

#[test]
fn spawn_at_bottom_left_with_zero_offset() {
    // Bottom-left corner, base angle 45 degrees, sampled offset zero:
    // velocity (cos 45, sin 45) * 400 and position 90 units outward along
    // the same direction from the anchor.
    let a = arena();
    let b = make_spawned_ball(&a, 2, 0);
    assert_eq!(b.vel, Vec2 { x: 282_800, y: 282_800 });
    assert_eq!(b.pos, Vec2 { x: -375_000 + 707 * 90, y: -375_000 + 707 * 90 });
    assert_eq!(b.pos, Vec2 { x: -311_370, y: -311_370 });
    assert!(!b.state.has_energy);
}

#[test]
fn spawn_base_angles_point_inward() {
    let a = arena();
    // Top-left launches down-right, top-right down-left, bottom-left
    // up-right, bottom-right up-left.
    let tl = make_spawned_ball(&a, 0, 0);
    assert!(tl.vel.x > 0 && tl.vel.y < 0);
    let tr = make_spawned_ball(&a, 1, 0);
    assert!(tr.vel.x < 0 && tr.vel.y < 0);
    let bl = make_spawned_ball(&a, 2, 0);
    assert!(bl.vel.x > 0 && bl.vel.y > 0);
    let br = make_spawned_ball(&a, 3, 0);
    assert!(br.vel.x < 0 && br.vel.y > 0);
}

#[test]
fn spawn_system_appends_one_sampled_ball() {
    let a = arena();
    let mut balls: Vec<Ball> = Vec::new();
    let mut counter: u32 = 0;
    ball_spawn_system(&mut balls, &mut counter, &a);
    assert_eq!(counter, 1);
    assert_eq!(balls.len(), 1);
    // The new ball must be exactly one of the balls reachable by a corner
    // index and a whole-degree offset in [-30, 30).
    let spawned = balls[0];
    let mut found = false;
    for idx in 0..4u64 {
        for off in -30..30i64 {
            if make_spawned_ball(&a, idx, off) == spawned {
                found = true;
            }
        }
    }
    assert!(found);
}

#[test]
fn spawn_system_is_noop_at_cap() {
    let a = arena();
    let mut balls: Vec<Ball> = Vec::new();
    let mut counter: u32 = 0;
    for _ in 0..5 {
        ball_spawn_system(&mut balls, &mut counter, &a);
    }
    assert_eq!(counter, 5);
    assert_eq!(balls.len(), 5);
    let before = balls.clone();
    ball_spawn_system(&mut balls, &mut counter, &a);
    assert_eq!(counter, 5);
    assert_eq!(balls, before);
}

#[test]
fn speed_control_normalizes_every_ball() {
    let mut balls = vec![
        Ball {
            pos: Vec2 { x: 0, y: 0 },
            vel: Vec2 { x: 300, y: 400 },
            state: BallState { has_energy: false },
        },
        Ball {
            pos: Vec2 { x: 1_000, y: 2_000 },
            vel: Vec2 { x: -30_000, y: 40_000 },
            state: BallState { has_energy: true },
        },
        Ball {
            pos: Vec2 { x: 5, y: 6 },
            vel: Vec2 { x: 0, y: 0 },
            state: BallState { has_energy: false },
        },
    ];
    ball_speed_control_system(&mut balls);
    assert_eq!(balls[0].vel, Vec2 { x: 240_000, y: 320_000 });
    assert_eq!(balls[0].pos, Vec2 { x: 0, y: 0 });
    assert_eq!(balls[1].vel, Vec2 { x: -480_000, y: 640_000 });
    // A zero velocity has no direction and stays zero.
    assert_eq!(balls[2].vel, Vec2 { x: 0, y: 0 });
}

#[test]
fn ball_state_energize_is_one_way() {
    let mut st = BallState::default();
    assert!(!st.has_energy);
    st.energize();
    assert!(st.has_energy);
    st.energize();
    assert!(st.has_energy);
}
