//! The ball subsystem: spawn on a slow cadence at a random corner, despawn
//! once out of the widened arena bounds, and the per-tick constant-speed
//! pass that rewrites each ball's velocity to its exact target magnitude.

use vstd::prelude::*;

use crate::corner::CORNER_RADIUS;
use crate::rng::sample_range;
use crate::speed::lemma_project_bounds;
use crate::speed::lemma_project_idempotent;
use crate::speed::lemma_project_magnitude;
use crate::speed::norm_sq;
use crate::speed::project_to_speed;
use crate::speed::spec_project;
use crate::speed::vec_in_range;
use crate::trig::cos_deg;
use crate::trig::cos_milli;
use crate::trig::sin_deg;
use crate::trig::sin_milli;
use crate::util::arena_ok;
use crate::util::pos_in_range;
use crate::util::Rectangle;
use crate::util::Vec2;

verus! {

/// Most balls ever live at once.
pub const MAX_BALL_COUNT: u32 = 5;

/// Base ball speed, in milliunits per second.
pub const BALL_SPEED: i64 = 400_000;

/// Ball collider radius, in milliunits.
pub const BALL_RADIUS: i64 = 20_000;

/// Per-ball mutable state: the energized flag is set once by an energy-wave
/// hit and never cleared while the ball lives.
#[derive(Clone, Copy, PartialEq, Eq, Structural, Debug)]
pub struct BallState {
    pub has_energy: bool,
}

impl BallState {
    pub fn energize(self: &mut Self)
        ensures
            final(self).has_energy,
    {
        self.has_energy = true;
    }
}

impl Default for BallState {
    fn default() -> (r: Self)
        ensures
            !r.has_energy,
    {
        Self { has_energy: false }
    }
}

/// A live ball: position, velocity and state. Every ball is a dynamic,
/// gravity-free, rotation-locked circular body of radius `BALL_RADIUS` with
/// the elastic material and continuous collision detection, so none of that
/// is repeated per ball.
#[derive(Clone, Copy, PartialEq, Eq, Structural, Debug)]
pub struct Ball {
    pub pos: Vec2,
    pub vel: Vec2,
    pub state: BallState,
}

/// Target speed of a ball: doubled once energized.
pub open spec fn spec_ball_speed(energized: bool) -> int {
    if energized {
        2 * BALL_SPEED
    } else {
        BALL_SPEED as int
    }
}

/// A ball after the constant-speed pass: same position and state, velocity
/// projected to the target magnitude.
pub open spec fn spec_speed_controlled(b: Ball) -> Ball {
    let (px, py) = spec_project(b.vel, spec_ball_speed(b.state.has_energy));
    Ball { pos: b.pos, vel: Vec2 { x: px as i64, y: py as i64 }, state: b.state }
}

/// Constant speed at the ball level: after the speed-control pass, a ball
/// whose incoming velocity is at least one world unit per second has a
/// squared speed within one part in five hundred above the squared target
/// and less than a couple of milliunits of magnitude below it.
pub proof fn lemma_ball_constant_speed(b: Ball)
    requires
        vec_in_range(b.vel),
        norm_sq(b.vel) >= 1_000_000,
    ensures
        ({
            let w = spec_speed_controlled(b);
            let s = spec_ball_speed(b.state.has_energy);
            &&& 500 * norm_sq(w.vel) <= 501 * (s * s)
            &&& norm_sq(w.vel) > s * s - 4 * s - 2
        }),
{
    let s = spec_ball_speed(b.state.has_energy);
    lemma_project_magnitude(b.vel, s);
    lemma_project_bounds(b.vel, s);
}

/// Applying the speed-control pass twice to one ball is applying it once,
/// whenever the first pass lands the velocity exactly at the target
/// magnitude (a zero-velocity ball satisfies it trivially: it stays zero).
pub proof fn lemma_speed_control_idempotent(b: Ball)
    requires
        vec_in_range(b.vel),
        ({
            let w = spec_speed_controlled(b);
            let s = spec_ball_speed(b.state.has_energy);
            (b.vel.x == 0 && b.vel.y == 0) || (s * s <= norm_sq(w.vel) < (s + 1) * (s + 1))
        }),
    ensures
        spec_speed_controlled(spec_speed_controlled(b)) == spec_speed_controlled(b),
{
    let s = spec_ball_speed(b.state.has_energy);
    let w = spec_speed_controlled(b);
    lemma_project_bounds(b.vel, s);
    lemma_project_idempotent(b.vel, w.vel, s);
}

/// Rewrite `velocity` to point along `vect` with the exact target magnitude
/// for `ball_state`; a zero `vect` leaves the velocity zero.
pub fn ball_update_speed(vect: Vec2, ball_state: &BallState, velocity: &mut Vec2)
    requires
        vec_in_range(vect),
    ensures
        (final(velocity).x as int, final(velocity).y as int) == spec_project(
            vect,
            spec_ball_speed(ball_state.has_energy),
        ),
        -800_000 <= final(velocity).x <= 800_000,
        -800_000 <= final(velocity).y <= 800_000,
{
    let s: u64 = if ball_state.has_energy {
        800_000
    } else {
        400_000
    };
    *velocity = project_to_speed(vect, s);
}

/// Outside the arena rectangle widened by the corner radius on every side.
pub open spec fn spec_out_of_bound(pos: Vec2, arena: Rectangle) -> bool {
    ||| pos.x < arena.x - CORNER_RADIUS
    ||| pos.x > arena.x + arena.w + CORNER_RADIUS
    ||| pos.y < arena.y - CORNER_RADIUS
    ||| pos.y > arena.y + arena.h + CORNER_RADIUS
}

/// Whether a position lies outside the widened arena bounds; a position
/// exactly on the widened boundary is still inside.
pub fn is_out_of_bound(pos: &Vec2, arena: &Rectangle) -> (r: bool)
    requires
        arena_ok(*arena),
        pos_in_range(*pos),
    ensures
        r == spec_out_of_bound(*pos, *arena),
{
    pos.x < arena.left() - CORNER_RADIUS || pos.x > arena.right() + CORNER_RADIUS || pos.y
        < arena.bottom() - CORNER_RADIUS || pos.y > arena.top() + CORNER_RADIUS
}

/// The balls that survive the despawn pass: those not out of bounds, in
/// store order.
pub open spec fn kept_balls(s: Seq<Ball>, arena: Rectangle) -> Seq<Ball>
    decreases s.len(),
{
    if s.len() == 0 {
        Seq::empty()
    } else {
        let rest = kept_balls(s.drop_last(), arena);
        if spec_out_of_bound(s.last().pos, arena) {
            rest
        } else {
            rest.push(s.last())
        }
    }
}

/// The despawn pass never grows the ball list.
pub proof fn lemma_kept_balls_len(s: Seq<Ball>, arena: Rectangle)
    ensures
        kept_balls(s, arena).len() <= s.len(),
    decreases s.len(),
{
    if s.len() > 0 {
        lemma_kept_balls_len(s.drop_last(), arena);
    }
}

/// Despawn keeps only balls already in the list, so per-ball coordinate
/// bounds survive it.
pub proof fn lemma_kept_balls_bounds(s: Seq<Ball>, arena: Rectangle)
    requires
        forall|j: int| 0 <= j < s.len() ==> pos_in_range(#[trigger] s[j].pos),
        forall|j: int| 0 <= j < s.len() ==> vec_in_range(#[trigger] s[j].vel),
    ensures
        forall|j: int|
            0 <= j < kept_balls(s, arena).len() ==> pos_in_range(
                #[trigger] kept_balls(s, arena)[j].pos,
            ),
        forall|j: int|
            0 <= j < kept_balls(s, arena).len() ==> vec_in_range(
                #[trigger] kept_balls(s, arena)[j].vel,
            ),
    decreases s.len(),
{
    if s.len() > 0 {
        assert(forall|j: int|
            0 <= j < s.drop_last().len() ==> pos_in_range(#[trigger] s.drop_last()[j].pos)
                && vec_in_range(s.drop_last()[j].vel)) by {
            assert(forall|j: int| 0 <= j < s.len() - 1 ==> #[trigger] s.drop_last()[j] == s[j]);
        }
        lemma_kept_balls_bounds(s.drop_last(), arena);
        let rest = kept_balls(s.drop_last(), arena);
        if !spec_out_of_bound(s.last().pos, arena) {
            assert(kept_balls(s, arena) == rest.push(s.last()));
            assert(pos_in_range(s.last().pos) && vec_in_range(s.last().vel));
            assert(forall|j: int|
                0 <= j < rest.push(s.last()).len() ==> pos_in_range(
                    #[trigger] rest.push(s.last())[j].pos,
                ) && vec_in_range(rest.push(s.last())[j].vel)) by {
                assert(forall|j: int| 0 <= j < rest.len() ==> #[trigger] rest.push(s.last())[j]
                    == rest[j]);
                assert(rest.push(s.last())[rest.len() as int] == s.last());
            }
        }
    }
}

/// Every ball after the constant-speed pass.
pub open spec fn speed_controlled_all(s: Seq<Ball>) -> Seq<Ball> {
    s.map_values(|b: Ball| spec_speed_controlled(b))
}

/// Despawn every ball that left the widened arena bounds and keep the live
/// counter equal to the number of live balls. This is the sole removal path
/// for balls.
pub fn ball_despawn_system(balls: &mut Vec<Ball>, counter: &mut u32, arena: &Rectangle)
    requires
        arena_ok(*arena),
        *old(counter) == old(balls)@.len(),
        forall|j: int| 0 <= j < old(balls)@.len() ==> pos_in_range(#[trigger] old(balls)@[j].pos),
    ensures
        final(balls)@ == kept_balls(old(balls)@, *arena),
        *final(counter) == final(balls)@.len(),
        final(balls)@.len() <= old(balls)@.len(),
{
    let mut kept: Vec<Ball> = Vec::new();
    let mut i: usize = 0;
    while i < balls.len()
        invariant
            i <= balls@.len(),
            *balls == *old(balls),
            arena_ok(*arena),
            forall|j: int| 0 <= j < balls@.len() ==> pos_in_range(#[trigger] balls@[j].pos),
            kept@ == kept_balls(balls@.take(i as int), *arena),
        decreases balls@.len() - i,
    {
        let b = balls[i];
        if !is_out_of_bound(&b.pos, arena) {
            kept.push(b);
        }
        proof {
            assert(balls@.take(i + 1).drop_last() =~= balls@.take(i as int));
            assert(balls@.take(i + 1).last() == balls@[i as int]);
        }
        i += 1;
    }
    proof {
        assert(balls@.take(balls@.len() as int) =~= balls@);
        lemma_kept_balls_len(balls@, *arena);
    }
    *balls = kept;
    let n: usize = balls.len();
    *counter = n as u32;
}

/// The constant-speed pass: every tick, after the engine has integrated,
/// rewrite each ball's velocity to its exact target magnitude while keeping
/// the direction the engine produced.
pub fn ball_speed_control_system(balls: &mut Vec<Ball>)
    requires
        forall|j: int| 0 <= j < old(balls)@.len() ==> vec_in_range(#[trigger] old(balls)@[j].vel),
    ensures
        final(balls)@.len() == old(balls)@.len(),
        forall|j: int|
            0 <= j < old(balls)@.len() ==> final(balls)@[j] == spec_speed_controlled(
                #[trigger] old(balls)@[j],
            ),
        forall|j: int|
            0 <= j < final(balls)@.len() ==> vec_in_range(#[trigger] final(balls)@[j].vel),
{
    let mut out: Vec<Ball> = Vec::new();
    let mut i: usize = 0;
    while i < balls.len()
        invariant
            i <= balls@.len(),
            *balls == *old(balls),
            forall|j: int| 0 <= j < balls@.len() ==> vec_in_range(#[trigger] balls@[j].vel),
            out@.len() == i,
            forall|j: int|
                0 <= j < i ==> out@[j] == spec_speed_controlled(#[trigger] balls@[j]),
            forall|j: int| 0 <= j < i ==> vec_in_range(#[trigger] out@[j].vel),
        decreases balls@.len() - i,
    {
        let b = balls[i];
        let mut vel = b.vel;
        ball_update_speed(b.vel, &b.state, &mut vel);
        out.push(Ball { pos: b.pos, vel, state: b.state });
        i += 1;
    }
    *balls = out;
}

/// The four spawn anchors, in the order top-left, top-right, bottom-left,
/// bottom-right.
pub open spec fn spec_spawn_anchor(arena: Rectangle, idx: int) -> Vec2 {
    if idx == 0 {
        Vec2 { x: arena.x, y: (arena.y + arena.h) as i64 }
    } else if idx == 1 {
        Vec2 { x: (arena.x + arena.w) as i64, y: (arena.y + arena.h) as i64 }
    } else if idx == 2 {
        Vec2 { x: arena.x, y: arena.y }
    } else {
        Vec2 { x: (arena.x + arena.w) as i64, y: arena.y }
    }
}

/// Base outward launch angle of each corner, in degrees.
pub open spec fn spec_base_angle(idx: int) -> int {
    if idx == 0 {
        -45
    } else if idx == 1 {
        -135
    } else if idx == 2 {
        45
    } else {
        135
    }
}

/// The ball spawned from corner `idx` with angle offset `off` degrees:
/// direction `(cos, sin)` of the launch angle, velocity at `BALL_SPEED`
/// (the direction is in thousandths, so the factor is `BALL_SPEED / 1000`),
/// position one corner radius plus one ball radius outward from the anchor
/// (`(CORNER_RADIUS + BALL_RADIUS) / 1000` per thousandth of direction).
pub open spec fn spec_spawned_ball(arena: Rectangle, idx: int, off: int) -> Ball {
    let angle = spec_base_angle(idx) + off;
    let dx = cos_milli(angle);
    let dy = sin_milli(angle);
    let anchor = spec_spawn_anchor(arena, idx);
    Ball {
        pos: Vec2 { x: (anchor.x + dx * 90) as i64, y: (anchor.y + dy * 90) as i64 },
        vel: Vec2 { x: (dx * 400) as i64, y: (dy * 400) as i64 },
        state: BallState { has_energy: false },
    }
}

/// Build the ball spawned from corner `idx` with angle offset `off`.
pub fn make_spawned_ball(arena: &Rectangle, idx: u64, off: i64) -> (b: Ball)
    requires
        arena_ok(*arena),
        idx < 4,
        -30 <= off < 30,
    ensures
        b == spec_spawned_ball(*arena, idx as int, off as int),
        pos_in_range(b.pos),
        vec_in_range(b.vel),
        !b.state.has_energy,
{
    let anchor: Vec2 = if idx == 0 {
        arena.top_left()
    } else if idx == 1 {
        arena.top_right()
    } else if idx == 2 {
        arena.bottom_left()
    } else {
        arena.bottom_right()
    };
    let base: i64 = if idx == 0 {
        -45
    } else if idx == 1 {
        -135
    } else if idx == 2 {
        45
    } else {
        135
    };
    let angle: i64 = base + off;
    let dx: i64 = cos_deg(angle);
    let dy: i64 = sin_deg(angle);
    Ball {
        pos: Vec2 { x: anchor.x + dx * 90, y: anchor.y + dy * 90 },
        vel: Vec2 { x: dx * 400, y: dy * 400 },
        state: BallState { has_energy: false },
    }
}

/// The spawn pass, run on its own slow cadence: at the live-ball cap it is
/// a no-op; below the cap it draws a corner and an angle offset uniformly,
/// appends the spawned ball, and increments the live counter.
pub fn ball_spawn_system(balls: &mut Vec<Ball>, counter: &mut u32, arena: &Rectangle)
    requires
        arena_ok(*arena),
        *old(counter) == old(balls)@.len(),
        *old(counter) <= MAX_BALL_COUNT,
    ensures
        *old(counter) == MAX_BALL_COUNT ==> *final(balls) == *old(balls) && *final(counter)
            == *old(counter),
        *old(counter) < MAX_BALL_COUNT ==> {
            &&& *final(counter) == *old(counter) + 1
            &&& final(balls)@.len() == old(balls)@.len() + 1
            &&& forall|j: int| 0 <= j < old(balls)@.len() ==> final(balls)@[j] == #[trigger] old(
                balls,
            )@[j]
            &&& exists|idx: int, off: int|
                0 <= idx < 4 && -30 <= off < 30 && final(balls)@.last() == spec_spawned_ball(
                    *arena,
                    idx,
                    off,
                )
            &&& pos_in_range(final(balls)@.last().pos)
            &&& vec_in_range(final(balls)@.last().vel)
            &&& !final(balls)@.last().state.has_energy
        },
        *final(counter) == final(balls)@.len(),
{
    if *counter == MAX_BALL_COUNT {
        return ;
    }
    let idx: i64 = sample_range(0, 4);
    let off: i64 = sample_range(-30, 30);
    let b = make_spawned_ball(arena, idx as u64, off);
    balls.push(b);
    *counter = *counter + 1;
}

} // verus!
