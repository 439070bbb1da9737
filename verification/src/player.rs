//! The player subsystem: the single paddle on the bottom edge, its
//! input-driven bounded horizontal motion, and the energy-wave lifecycle
//! (fire, grow, expire) with its effect on nearby balls.

use vstd::prelude::*;

use crate::ball::ball_update_speed;
use crate::ball::Ball;
use crate::ball::BallState;
use crate::ball::BALL_RADIUS;
use crate::corner::CORNER_RADIUS;
use crate::engine::BodyKind;
use crate::engine::CombineRule;
use crate::engine::Material;
use crate::speed::spec_project;
use crate::speed::vec_in_range;
use crate::util::arena_ok;
use crate::util::clamp;
use crate::util::pos_in_range;
use crate::util::spec_clamp;
use crate::util::Rectangle;
use crate::util::Vec2;

verus! {

/// Player speed without acceleration, in milliunits per second.
pub const PLAYER_BASE_SPEED: i64 = 350_000;

/// Player speed while the accelerate action is held, in milliunits per second.
pub const PLAYER_ACCELERATE_SPEED: i64 = 550_000;

/// Player collider radius, in milliunits.
pub const PLAYER_RADIUS: i64 = 70_000;

/// How far past the player radius an energy wave reaches, in milliunits.
pub const PLAYER_ENERGY_RADIUS: i64 = 80_000;

/// Deadband of the continuous move axis, in thousandths of full deflection.
pub const GAMEPAD_AXIS_THRESHOLD: i64 = 300;

/// Fast ticks per second of simulated time: the fixed timestep is its
/// reciprocal.
pub const TICKS_PER_SECOND: i64 = 60;

/// The singleton paddle. `pos.y` is fixed at the bottom arena anchor; only
/// `pos.x` ever changes. The player is the one body with friction, combined
/// by maximum.
#[derive(Clone, Copy, PartialEq, Eq, Structural, Debug)]
pub struct Player {
    pub pos: Vec2,
    pub body: BodyKind,
    pub material: Material,
}

/// One live energy wave, attached to the player. Its visual scale starts at
/// one and grows by exactly one fourteenth per tick, so it is carried in
/// fourteenths; the wave's reach is the player radius times the scale.
#[derive(Clone, Copy, PartialEq, Eq, Structural, Debug)]
pub struct PlayerEnergy {
    pub scale_fourteenths: i64,
}

/// A stored wave: spawned at scale one, kept until its scale passes
/// fifteen sevenths (thirty fourteenths).
pub open spec fn wave_wf(w: PlayerEnergy) -> bool {
    14 <= w.scale_fourteenths <= 30
}

/// The device-agnostic input state of one tick: the discrete actions as
/// pressed flags, the continuous move axis clamped to [-1, 1] in
/// thousandths, and the rising edge of the energy action.
#[derive(Clone, Copy, PartialEq, Eq, Structural, Debug)]
pub struct InputState {
    pub move_left: bool,
    pub move_right: bool,
    pub move_axis_milli: i64,
    pub accelerate: bool,
    pub energy_just_pressed: bool,
}

/// The horizontal axis derived from input, by priority: move-left, then
/// move-right, then the continuous axis thresholded at the deadband.
pub open spec fn spec_x_axis(input: InputState) -> int {
    if input.move_left {
        -1
    } else if input.move_right {
        1
    } else if input.move_axis_milli > GAMEPAD_AXIS_THRESHOLD {
        1
    } else if input.move_axis_milli < -GAMEPAD_AXIS_THRESHOLD {
        -1
    } else {
        0
    }
}

/// The player speed chosen by input, in milliunits per second.
pub open spec fn spec_player_speed(input: InputState) -> int {
    if input.accelerate {
        PLAYER_ACCELERATE_SPEED as int
    } else {
        PLAYER_BASE_SPEED as int
    }
}

/// Signed step of one tick, in milliunits: axis times one tick's worth of
/// the chosen speed.
pub open spec fn spec_player_step(input: InputState) -> int {
    spec_x_axis(input) * (spec_player_speed(input) / (TICKS_PER_SECOND as int))
}

/// Leftmost reachable player centre.
pub open spec fn spec_left_bound(arena: Rectangle) -> int {
    arena.x + CORNER_RADIUS + PLAYER_RADIUS
}

/// Rightmost reachable player centre.
pub open spec fn spec_right_bound(arena: Rectangle) -> int {
    arena.x + arena.w - CORNER_RADIUS - PLAYER_RADIUS
}

/// Where one movement tick puts the player centre.
pub open spec fn spec_player_moved_x(x: int, input: InputState, arena: Rectangle) -> int {
    spec_clamp(x + spec_player_step(input), spec_left_bound(arena), spec_right_bound(arena))
}

/// The player centre after `n` movement ticks under one unchanging input.
pub open spec fn spec_iter_moves(x: int, input: InputState, arena: Rectangle, n: nat) -> int
    decreases n,
{
    if n == 0 {
        x
    } else {
        spec_player_moved_x(spec_iter_moves(x, input, arena, (n - 1) as nat), input, arena)
    }
}

/// One movement tick keeps the player centre inside the reachable band
/// whenever that band is non-empty: in particular never below the left
/// bound.
pub proof fn lemma_player_clamp_floor(x: int, input: InputState, arena: Rectangle)
    requires
        spec_left_bound(arena) <= spec_right_bound(arena),
    ensures
        spec_left_bound(arena) <= spec_player_moved_x(x, input, arena) <= spec_right_bound(arena),
{
}

/// Exactly where holding move-left puts the centre after `n` ticks: `n`
/// full steps down, stopped at the left bound.
proof fn lemma_left_steps_exact(x: int, input: InputState, arena: Rectangle, n: nat)
    requires
        input.move_left,
        spec_left_bound(arena) <= spec_right_bound(arena),
        spec_left_bound(arena) <= x <= spec_right_bound(arena),
    ensures
        ({
            let m = spec_player_speed(input) / (TICKS_PER_SECOND as int);
            spec_iter_moves(x, input, arena, n) == if x - n * m < spec_left_bound(arena) {
                spec_left_bound(arena)
            } else {
                x - n * m
            }
        }),
    decreases n,
{
    let m = spec_player_speed(input) / (TICKS_PER_SECOND as int);
    assert(m == 5_833 || m == 9_166);
    if n == 0 {
        assert(n * m == 0) by (nonlinear_arith)
            requires
                n == 0,
        ;
    } else {
        lemma_left_steps_exact(x, input, arena, (n - 1) as nat);
        let y = spec_iter_moves(x, input, arena, (n - 1) as nat);
        assert(n * m == (n - 1) * m + m) by (nonlinear_arith);
        assert(spec_x_axis(input) == -1);
        assert(spec_player_step(input) == -m) by (nonlinear_arith)
            requires
                spec_player_step(input) == spec_x_axis(input) * m,
                spec_x_axis(input) == -1,
        ;
    }
}

/// Moving the player left indefinitely converges to exactly the left
/// bound, `arena left + corner radius + player radius`, and never passes
/// below it: once `n` steps cover the distance, the centre sits exactly on
/// the bound.
pub proof fn lemma_player_left_converges(x: int, input: InputState, arena: Rectangle, n: nat)
    requires
        input.move_left,
        spec_left_bound(arena) <= spec_right_bound(arena),
        spec_left_bound(arena) <= x <= spec_right_bound(arena),
        n * (spec_player_speed(input) / (TICKS_PER_SECOND as int)) >= x - spec_left_bound(arena),
    ensures
        spec_iter_moves(x, input, arena, n) == spec_left_bound(arena),
{
    lemma_left_steps_exact(x, input, arena, n);
}

/// Create the paddle at the bottom middle anchor. Runs once at startup.
pub fn player_spawn_system(arena: &Rectangle) -> (p: Player)
    requires
        arena_ok(*arena),
    ensures
        p.pos.x == (2 * arena.x + arena.w) / 2,
        p.pos.y == arena.y,
        p.body == BodyKind::KinematicPositionBased,
        p.material == (Material {
            restitution_milli: 1000,
            restitution_rule: CombineRule::Min,
            friction_milli: 650,
            friction_rule: CombineRule::Max,
        }),
        pos_in_range(p.pos),
{
    Player {
        pos: arena.bottom_middle(),
        body: BodyKind::KinematicPositionBased,
        material: Material {
            restitution_milli: 1000,
            restitution_rule: CombineRule::Min,
            friction_milli: 650,
            friction_rule: CombineRule::Max,
        },
    }
}

/// The movement pass: direct kinematic positioning from input, clamped to
/// the reachable band of the bottom edge. Without a player it is a no-op.
pub fn player_keyboard_event_system(
    player: &mut Option<Player>,
    input: &InputState,
    arena: &Rectangle,
)
    requires
        arena_ok(*arena),
        (*old(player)) is Some ==> pos_in_range((*old(player))->Some_0.pos),
    ensures
        (*old(player)) is None ==> *final(player) == *old(player),
        (*old(player)) is Some ==> {
            let p = (*old(player))->Some_0;
            &&& *final(player) == Some(
                Player {
                    pos: Vec2 {
                        x: spec_player_moved_x(p.pos.x as int, *input, *arena) as i64,
                        y: p.pos.y,
                    },
                    ..p
                },
            )
            &&& pos_in_range((*final(player))->Some_0.pos)
        },
{
    match player {
        Option::None => {},
        Option::Some(p) => {
            let axis: i64 = if input.move_left {
                -1
            } else if input.move_right {
                1
            } else if input.move_axis_milli > GAMEPAD_AXIS_THRESHOLD {
                1
            } else if input.move_axis_milli < -GAMEPAD_AXIS_THRESHOLD {
                -1
            } else {
                0
            };
            let speed: i64 = if input.accelerate {
                PLAYER_ACCELERATE_SPEED
            } else {
                PLAYER_BASE_SPEED
            };
            let step: i64 = ((speed as u64) / (TICKS_PER_SECOND as u64)) as i64;
            let lo: i64 = arena.x + CORNER_RADIUS + PLAYER_RADIUS;
            let hi: i64 = arena.x + arena.w - CORNER_RADIUS - PLAYER_RADIUS;
            proof {
                assert(-9_167 <= axis * step <= 9_167) by (nonlinear_arith)
                    requires
                        -1 <= axis <= 1,
                        0 <= step <= 9_167,
                ;
            }
            p.pos.x = clamp(p.pos.x + axis * step, lo, hi);
        },
    }
}

/// The fire pass: on the rising edge of the energy action, spawn one wave
/// at the player's radius (scale one). Without a player it is a no-op.
pub fn player_fire_energy(
    player: &Option<Player>,
    input: &InputState,
    waves: &mut Vec<PlayerEnergy>,
)
    ensures
        player is Some && input.energy_just_pressed ==> final(waves)@ == old(waves)@.push(
            PlayerEnergy { scale_fourteenths: 14 },
        ),
        !(player is Some && input.energy_just_pressed) ==> *final(waves) == *old(waves),
{
    if player.is_some() && input.energy_just_pressed {
        waves.push(PlayerEnergy { scale_fourteenths: 14 });
    }
}

/// The waves that survive one growth tick: each grown by one fourteenth of
/// scale, those past thirty fourteenths dropped, order kept.
pub open spec fn grown_waves(s: Seq<PlayerEnergy>) -> Seq<PlayerEnergy>
    decreases s.len(),
{
    if s.len() == 0 {
        Seq::empty()
    } else {
        let rest = grown_waves(s.drop_last());
        let g = PlayerEnergy { scale_fourteenths: (s.last().scale_fourteenths + 1) as i64 };
        if g.scale_fourteenths > 30 {
            rest
        } else {
            rest.push(g)
        }
    }
}

/// The growth pass: every tick each wave grows by one fourteenth of scale
/// and is destroyed once its scale exceeds fifteen sevenths, which is the
/// scale at which its reach is the player radius plus the energy radius.
pub fn player_update_energy(waves: &mut Vec<PlayerEnergy>)
    requires
        forall|j: int| 0 <= j < old(waves)@.len() ==> wave_wf(#[trigger] old(waves)@[j]),
    ensures
        final(waves)@ == grown_waves(old(waves)@),
        forall|j: int| 0 <= j < final(waves)@.len() ==> wave_wf(#[trigger] final(waves)@[j]),
{
    let mut out: Vec<PlayerEnergy> = Vec::new();
    let mut i: usize = 0;
    while i < waves.len()
        invariant
            i <= waves@.len(),
            *waves == *old(waves),
            forall|j: int| 0 <= j < waves@.len() ==> wave_wf(#[trigger] waves@[j]),
            out@ == grown_waves(waves@.take(i as int)),
            forall|j: int| 0 <= j < out@.len() ==> wave_wf(#[trigger] out@[j]),
        decreases waves@.len() - i,
    {
        let w = waves[i];
        let g = PlayerEnergy { scale_fourteenths: w.scale_fourteenths + 1 };
        if g.scale_fourteenths <= 30 {
            out.push(g);
        }
        proof {
            assert(waves@.take(i + 1).drop_last() =~= waves@.take(i as int));
            assert(waves@.take(i + 1).last() == waves@[i as int]);
        }
        i += 1;
    }
    proof {
        assert(waves@.take(waves@.len() as int) =~= waves@);
    }
    *waves = out;
}

/// Squared distance between two positions.
pub open spec fn dist_sq(p: Vec2, q: Vec2) -> int {
    (p.x - q.x) * (p.x - q.x) + (p.y - q.y) * (p.y - q.y)
}

/// A wave's hit threshold against a ball: its current reach (player radius
/// times scale) plus the ball radius, in milliunits.
pub open spec fn spec_wave_threshold(w: PlayerEnergy) -> int {
    (PLAYER_RADIUS / 14) * w.scale_fourteenths + BALL_RADIUS
}

/// Whether any live wave covers the ball: strictly closer to the player
/// centre than that wave's threshold.
pub open spec fn spec_ball_covered(b: Ball, ppos: Vec2, waves: Seq<PlayerEnergy>) -> bool {
    exists|k: int|
        0 <= k < waves.len() && dist_sq(b.pos, ppos) < spec_wave_threshold(#[trigger] waves[k])
            * spec_wave_threshold(waves[k])
}

/// A ball after the hit pass: a covered ball is energized and redirected
/// radially outward from the player at the boosted speed; any other ball is
/// untouched.
pub open spec fn spec_energy_hit(b: Ball, ppos: Vec2, waves: Seq<PlayerEnergy>) -> Ball {
    if spec_ball_covered(b, ppos, waves) {
        let diff = Vec2 { x: (b.pos.x - ppos.x) as i64, y: (b.pos.y - ppos.y) as i64 };
        let (px, py) = spec_project(diff, crate::ball::spec_ball_speed(true));
        Ball {
            pos: b.pos,
            vel: Vec2 { x: px as i64, y: py as i64 },
            state: BallState { has_energy: true },
        }
    } else {
        b
    }
}

/// The energized flag is one way: the hit pass never clears it, and a ball
/// it does not cover is untouched entirely.
pub proof fn lemma_energize_one_way(b: Ball, ppos: Vec2, waves: Seq<PlayerEnergy>)
    ensures
        b.state.has_energy ==> spec_energy_hit(b, ppos, waves).state.has_energy,
        !spec_ball_covered(b, ppos, waves) ==> spec_energy_hit(b, ppos, waves) == b,
{
}

/// The hit pass: every tick, each ball strictly within a live wave's
/// threshold of the player centre is energized (one way, never cleared) and
/// its velocity recomputed along the player-to-ball direction at the
/// boosted speed. Without a player it is a no-op.
pub fn player_energy_hit_ball(
    player: &Option<Player>,
    waves: &Vec<PlayerEnergy>,
    balls: &mut Vec<Ball>,
)
    requires
        player is Some ==> pos_in_range(player->Some_0.pos),
        forall|j: int| 0 <= j < old(balls)@.len() ==> pos_in_range(#[trigger] old(balls)@[j].pos),
        forall|j: int| 0 <= j < old(balls)@.len() ==> vec_in_range(#[trigger] old(balls)@[j].vel),
        forall|j: int| 0 <= j < waves@.len() ==> wave_wf(#[trigger] waves@[j]),
    ensures
        player is None ==> *final(balls) == *old(balls),
        final(balls)@.len() == old(balls)@.len(),
        player is Some ==> forall|j: int|
            0 <= j < old(balls)@.len() ==> final(balls)@[j] == spec_energy_hit(
                #[trigger] old(balls)@[j],
                player->Some_0.pos,
                waves@,
            ),
        forall|j: int| 0 <= j < final(balls)@.len() ==> pos_in_range(#[trigger] final(balls)@[j].pos),
        forall|j: int| 0 <= j < final(balls)@.len() ==> vec_in_range(#[trigger] final(balls)@[j].vel),
{
    let p = match player {
        Option::None => {
            return ;
        },
        Option::Some(p) => p,
    };
    let mut out: Vec<Ball> = Vec::new();
    let mut i: usize = 0;
    while i < balls.len()
        invariant
            i <= balls@.len(),
            *balls == *old(balls),
            pos_in_range(p.pos),
            forall|j: int| 0 <= j < balls@.len() ==> pos_in_range(#[trigger] balls@[j].pos),
            forall|j: int| 0 <= j < balls@.len() ==> vec_in_range(#[trigger] balls@[j].vel),
            forall|j: int| 0 <= j < waves@.len() ==> wave_wf(#[trigger] waves@[j]),
            out@.len() == i,
            forall|j: int|
                0 <= j < i ==> out@[j] == spec_energy_hit(#[trigger] balls@[j], p.pos, waves@),
            forall|j: int| 0 <= j < i ==> pos_in_range(#[trigger] out@[j].pos),
            forall|j: int| 0 <= j < i ==> vec_in_range(#[trigger] out@[j].vel),
        decreases balls@.len() - i,
    {
        let b = balls[i];
        let dx: i64 = b.pos.x - p.pos.x;
        let dy: i64 = b.pos.y - p.pos.y;
        proof {
            assert((dx as i128) * (dx as i128) + (dy as i128) * (dy as i128) == dist_sq(
                b.pos,
                p.pos,
            ) && 0 <= (dx as i128) * (dx as i128) <= 810_000_000_000_000_000 && 0 <= (dy as i128)
                * (dy as i128) <= 810_000_000_000_000_000) by (nonlinear_arith)
                requires
                    -900_000_000 <= dx <= 900_000_000,
                    -900_000_000 <= dy <= 900_000_000,
                    dx == b.pos.x - p.pos.x,
                    dy == b.pos.y - p.pos.y,
            ;
        }
        let d2: i128 = (dx as i128) * (dx as i128) + (dy as i128) * (dy as i128);
        let mut covered: bool = false;
        let mut k: usize = 0;
        while k < waves.len()
            invariant
                k <= waves@.len(),
                forall|j: int| 0 <= j < waves@.len() ==> wave_wf(#[trigger] waves@[j]),
                d2 == dist_sq(b.pos, p.pos),
                covered == exists|t: int|
                    0 <= t < k && dist_sq(b.pos, p.pos) < spec_wave_threshold(#[trigger] waves@[t])
                        * spec_wave_threshold(waves@[t]),
            decreases waves@.len() - k,
        {
            let thr: i64 = (PLAYER_RADIUS / 14) * waves[k].scale_fourteenths + BALL_RADIUS;
            proof {
                assert(thr == spec_wave_threshold(waves@[k as int]) && 0 <= (thr as i128) * (
                thr as i128) <= 28_900_000_000) by (nonlinear_arith)
                    requires
                        thr == 5_000 * waves@[k as int].scale_fourteenths + 20_000,
                        14 <= waves@[k as int].scale_fourteenths <= 30,
                        PLAYER_RADIUS / 14 == 5_000,
                        spec_wave_threshold(waves@[k as int]) == (PLAYER_RADIUS / 14)
                            * waves@[k as int].scale_fourteenths + BALL_RADIUS,
                ;
            }
            if d2 < (thr as i128) * (thr as i128) {
                covered = true;
                proof {
                    assert(0 <= k < waves@.len() && dist_sq(b.pos, p.pos) < spec_wave_threshold(
                        waves@[k as int],
                    ) * spec_wave_threshold(waves@[k as int]));
                }
            }
            k += 1;
        }
        if covered {
            let diff = Vec2 { x: dx, y: dy };
            let mut st = b.state;
            st.energize();
            let mut vel = b.vel;
            ball_update_speed(diff, &st, &mut vel);
            out.push(Ball { pos: b.pos, vel, state: st });
        } else {
            out.push(b);
        }
        i += 1;
    }
    *balls = out;
}

} // verus!
