//! The whole game state and the per-tick passes over it. One fast tick is:
//! the pre-physics passes (player movement, wave growth and expiry, wave
//! fire, wave-to-ball hit test), then the external engine integrates every
//! body and its outputs are applied, then the post-physics passes (the
//! constant-speed rewrite and the out-of-bounds despawn). Ball spawning
//! runs on its own slower cadence.

use vstd::prelude::*;

use crate::ball::ball_despawn_system;
use crate::ball::ball_spawn_system;
use crate::ball::ball_speed_control_system;
use crate::ball::kept_balls;
use crate::ball::lemma_kept_balls_bounds;
use crate::ball::speed_controlled_all;
use crate::ball::spec_spawned_ball;
use crate::ball::Ball;
use crate::ball::MAX_BALL_COUNT;
use crate::barrier::barrier_spawn_system;
use crate::barrier::spec_barriers;
use crate::barrier::Barrier;
use crate::corner::corner_spawn_system;
use crate::corner::spec_corners;
use crate::corner::Corner;
use crate::engine::BodyUpdate;
use crate::player::grown_waves;
use crate::player::player_energy_hit_ball;
use crate::player::player_fire_energy;
use crate::player::player_keyboard_event_system;
use crate::player::player_spawn_system;
use crate::player::player_update_energy;
use crate::player::spec_energy_hit;
use crate::player::spec_player_moved_x;
use crate::player::wave_wf;
use crate::player::InputState;
use crate::player::Player;
use crate::player::PlayerEnergy;
use crate::speed::vec_in_range;
use crate::util::arena_ok;
use crate::util::pos_in_range;
use crate::util::Rectangle;
use crate::util::Vec2;

verus! {

/// Everything the simulation owns: the read-only arena, the ball store with
/// its live counter, the singleton player, the live energy waves, and the
/// obstacles created at startup.
pub struct GameState {
    pub arena: Rectangle,
    pub balls: Vec<Ball>,
    pub ball_counter: u32,
    pub player: Option<Player>,
    pub waves: Vec<PlayerEnergy>,
    pub corners: Vec<Corner>,
    pub barriers: Vec<Barrier>,
}

/// The waves after one pre-physics tick: every wave grown and expired ones
/// dropped, then one fresh wave appended if the energy action fired.
pub open spec fn spec_waves_after(waves: Seq<PlayerEnergy>, fired: bool) -> Seq<PlayerEnergy> {
    let g = grown_waves(waves);
    if fired {
        g.push(PlayerEnergy { scale_fourteenths: 14 })
    } else {
        g
    }
}

/// A ball after the engine's report is applied: engine position and
/// velocity, state kept.
pub open spec fn spec_applied_ball(u: BodyUpdate, b: Ball) -> Ball {
    Ball { pos: u.pos, vel: u.vel, state: b.state }
}

/// The player after one movement pass.
pub open spec fn spec_player_after(p: Option<Player>, input: InputState, arena: Rectangle) -> Option<
    Player,
> {
    match p {
        Option::None => Option::None,
        Option::Some(pl) => Option::Some(
            Player {
                pos: Vec2 {
                    x: spec_player_moved_x(pl.pos.x as int, input, arena) as i64,
                    y: pl.pos.y,
                },
                ..pl
            },
        ),
    }
}

impl GameState {
    /// Well-formedness, held by construction and preserved by every pass:
    /// the arena is a valid play rectangle, the live counter equals the
    /// number of live balls and never exceeds the cap, every coordinate is
    /// bounded, and every stored wave is within its lifetime.
    pub open spec fn wf(self) -> bool {
        &&& arena_ok(self.arena)
        &&& self.ball_counter == self.balls@.len()
        &&& self.balls@.len() <= MAX_BALL_COUNT
        &&& forall|j: int| 0 <= j < self.balls@.len() ==> pos_in_range(#[trigger] self.balls@[j].pos)
        &&& forall|j: int| 0 <= j < self.balls@.len() ==> vec_in_range(#[trigger] self.balls@[j].vel)
        &&& self.player is Some ==> pos_in_range(self.player->Some_0.pos)
        &&& forall|j: int| 0 <= j < self.waves@.len() ==> wave_wf(#[trigger] self.waves@[j])
    }

    /// Startup: obstacles at the arena anchors, the paddle at the bottom
    /// middle, no balls and no waves.
    pub fn new(arena: Rectangle) -> (g: GameState)
        requires
            arena_ok(arena),
        ensures
            g.wf(),
            g.arena == arena,
            g.balls@.len() == 0,
            g.ball_counter == 0,
            g.waves@.len() == 0,
            g.player is Some,
            g.player->Some_0.pos.x == (2 * arena.x + arena.w) / 2,
            g.player->Some_0.pos.y == arena.y,
            g.corners@ == spec_corners(arena),
            g.barriers@ == spec_barriers(arena),
    {
        let player = player_spawn_system(&arena);
        GameState {
            arena,
            balls: Vec::new(),
            ball_counter: 0,
            player: Some(player),
            waves: Vec::new(),
            corners: corner_spawn_system(&arena),
            barriers: barrier_spawn_system(&arena),
        }
    }

    /// The pre-physics passes of one fast tick, in order: player movement
    /// from input, wave growth and expiry, wave fire on the energy rising
    /// edge, then the wave-to-ball hit test. Obstacles and the arena are
    /// untouched; no ball is created or destroyed here.
    pub fn pre_physics_tick(&mut self, input: &InputState)
        requires
            old(self).wf(),
        ensures
            final(self).wf(),
            final(self).arena == old(self).arena,
            final(self).corners == old(self).corners,
            final(self).barriers == old(self).barriers,
            final(self).ball_counter == old(self).ball_counter,
            final(self).balls@.len() == old(self).balls@.len(),
            final(self).player == spec_player_after(old(self).player, *input, old(self).arena),
            final(self).waves@ == spec_waves_after(
                old(self).waves@,
                old(self).player is Some && input.energy_just_pressed,
            ),
            old(self).player is None ==> final(self).balls == old(self).balls,
            old(self).player is Some ==> forall|j: int|
                0 <= j < old(self).balls@.len() ==> final(self).balls@[j] == spec_energy_hit(
                    #[trigger] old(self).balls@[j],
                    spec_player_after(old(self).player, *input, old(self).arena)->Some_0.pos,
                    final(self).waves@,
                ),
    {
        player_keyboard_event_system(&mut self.player, input, &self.arena);
        player_update_energy(&mut self.waves);
        player_fire_energy(&self.player, input, &mut self.waves);
        player_energy_hit_ball(&self.player, &self.waves, &mut self.balls);
    }

    /// Apply what the engine reported for this tick: each live ball's new
    /// position and velocity, in store order. Ball states, the player, the
    /// waves and the obstacles are untouched.
    pub fn apply_engine_update(&mut self, updates: &Vec<BodyUpdate>)
        requires
            old(self).wf(),
            updates@.len() == old(self).balls@.len(),
            forall|j: int| 0 <= j < updates@.len() ==> pos_in_range(#[trigger] updates@[j].pos),
            forall|j: int| 0 <= j < updates@.len() ==> vec_in_range(#[trigger] updates@[j].vel),
        ensures
            final(self).wf(),
            final(self).arena == old(self).arena,
            final(self).corners == old(self).corners,
            final(self).barriers == old(self).barriers,
            final(self).player == old(self).player,
            final(self).waves == old(self).waves,
            final(self).ball_counter == old(self).ball_counter,
            final(self).balls@.len() == old(self).balls@.len(),
            forall|j: int|
                0 <= j < old(self).balls@.len() ==> final(self).balls@[j] == spec_applied_ball(
                    updates@[j],
                    #[trigger] old(self).balls@[j],
                ),
    {
        let mut out: Vec<Ball> = Vec::new();
        let mut i: usize = 0;
        while i < self.balls.len()
            invariant
                i <= self.balls@.len(),
                self.balls@.len() == updates@.len(),
                forall|j: int| 0 <= j < updates@.len() ==> pos_in_range(#[trigger] updates@[j].pos),
                forall|j: int| 0 <= j < updates@.len() ==> vec_in_range(#[trigger] updates@[j].vel),
                out@.len() == i,
                forall|j: int|
                    0 <= j < i ==> out@[j] == spec_applied_ball(
                        updates@[j],
                        #[trigger] self.balls@[j],
                    ),
            decreases self.balls@.len() - i,
        {
            let u = updates[i];
            let b = self.balls[i];
            out.push(Ball { pos: u.pos, vel: u.vel, state: b.state });
            i += 1;
        }
        self.balls = out;
        proof {
            assert(forall|j: int|
                0 <= j < self.balls@.len() ==> pos_in_range(#[trigger] self.balls@[j].pos)
                    && vec_in_range(self.balls@[j].vel)) by {
                assert(forall|j: int|
                    0 <= j < self.balls@.len() ==> #[trigger] self.balls@[j] == spec_applied_ball(
                        updates@[j],
                        old(self).balls@[j],
                    ) && pos_in_range(updates@[j].pos) && vec_in_range(updates@[j].vel));
            }
            assert forall|j: int|
                0 <= j < self.balls@.len() implies vec_in_range(#[trigger] self.balls@[j].vel) by {
                assert(pos_in_range(self.balls@[j].pos) && vec_in_range(self.balls@[j].vel));
            }
        }
    }

    /// The post-physics passes of one fast tick, in order: the
    /// constant-speed rewrite of every ball's velocity, then the despawn of
    /// every ball outside the widened arena bounds, with the live counter
    /// kept equal to the number of live balls.
    pub fn post_physics_tick(&mut self)
        requires
            old(self).wf(),
        ensures
            final(self).wf(),
            final(self).arena == old(self).arena,
            final(self).corners == old(self).corners,
            final(self).barriers == old(self).barriers,
            final(self).player == old(self).player,
            final(self).waves == old(self).waves,
            final(self).balls@ == kept_balls(
                speed_controlled_all(old(self).balls@),
                old(self).arena,
            ),
            final(self).ball_counter == final(self).balls@.len(),
            final(self).balls@.len() <= old(self).balls@.len(),
    {
        ball_speed_control_system(&mut self.balls);
        proof {
            assert(self.balls@ =~= speed_controlled_all(old(self).balls@));
            assert(forall|j: int|
                0 <= j < self.balls@.len() ==> pos_in_range(#[trigger] self.balls@[j].pos)) by {
                assert(forall|j: int|
                    0 <= j < self.balls@.len() ==> #[trigger] self.balls@[j].pos == old(
                        self,
                    ).balls@[j].pos);
            }
        }
        ball_despawn_system(&mut self.balls, &mut self.ball_counter, &self.arena);
        proof {
            lemma_kept_balls_bounds(speed_controlled_all(old(self).balls@), old(self).arena);
        }
    }

    /// The spawn pass, on its own slow cadence: a no-op at the live-ball
    /// cap, otherwise one ball appears at a uniformly random corner with a
    /// uniformly random launch angle and the counter grows by one.
    pub fn spawn_tick(&mut self)
        requires
            old(self).wf(),
        ensures
            final(self).wf(),
            final(self).arena == old(self).arena,
            final(self).corners == old(self).corners,
            final(self).barriers == old(self).barriers,
            final(self).player == old(self).player,
            final(self).waves == old(self).waves,
            final(self).ball_counter == final(self).balls@.len(),
            old(self).ball_counter == MAX_BALL_COUNT ==> final(self).balls == old(self).balls
                && final(self).ball_counter == old(self).ball_counter,
            old(self).ball_counter < MAX_BALL_COUNT ==> {
                &&& final(self).ball_counter == old(self).ball_counter + 1
                &&& final(self).balls@.len() == old(self).balls@.len() + 1
                &&& forall|j: int|
                    0 <= j < old(self).balls@.len() ==> final(self).balls@[j] == #[trigger] old(
                        self,
                    ).balls@[j]
                &&& exists|idx: int, off: int|
                    0 <= idx < 4 && -30 <= off < 30 && final(self).balls@.last()
                        == spec_spawned_ball(old(self).arena, idx, off)
            },
    {
        ball_spawn_system(&mut self.balls, &mut self.ball_counter, &self.arena);
        proof {
            if old(self).ball_counter < MAX_BALL_COUNT {
                let n = old(self).balls@.len() as int;
                assert(forall|j: int|
                    0 <= j < self.balls@.len() ==> pos_in_range(#[trigger] self.balls@[j].pos)
                        && vec_in_range(self.balls@[j].vel)) by {
                    assert(forall|j: int|
                        0 <= j < n ==> #[trigger] self.balls@[j] == old(self).balls@[j]);
                    assert(self.balls@[n] == self.balls@.last());
                }
                assert forall|j: int|
                    0 <= j < self.balls@.len() implies vec_in_range(
                    #[trigger] self.balls@[j].vel,
                ) by {
                    assert(pos_in_range(self.balls@[j].pos) && vec_in_range(self.balls@[j].vel));
                }
            }
        }
    }
}

/// The live-ball bound: in every well-formed state the counter sits
/// between zero and the cap and equals the number of live balls; every
/// pass above preserves well-formedness.
pub proof fn lemma_ball_count_invariant(g: GameState)
    requires
        g.wf(),
    ensures
        0 <= g.ball_counter <= MAX_BALL_COUNT,
        g.ball_counter == g.balls@.len(),
{
}

} // verus!
