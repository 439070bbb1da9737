//! Simulation core of a 2D arena game: a rounded-rectangle playfield in
//! which balls bounce among fixed corner and wall obstacles while a player
//! paddle moves along the bottom edge and can emit an expanding energy wave
//! that accelerates nearby balls.
//!
//! All lengths are carried as integers in thousandths of a world unit
//! (milliunits), and speeds in milliunits per second, so every per-tick
//! rule is exact integer arithmetic. The external rigid-body engine is a
//! collaborator: this crate issues its inputs (body kind, collider shape,
//! material, velocity) and consumes its outputs (positions and velocities)
//! as plain values.

pub mod arena;
pub mod ball;
pub mod barrier;
pub mod corner;
pub mod engine;
pub mod num;
pub mod player;
pub mod speed;
pub mod trig;
pub mod util;
pub mod world;

mod rng;

pub use util::clamp;
pub use util::Rectangle;
pub use util::Vec2;
