//! Simulation core for a small arcade game: a player-controlled square moves
//! inside a bounded arena and scores points by touching a randomly spawned
//! target square.
//!
//! All coordinates are fixed-point integers in milli-pixel units (one pixel
//! is 1000 units), so the whole per-tick pipeline — input aggregation,
//! movement with arena clamping, axis-aligned overlap testing, scoring and
//! target respawning — is deterministic integer arithmetic apart from the
//! random draws, which go through a small trusted wrapper around `rand`.

pub mod color;
pub mod geometry;
pub mod input;
pub mod movement;
pub mod rng;
pub mod score;
pub mod spawn;
pub mod state;
pub mod tick;

pub use color::SpriteColor;
pub use geometry::Pos;
pub use input::{InputSnapshot, KeyInput, StickInput};
pub use state::{Player, SimState, Target};
pub use tick::{HitEvent, TickOutput};
