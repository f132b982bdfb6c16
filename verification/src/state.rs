//! The entity store: the single player, the at-most-one live target, the
//! scoreboard and the identity counter for spawned targets.

use vstd::prelude::*;
use crate::color::{SpriteColor, in_palette};
use crate::geometry::{Pos, player_in_bounds, target_in_bounds};

verus! {

/// The player square: its center and current sprite color. Exactly one
/// player exists for the whole session; it starts at the arena center in
/// green and is never destroyed.
#[derive(Clone, Copy, Debug)]
pub struct Player {
    pub pos: Pos,
    pub color: SpriteColor,
}

/// A target square: its center, its sprite color, and a numeric identity
/// fresh per spawn, so a respawned target is observably a new entity.
#[derive(Clone, Copy, Debug)]
pub struct Target {
    pub pos: Pos,
    pub color: SpriteColor,
    pub id: u64,
}

/// A live target sits inside its spawn region, wears a palette color, and
/// carries an identity issued before the current counter value.
pub open spec fn target_wf(t: Target, next_target_id: int) -> bool {
    &&& target_in_bounds(t.pos)
    &&& in_palette(t.color)
    &&& (t.id as int) < next_target_id
}

/// The whole simulation state, owned by the tick loop and passed to each
/// phase explicitly.
#[derive(Clone, Copy, Debug)]
pub struct SimState {
    pub player: Player,
    pub target: Option<Target>,
    pub score: u64,
    pub next_target_id: u64,
}

/// The state invariant: the player stays inside the playable bounds and the
/// live target, if any, is well formed.
pub open spec fn sim_wf(s: SimState) -> bool {
    &&& player_in_bounds(s.player.pos)
    &&& match s.target {
        Option::Some(t) => target_wf(t, s.next_target_id as int),
        Option::None => true,
    }
}

impl SimState {
    /// The startup state: the player centered and green, no target spawned
    /// yet, the score at zero.
    pub fn new() -> (s: SimState)
        ensures
            sim_wf(s),
            s.player.pos == (Pos { x: 0, y: 0 }),
            s.player.color == SpriteColor::Green,
            s.target is None,
            s.score == 0,
            s.next_target_id == 0,
    {
        SimState {
            player: Player { pos: Pos { x: 0, y: 0 }, color: SpriteColor::Green },
            target: Option::None,
            score: 0,
            next_target_id: 0,
        }
    }
}

} // verus!
