//! The target spawner: rejection-sampled placement that avoids the player's
//! box, and a rejection-sampled palette color that differs from the player's.

use vstd::prelude::*;
use crate::color::{SpriteColor, in_palette, palette};
use crate::geometry::{
    Pos, player_in_bounds, target_in_bounds, PLAYER_HALF, TARGET_HALF,
    TARGET_MIN_X, TARGET_MAX_X, TARGET_MIN_Y, TARGET_MAX_Y,
};
use crate::rng::rand_i64_in;
use crate::state::Target;

verus! {

/// How many random draws each sampling loop may take before its
/// deterministic fallback steps in. Rejection sampling is kept as the
/// placement algorithm, but capped so that every call provably returns; the
/// cap is reached only with vanishing probability, or when no acceptable
/// sample exists at all.
pub const SPAWN_ATTEMPTS: u64 = 10_000;

/// The placement acceptance test, deliberately asymmetric: a candidate is
/// accepted when it lies far enough to the left of the player or far enough
/// below it — clearance on either single axis is enough.
pub open spec fn spawn_clear(tp: Pos, pp: Pos) -> bool {
    ||| tp.x + TARGET_HALF < pp.x - PLAYER_HALF
    ||| tp.y + TARGET_HALF < pp.y - PLAYER_HALF
}

/// Some position of the spawn region passes the acceptance test for this
/// player position; exactly then its bottom-left corner does.
pub open spec fn spawn_clear_possible(pp: Pos) -> bool {
    ||| TARGET_MIN_X + TARGET_HALF < pp.x - PLAYER_HALF
    ||| TARGET_MIN_Y + TARGET_HALF < pp.y - PLAYER_HALF
}

/// Draw a position for a new target: uniform candidates over the spawn
/// region, rejected until one passes the acceptance test. After the attempt
/// cap, the region's bottom-left corner is taken; it is accepted whenever
/// any position at all would be.
fn sample_position(pp: Pos) -> (tp: Pos)
    requires
        player_in_bounds(pp),
    ensures
        target_in_bounds(tp),
        spawn_clear_possible(pp) ==> spawn_clear(tp, pp),
{
    let mut attempts: u64 = 0;
    while attempts < SPAWN_ATTEMPTS
        invariant
            player_in_bounds(pp),
        decreases SPAWN_ATTEMPTS - attempts,
    {
        let tx = rand_i64_in(TARGET_MIN_X, TARGET_MAX_X);
        let ty = rand_i64_in(TARGET_MIN_Y, TARGET_MAX_Y);
        if tx + TARGET_HALF < pp.x - PLAYER_HALF || ty + TARGET_HALF < pp.y - PLAYER_HALF {
            return Pos { x: tx, y: ty };
        }
        attempts = attempts + 1;
    }
    Pos { x: TARGET_MIN_X, y: TARGET_MIN_Y }
}

/// Draw a color for a new target: uniform palette draws, rejected until one
/// differs from the player's current color. After the attempt cap, the first
/// palette entry that differs is taken — one of the first two always does.
fn sample_color(player_color: SpriteColor) -> (c: SpriteColor)
    ensures
        in_palette(c),
        c != player_color,
{
    let mut attempts: u64 = 0;
    while attempts < SPAWN_ATTEMPTS
        invariant
            true,
        decreases SPAWN_ATTEMPTS - attempts,
    {
        let i = rand_i64_in(0, 11);
        let c = palette(i as usize);
        if c != player_color {
            return c;
        }
        attempts = attempts + 1;
    }
    let first = palette(0);
    if first != player_color {
        first
    } else {
        palette(1)
    }
}

/// Place a new target. It sits inside the spawn region, clears the player's
/// box by the asymmetric acceptance test whenever that is possible at all,
/// never wears the player's current color, and takes the identity it is
/// handed.
pub fn spawn_target(player_pos: Pos, player_color: SpriteColor, id: u64) -> (t: Target)
    requires
        player_in_bounds(player_pos),
    ensures
        target_in_bounds(t.pos),
        in_palette(t.color),
        t.color != player_color,
        t.id == id,
        spawn_clear_possible(player_pos) ==> spawn_clear(t.pos, player_pos),
{
    let pos = sample_position(player_pos);
    let color = sample_color(player_color);
    Target { pos, color, id }
}

} // verus!
