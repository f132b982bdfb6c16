//! The fixed-timestep pipeline: movement, then collision and scoring, then
//! the reactions that consume the tick's hit event — sound and rumble
//! intents, the respawn, and the score display.

use vstd::prelude::*;
use crate::color::in_palette;
use crate::geometry::{spec_overlaps, target_in_bounds, PLAYER_HALF, TARGET_HALF};
use crate::input::{InputSnapshot, KeyInput, StickInput, snapshot_wf};
use crate::movement::{move_player, spec_player_after};
use crate::rng::rand_i64_in;
use crate::color::palette;
use crate::geometry::overlaps;
use crate::score::{score_digits, spec_score_digits};
use crate::spawn::{spawn_target, spawn_clear, spawn_clear_possible};
use crate::state::{SimState, sim_wf};

verus! {

/// The transient per-tick hit signal. It carries no payload, is produced at
/// most once per tick, and never outlives the tick that produced it.
#[derive(Clone, Copy, Debug, PartialEq, Eq, Structural)]
pub struct HitEvent {}

/// Everything one tick hands the presentation layer: the exit intent, the
/// hit outcome, the fire-and-forget side-effect intents, and the score text.
#[derive(Debug)]
pub struct TickOutput {
    pub exit: bool,
    pub hit: Option<HitEvent>,
    pub play_sound: bool,
    pub rumble_pads: usize,
    pub score_digits: Vec<u8>,
}

/// The player's box overlaps the live target's box in this state.
pub open spec fn spec_hit(s: SimState) -> bool {
    match s.target {
        Option::Some(t) => spec_overlaps(
            s.player.pos,
            PLAYER_HALF as int,
            PLAYER_HALF as int,
            t.pos,
            TARGET_HALF as int,
            TARGET_HALF as int,
        ),
        Option::None => false,
    }
}

/// After the movement phase of a tick, the player overlaps the tick's
/// starting target.
pub open spec fn spec_hit_moved(s: SimState, keys: KeyInput, pads: Seq<StickInput>, dt: int) -> bool {
    match s.target {
        Option::Some(t) => spec_overlaps(
            spec_player_after(s.player.pos, keys, pads, dt),
            PLAYER_HALF as int,
            PLAYER_HALF as int,
            t.pos,
            TARGET_HALF as int,
            TARGET_HALF as int,
        ),
        Option::None => false,
    }
}

/// Collision and scoring phase. On an overlap with the live target: despawn
/// it, recolor the player with a random palette entry, raise the score by
/// one, and emit the tick's one hit event. Otherwise nothing changes.
pub fn check_the_hit(state: &mut SimState) -> (hit: Option<HitEvent>)
    requires
        sim_wf(*old(state)),
        old(state).score < u64::MAX,
    ensures
        sim_wf(*final(state)),
        hit is Some <==> spec_hit(*old(state)),
        final(state).player.pos == old(state).player.pos,
        final(state).next_target_id == old(state).next_target_id,
        hit is Some ==> {
            &&& final(state).score == old(state).score + 1
            &&& final(state).target is None
            &&& in_palette(final(state).player.color)
        },
        hit is None ==> *final(state) == *old(state),
{
    let hit_now = match &state.target {
        Option::Some(t) => overlaps(
            state.player.pos,
            PLAYER_HALF,
            PLAYER_HALF,
            t.pos,
            TARGET_HALF,
            TARGET_HALF,
        ),
        Option::None => false,
    };
    if hit_now {
        state.target = Option::None;
        let ci = rand_i64_in(0, 11);
        state.player.color = palette(ci as usize);
        state.score = state.score + 1;
        Option::Some(HitEvent {  })
    } else {
        Option::None
    }
}

/// Spawn a target now, observing the player's current position and color:
/// run once at startup for the first target, and by the respawn reaction
/// after every hit.
pub fn create_new_target(state: &mut SimState)
    requires
        sim_wf(*old(state)),
        old(state).next_target_id < u64::MAX,
    ensures
        sim_wf(*final(state)),
        final(state).player == old(state).player,
        final(state).score == old(state).score,
        final(state).next_target_id == old(state).next_target_id + 1,
        match final(state).target {
            Option::Some(t) => {
                &&& t.id == old(state).next_target_id
                &&& t.color != old(state).player.color
                &&& in_palette(t.color)
                &&& target_in_bounds(t.pos)
                &&& (spawn_clear_possible(old(state).player.pos)
                    ==> spawn_clear(t.pos, old(state).player.pos))
            },
            Option::None => false,
        },
{
    let t = spawn_target(state.player.pos, state.player.color, state.next_target_id);
    state.target = Option::Some(t);
    state.next_target_id = state.next_target_id + 1;
}

/// Respawn reaction. With a hit in hand, spawn the replacement target —
/// observing the already-moved player position and the post-hit color — and
/// advance the identity counter; without one, change nothing.
pub fn spawn_new_target(state: &mut SimState, hit: &Option<HitEvent>)
    requires
        sim_wf(*old(state)),
        old(state).next_target_id < u64::MAX,
    ensures
        sim_wf(*final(state)),
        final(state).player == old(state).player,
        final(state).score == old(state).score,
        *hit is None ==> *final(state) == *old(state),
        *hit is Some ==> {
            &&& final(state).next_target_id == old(state).next_target_id + 1
            &&& match final(state).target {
                Option::Some(t) => {
                    &&& t.id == old(state).next_target_id
                    &&& t.color != old(state).player.color
                    &&& in_palette(t.color)
                    &&& target_in_bounds(t.pos)
                    &&& (spawn_clear_possible(old(state).player.pos)
                        ==> spawn_clear(t.pos, old(state).player.pos))
                },
                Option::None => false,
            }
        },
{
    if hit.is_some() {
        create_new_target(state);
    }
}

/// Drive one fixed tick in the required order: keyboard movement, then each
/// connected gamepad, then collision and scoring, then the reactions that
/// read the tick's hit event — the sound intent, one rumble intent per
/// connected gamepad, the respawn, and the score display, which always runs.
pub fn tick(state: &mut SimState, input: &InputSnapshot, dt_ms: u32) -> (out: TickOutput)
    requires
        sim_wf(*old(state)),
        snapshot_wf(*input),
        old(state).score < u64::MAX,
        old(state).next_target_id < u64::MAX,
    ensures
        sim_wf(*final(state)),
        out.exit == input.keys.quit,
        final(state).player.pos == spec_player_after(
            old(state).player.pos,
            input.keys,
            input.pads@,
            dt_ms as int,
        ),
        out.hit is Some <==> spec_hit_moved(*old(state), input.keys, input.pads@, dt_ms as int),
        out.play_sound == (out.hit is Some),
        out.rumble_pads == (if out.hit is Some { input.pads@.len() } else { 0nat }),
        out.score_digits@ == spec_score_digits(final(state).score as nat),
        final(state).score == old(state).score + (if out.hit is Some { 1int } else { 0int }),
        crate::input::keys_idle(input.keys) && input.pads@.len() == 0
            ==> final(state).player.pos == old(state).player.pos,
        old(state).target is Some ==> final(state).target is Some,
        out.hit is None ==> {
            &&& final(state).target == old(state).target
            &&& final(state).player.color == old(state).player.color
            &&& final(state).next_target_id == old(state).next_target_id
        },
        out.hit is Some ==> {
            &&& in_palette(final(state).player.color)
            &&& final(state).next_target_id == old(state).next_target_id + 1
            &&& match (old(state).target, final(state).target) {
                (Option::Some(gone), Option::Some(fresh)) => {
                    &&& fresh.id == old(state).next_target_id
                    &&& fresh.id != gone.id
                    &&& fresh.color != final(state).player.color
                    &&& in_palette(fresh.color)
                    &&& target_in_bounds(fresh.pos)
                    &&& (spawn_clear_possible(final(state).player.pos)
                        ==> spawn_clear(fresh.pos, final(state).player.pos))
                },
                _ => false,
            }
        },
{
    let exit = input.keys.quit;
    proof {
        if crate::input::keys_idle(input.keys) && input.pads@.len() == 0 {
            crate::movement::lemma_idle_input_keeps_position(
                old(state).player.pos,
                input.keys,
                dt_ms as int,
            );
            assert(input.pads@ =~= Seq::<StickInput>::empty());
        }
    }
    let new_pos = move_player(state.player.pos, input, dt_ms);
    state.player.pos = new_pos;
    let hit = check_the_hit(state);
    let play_sound = hit.is_some();
    let rumble_pads = if hit.is_some() { input.pads.len() } else { 0 };
    spawn_new_target(state, &hit);
    let digits = score_digits(state.score);
    TickOutput { exit, hit, play_sound, rumble_pads, score_digits: digits }
}

} // verus!
