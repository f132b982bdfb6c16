//! Per-tick input snapshots: the direction keys plus the exit key, and the
//! left-stick deflection of each connected gamepad in fixed-point units.

use vstd::prelude::*;

verus! {

/// The pressed state of the keys the game reads in one tick. `left` stands
/// for the left arrow or A, `right` for the right arrow or D, `up` for the up
/// arrow or W, `down` for the down arrow or S, and `quit` for Q.
#[derive(Clone, Copy, Debug, PartialEq, Eq, Structural)]
pub struct KeyInput {
    pub left: bool,
    pub right: bool,
    pub up: bool,
    pub down: bool,
    pub quit: bool,
}

/// Horizontal direction requested by the keys: -1, 0 or 1.
pub open spec fn key_dir_x(k: KeyInput) -> int {
    (if k.right { 1int } else { 0int }) - (if k.left { 1int } else { 0int })
}

/// Vertical direction requested by the keys: -1, 0 or 1.
pub open spec fn key_dir_y(k: KeyInput) -> int {
    (if k.up { 1int } else { 0int }) - (if k.down { 1int } else { 0int })
}

/// No direction key is down, so the keyboard requests no movement.
pub open spec fn keys_idle(k: KeyInput) -> bool {
    !k.left && !k.right && !k.up && !k.down
}

/// Merge the direction keys into one direction vector with components in
/// {-1, 0, 1}; opposite keys cancel.
pub fn key_dir(k: &KeyInput) -> (d: (i8, i8))
    ensures
        d.0 as int == key_dir_x(*k),
        d.1 as int == key_dir_y(*k),
{
    let mut dx: i8 = 0;
    let mut dy: i8 = 0;
    if k.left {
        dx = dx - 1;
    }
    if k.right {
        dx = dx + 1;
    }
    if k.up {
        dy = dy + 1;
    }
    if k.down {
        dy = dy - 1;
    }
    (dx, dy)
}

/// A full stick deflection has magnitude `STICK_UNIT`, so one axis value of
/// 1.0 on the hardware arrives here as 1000.
pub const STICK_UNIT: i64 = 1000;

/// The squared dead-zone threshold: a stick moves the player only when its
/// squared magnitude exceeds (STICK_UNIT / 2)^2.
pub const DEADZONE_SQ: i64 = 250_000;

/// One gamepad's left-stick deflection, each axis in [-STICK_UNIT, STICK_UNIT].
#[derive(Clone, Copy, Debug, PartialEq, Eq, Structural)]
pub struct StickInput {
    pub x: i64,
    pub y: i64,
}

/// Each axis stays within a full deflection.
pub open spec fn stick_wf(s: StickInput) -> bool {
    &&& -STICK_UNIT <= s.x <= STICK_UNIT
    &&& -STICK_UNIT <= s.y <= STICK_UNIT
}

/// The stick is outside its dead zone, so it requests movement.
pub open spec fn stick_active(s: StickInput) -> bool {
    s.x * s.x + s.y * s.y > DEADZONE_SQ
}

/// Everything the simulation reads in one tick: the key states and one stick
/// reading per connected gamepad, in connection order.
#[derive(Debug)]
pub struct InputSnapshot {
    pub keys: KeyInput,
    pub pads: Vec<StickInput>,
}

/// Every pad reading in the snapshot is a well-formed deflection.
pub open spec fn snapshot_wf(inp: InputSnapshot) -> bool {
    forall|i: int| 0 <= i < inp.pads@.len() ==> stick_wf(#[trigger] inp.pads@[i])
}

} // verus!
