//! Arena geometry: fixed-point positions, the playable bounds for the player
//! and the target, clamping, and the axis-aligned overlap test.

use vstd::prelude::*;

verus! {

/// One pixel is `SCALE` fixed-point units.
pub const SCALE: i64 = 1000;

/// Half the arena width (the arena is 640 x 640 pixels, centered at the origin).
pub const ARENA_HALF_W: i64 = 320 * SCALE;
/// Half the arena height.
pub const ARENA_HALF_H: i64 = 320 * SCALE;
/// Height of the status-text strip reserved at the bottom of the arena.
pub const TEXT_BAR_HEIGHT: i64 = 32 * SCALE;
/// Half extent of the player square (the player is 30 x 30 pixels).
pub const PLAYER_HALF: i64 = 15 * SCALE;
/// Half extent of the target square (the target is 28 x 28 pixels).
pub const TARGET_HALF: i64 = 14 * SCALE;

/// Smallest x a player center may take: the square's left edge touches the wall.
pub const PLAYER_MIN_X: i64 = -ARENA_HALF_W + PLAYER_HALF;
/// Largest x a player center may take.
pub const PLAYER_MAX_X: i64 = ARENA_HALF_W - PLAYER_HALF;
/// Smallest y a player center may take: above the status-text strip.
pub const PLAYER_MIN_Y: i64 = -ARENA_HALF_H + TEXT_BAR_HEIGHT + PLAYER_HALF;
/// Largest y a player center may take.
pub const PLAYER_MAX_Y: i64 = ARENA_HALF_H - PLAYER_HALF;

/// Smallest x a target center may take.
pub const TARGET_MIN_X: i64 = -ARENA_HALF_W + TARGET_HALF;
/// Largest x a target center may take.
pub const TARGET_MAX_X: i64 = ARENA_HALF_W - TARGET_HALF;
/// Smallest y a target center may take: above the status-text strip.
pub const TARGET_MIN_Y: i64 = -ARENA_HALF_H + TEXT_BAR_HEIGHT + TARGET_HALF;
/// Largest y a target center may take.
pub const TARGET_MAX_Y: i64 = ARENA_HALF_H - TARGET_HALF;

/// A 2-d point in fixed-point milli-pixel units, centered on the arena middle.
#[derive(Clone, Copy, Debug, PartialEq, Eq, Structural)]
pub struct Pos {
    pub x: i64,
    pub y: i64,
}

/// The player's center keeps the whole 30 x 30 square inside the arena,
/// above the status-text strip.
pub open spec fn player_in_bounds(p: Pos) -> bool {
    &&& PLAYER_MIN_X <= p.x <= PLAYER_MAX_X
    &&& PLAYER_MIN_Y <= p.y <= PLAYER_MAX_Y
}

/// The target's center keeps the whole 28 x 28 square inside the arena,
/// above the status-text strip.
pub open spec fn target_in_bounds(p: Pos) -> bool {
    &&& TARGET_MIN_X <= p.x <= TARGET_MAX_X
    &&& TARGET_MIN_Y <= p.y <= TARGET_MAX_Y
}

pub open spec fn spec_clamp(v: int, lo: int, hi: int) -> int {
    if v < lo {
        lo
    } else if v > hi {
        hi
    } else {
        v
    }
}

/// Clamp one coordinate to an interval.
pub fn clamp_coord(v: i64, lo: i64, hi: i64) -> (r: i64)
    requires
        lo <= hi,
    ensures
        r == spec_clamp(v as int, lo as int, hi as int),
        lo <= r <= hi,
{
    if v < lo {
        lo
    } else if v > hi {
        hi
    } else {
        v
    }
}

/// Where a tentative player center ends up after the arena clamp.
pub open spec fn spec_clamp_player(p: Pos) -> Pos {
    Pos {
        x: spec_clamp(p.x as int, PLAYER_MIN_X as int, PLAYER_MAX_X as int) as i64,
        y: spec_clamp(p.y as int, PLAYER_MIN_Y as int, PLAYER_MAX_Y as int) as i64,
    }
}

/// Restrict a tentative player center so the full square stays inside the
/// arena and above the status-text strip.
pub fn clamp_player(p: Pos) -> (r: Pos)
    ensures
        r == spec_clamp_player(p),
        player_in_bounds(r),
{
    Pos {
        x: clamp_coord(p.x, PLAYER_MIN_X, PLAYER_MAX_X),
        y: clamp_coord(p.y, PLAYER_MIN_Y, PLAYER_MAX_Y),
    }
}

/// Two centered axis-aligned rectangles overlap iff their intervals overlap
/// strictly on both axes: positive overlap area counts, edge touching does not.
pub open spec fn spec_overlaps(a: Pos, a_half_w: int, a_half_h: int, b: Pos, b_half_w: int, b_half_h: int) -> bool {
    &&& -(a_half_w + b_half_w) < a.x - b.x < a_half_w + b_half_w
    &&& -(a_half_h + b_half_h) < a.y - b.y < a_half_h + b_half_h
}

/// Coordinates and half extents small enough that the overlap test cannot
/// overflow; everything inside the arena satisfies this with a wide margin.
pub open spec fn coord_small(v: int) -> bool {
    -0x1000_0000 <= v <= 0x1000_0000
}

/// Axis-aligned bounding-box overlap test between two centered rectangles.
pub fn overlaps(a: Pos, a_half_w: i64, a_half_h: i64, b: Pos, b_half_w: i64, b_half_h: i64) -> (r: bool)
    requires
        coord_small(a.x as int),
        coord_small(a.y as int),
        coord_small(b.x as int),
        coord_small(b.y as int),
        0 <= a_half_w,
        0 <= a_half_h,
        0 <= b_half_w,
        0 <= b_half_h,
        coord_small(a_half_w as int),
        coord_small(a_half_h as int),
        coord_small(b_half_w as int),
        coord_small(b_half_h as int),
    ensures
        r == spec_overlaps(a, a_half_w as int, a_half_h as int, b, b_half_w as int, b_half_h as int),
{
    let dx = a.x - b.x;
    let dy = a.y - b.y;
    let wx = a_half_w + b_half_w;
    let wy = a_half_h + b_half_h;
    -wx < dx && dx < wx && -wy < dy && dy < wy
}

} // verus!
