//! Player movement: keyboard and gamepad displacement at a fixed speed,
//! scaled by the tick's delta time and clamped to the arena.

use vstd::prelude::*;
use crate::geometry::{
    Pos, spec_clamp, clamp_player, player_in_bounds,
    PLAYER_MIN_X, PLAYER_MAX_X, PLAYER_MIN_Y, PLAYER_MAX_Y,
};
use crate::input::{
    KeyInput, StickInput, InputSnapshot, key_dir, key_dir_x, key_dir_y, keys_idle,
    stick_wf, stick_active, snapshot_wf, DEADZONE_SQ,
};

verus! {

/// Player speed: 300 pixels per second is 300 milli-pixel units per millisecond.
pub const SPEED_PER_MS: i64 = 300;

/// Fixed-point numerator of 1/sqrt(2), used to scale diagonal keyboard steps.
pub const DIAG_NUM: i64 = 707;

/// Fixed-point denominator of 1/sqrt(2).
pub const DIAG_DEN: i64 = 1000;

/// Sign of an integer: -1, 0 or 1.
pub open spec fn sgn(v: int) -> int {
    if v < 0 {
        -1
    } else if v > 0 {
        1
    } else {
        0
    }
}

/// Magnitude of an integer.
pub open spec fn mag(v: int) -> int {
    if v < 0 {
        -v
    } else {
        v
    }
}

/// Apply an (x, y) displacement to a player center and clamp it to the arena.
pub open spec fn spec_moved_clamped(p: Pos, ox: int, oy: int) -> Pos {
    Pos {
        x: spec_clamp(p.x + ox, PLAYER_MIN_X as int, PLAYER_MAX_X as int) as i64,
        y: spec_clamp(p.y + oy, PLAYER_MIN_Y as int, PLAYER_MAX_Y as int) as i64,
    }
}

/// Where the keyboard moves the player in one tick of `dt` milliseconds: no
/// key, no movement; a straight step covers speed times time; a diagonal step
/// is scaled by 1/sqrt(2) in fixed point so the overall speed stays the same.
pub open spec fn spec_key_move(p: Pos, k: KeyInput, dt: int) -> Pos {
    let dx = key_dir_x(k);
    let dy = key_dir_y(k);
    if dx == 0 && dy == 0 {
        p
    } else {
        let step = (SPEED_PER_MS as int) * dt;
        let m = if dx != 0 && dy != 0 {
            step * (DIAG_NUM as int) / (DIAG_DEN as int)
        } else {
            step
        };
        spec_moved_clamped(p, dx * m, dy * m)
    }
}

/// A direction component in {-1, 0, 1} scales a step to its negation, zero,
/// or itself.
pub proof fn lemma_unit_mul(d: int, m: int)
    requires
        -1 <= d <= 1,
    ensures
        d == -1 ==> d * m == -m,
        d == 0 ==> d * m == 0,
        d == 1 ==> d * m == m,
{
    assert(d == -1 ==> d * m == -m) by (nonlinear_arith);
    assert(d == 0 ==> d * m == 0) by (nonlinear_arith);
    assert(d == 1 ==> d * m == m) by (nonlinear_arith);
}

/// Move the player by the keyboard direction for one tick.
pub fn key_move(p: Pos, k: &KeyInput, dt_ms: u32) -> (r: Pos)
    requires
        player_in_bounds(p),
    ensures
        r == spec_key_move(p, *k, dt_ms as int),
        player_in_bounds(r),
{
    let (dx, dy) = key_dir(k);
    if dx == 0 && dy == 0 {
        return p;
    }
    let step: u64 = 300 * (dt_ms as u64);
    let m_u: u64 = if dx != 0 && dy != 0 {
        step * 707 / 1000
    } else {
        step
    };
    let m = m_u as i64;
    proof {
        assert(step as int == (SPEED_PER_MS as int) * (dt_ms as int));
        lemma_unit_mul(key_dir_x(*k), m as int);
        lemma_unit_mul(key_dir_y(*k), m as int);
    }
    let tx = if dx < 0 { p.x - m } else if dx > 0 { p.x + m } else { p.x };
    let ty = if dy < 0 { p.y - m } else if dy > 0 { p.y + m } else { p.y };
    clamp_player(Pos { x: tx, y: ty })
}

/// `r` is the integer square root of `n`.
pub open spec fn is_sqrt_of(n: int, r: int) -> bool {
    &&& 0 <= r
    &&& r * r <= n
    &&& n < (r + 1) * (r + 1)
}

/// The integer square root, as the number `is_sqrt_of` characterizes.
pub open spec fn spec_isqrt(n: int) -> int {
    choose|r: int| is_sqrt_of(n, r)
}

/// Two numbers meeting the square-root characterization for the same operand
/// are equal.
pub proof fn lemma_sqrt_unique(n: int, a: int, b: int)
    requires
        is_sqrt_of(n, a),
        is_sqrt_of(n, b),
    ensures
        a == b,
{
    if a < b {
        assert((a + 1) * (a + 1) <= b * b) by (nonlinear_arith)
            requires
                0 <= a + 1,
                a + 1 <= b,
        ;
    }
    if b < a {
        assert((b + 1) * (b + 1) <= a * a) by (nonlinear_arith)
            requires
                0 <= b + 1,
                b + 1 <= a,
        ;
    }
}

/// Integer square root by counting up; the operand bound keeps the search
/// and its squares well inside `u64`.
pub fn isqrt(n: u64) -> (r: u64)
    requires
        n <= 4_000_000,
    ensures
        is_sqrt_of(n as int, r as int),
        r as int == spec_isqrt(n as int),
{
    let mut r: u64 = 0;
    // `next` tracks (r + 1)^2 by additions alone.
    let mut next: u64 = 1;
    while next <= n
        invariant
            n <= 4_000_000,
            next as int == (r + 1) * (r + 1),
            next <= 4_004_001,
            r * r <= n,
            r <= 2000,
        decreases 2000 - r,
    {
        proof {
            assert(r + 1 <= 2000) by (nonlinear_arith)
                requires
                    (r + 1) * (r + 1) <= 4_000_000,
                    0 <= r,
            ;
            assert((r + 1) * (r + 1) + 2 * (r + 1) + 1 == ((r + 1) + 1) * ((r + 1) + 1))
                by (nonlinear_arith);
        }
        r = r + 1;
        next = next + 2 * r + 1;
    }
    proof {
        assert(is_sqrt_of(n as int, r as int));
        lemma_sqrt_unique(n as int, r as int, spec_isqrt(n as int));
    }
    r
}

/// Where one gamepad stick moves the player in one tick of `dt` milliseconds:
/// inside the dead zone nothing moves; outside it the deflection is
/// normalized by its integer length, scaled by speed times time, and the
/// result clamped to the arena.
pub open spec fn spec_stick_move(p: Pos, s: StickInput, dt: int) -> Pos {
    if !stick_active(s) {
        p
    } else {
        let len = spec_isqrt(s.x * s.x + s.y * s.y);
        let step = (SPEED_PER_MS as int) * dt;
        let mx = mag(s.x as int) * step / len;
        let my = mag(s.y as int) * step / len;
        spec_moved_clamped(p, sgn(s.x as int) * mx, sgn(s.y as int) * my)
    }
}

/// Move the player by one gamepad stick for one tick.
pub fn stick_move(p: Pos, s: &StickInput, dt_ms: u32) -> (r: Pos)
    requires
        player_in_bounds(p),
        stick_wf(*s),
    ensures
        r == spec_stick_move(p, *s, dt_ms as int),
        player_in_bounds(r),
{
    proof {
        assert(s.x * s.x <= 1_000_000 && 0 <= s.x * s.x) by (nonlinear_arith)
            requires
                -1000 <= s.x <= 1000,
        ;
        assert(s.y * s.y <= 1_000_000 && 0 <= s.y * s.y) by (nonlinear_arith)
            requires
                -1000 <= s.y <= 1000,
        ;
    }
    let sq = s.x * s.x + s.y * s.y;
    if sq <= DEADZONE_SQ {
        return p;
    }
    let len = isqrt(sq as u64);
    proof {
        if len <= 499 {
            assert((len + 1) * (len + 1) <= 250_000) by (nonlinear_arith)
                requires
                    0 <= len <= 499,
            ;
        }
        assert(500 <= len);
    }
    let step: u64 = 300 * (dt_ms as u64);
    proof {
        assert(step as int == (SPEED_PER_MS as int) * (dt_ms as int));
    }
    let ax: u64 = if s.x < 0 { (-s.x) as u64 } else { s.x as u64 };
    let ay: u64 = if s.y < 0 { (-s.y) as u64 } else { s.y as u64 };
    proof {
        assert(ax * step <= 1000 * 1_288_490_188_500u64) by (nonlinear_arith)
            requires
                0 <= ax <= 1000,
                0 <= step <= 1_288_490_188_500u64,
        ;
        assert(ay * step <= 1000 * 1_288_490_188_500u64) by (nonlinear_arith)
            requires
                0 <= ay <= 1000,
                0 <= step <= 1_288_490_188_500u64,
        ;
        vstd::arithmetic::div_mod::lemma_div_nonincreasing((ax * step) as int, len as int);
        vstd::arithmetic::div_mod::lemma_div_nonincreasing((ay * step) as int, len as int);
    }
    let mx = (ax * step / len) as i64;
    let my = (ay * step / len) as i64;
    proof {
        assert(sq as int == s.x * s.x + s.y * s.y);
        assert(len as int == spec_isqrt(s.x * s.x + s.y * s.y));
        assert(ax as int == mag(s.x as int));
        assert(mx as int == mag(s.x as int) * ((SPEED_PER_MS as int) * (dt_ms as int))
            / spec_isqrt(s.x * s.x + s.y * s.y));
        assert(my as int == mag(s.y as int) * ((SPEED_PER_MS as int) * (dt_ms as int))
            / spec_isqrt(s.x * s.x + s.y * s.y));
    }
    let tx = if s.x < 0 { p.x - mx } else { p.x + mx };
    let ty = if s.y < 0 { p.y - my } else { p.y + my };
    proof {
        let ghost lensp = spec_isqrt(s.x * s.x + s.y * s.y);
        let ghost stepsp = (SPEED_PER_MS as int) * (dt_ms as int);
        vstd::arithmetic::div_mod::lemma_div_of0(lensp);
        lemma_unit_mul(sgn(s.x as int), mag(s.x as int) * stepsp / lensp);
        lemma_unit_mul(sgn(s.y as int), mag(s.y as int) * stepsp / lensp);
        if s.x < 0 {
            assert(sgn(s.x as int) == -1);
            assert(sgn(s.x as int) * (mag(s.x as int) * stepsp / lensp)
                == -(mag(s.x as int) * stepsp / lensp));
            assert(mx as int == mag(s.x as int) * stepsp / lensp);
            assert(tx as int == p.x - mx);
        } else if s.x == 0 {
            assert(mag(s.x as int) == 0);
            assert(mag(s.x as int) * stepsp == 0);
            assert(mx as int == 0);
            assert(sgn(s.x as int) == 0);
            assert(sgn(s.x as int) * (mag(s.x as int) * stepsp / lensp) == 0);
            assert(tx as int == p.x);
        } else {
            assert(sgn(s.x as int) == 1);
            assert(sgn(s.x as int) * (mag(s.x as int) * stepsp / lensp)
                == mag(s.x as int) * stepsp / lensp);
            assert(mx as int == mag(s.x as int) * stepsp / lensp);
            assert(tx as int == p.x + mx);
        }
        if s.y < 0 {
            assert(sgn(s.y as int) == -1);
            assert(sgn(s.y as int) * (mag(s.y as int) * stepsp / lensp)
                == -(mag(s.y as int) * stepsp / lensp));
            assert(my as int == mag(s.y as int) * stepsp / lensp);
            assert(ty as int == p.y - my);
        } else if s.y == 0 {
            assert(mag(s.y as int) == 0);
            assert(mag(s.y as int) * stepsp == 0);
            assert(my as int == 0);
            assert(sgn(s.y as int) == 0);
            assert(sgn(s.y as int) * (mag(s.y as int) * stepsp / lensp) == 0);
            assert(ty as int == p.y);
        } else {
            assert(sgn(s.y as int) == 1);
            assert(sgn(s.y as int) * (mag(s.y as int) * stepsp / lensp)
                == mag(s.y as int) * stepsp / lensp);
            assert(my as int == mag(s.y as int) * stepsp / lensp);
            assert(ty as int == p.y + my);
        }
        assert(tx as int == p.x + sgn(s.x as int) * (mag(s.x as int) * stepsp / lensp));
        assert(ty as int == p.y + sgn(s.y as int) * (mag(s.y as int) * stepsp / lensp));
    }
    clamp_player(Pos { x: tx, y: ty })
}

/// Where the connected gamepads, applied in order, leave the player.
pub open spec fn spec_pads_move(p: Pos, pads: Seq<StickInput>, dt: int) -> Pos
    decreases pads.len(),
{
    if pads.len() == 0 {
        p
    } else {
        spec_pads_move(spec_stick_move(p, pads[0], dt), pads.subrange(1, pads.len() as int), dt)
    }
}

/// Where the whole movement phase of one tick leaves the player: the keyboard
/// moves first, then each connected gamepad in order.
pub open spec fn spec_player_after(p: Pos, keys: KeyInput, pads: Seq<StickInput>, dt: int) -> Pos {
    spec_pads_move(spec_key_move(p, keys, dt), pads, dt)
}

/// Run the whole movement phase of one tick.
pub fn move_player(p: Pos, input: &InputSnapshot, dt_ms: u32) -> (r: Pos)
    requires
        player_in_bounds(p),
        snapshot_wf(*input),
    ensures
        r == spec_player_after(p, input.keys, input.pads@, dt_ms as int),
        player_in_bounds(r),
{
    let mut cur = key_move(p, &input.keys, dt_ms);
    let n = input.pads.len();
    proof {
        assert(input.pads@.subrange(0, n as int) =~= input.pads@);
    }
    let mut i: usize = 0;
    while i < n
        invariant
            i <= n,
            n == input.pads@.len(),
            snapshot_wf(*input),
            player_in_bounds(cur),
            spec_pads_move(cur, input.pads@.subrange(i as int, n as int), dt_ms as int)
                == spec_player_after(p, input.keys, input.pads@, dt_ms as int),
        decreases n - i,
    {
        let s = input.pads[i];
        proof {
            assert(input.pads@.subrange(i as int, n as int).subrange(1, (n - i) as int)
                =~= input.pads@.subrange(i as int + 1, n as int));
        }
        cur = stick_move(cur, &s, dt_ms);
        i = i + 1;
    }
    proof {
        assert(input.pads@.subrange(n as int, n as int) =~= Seq::<StickInput>::empty());
    }
    cur
}

/// A keyboard step never leaves the playable bounds, whatever the direction
/// and delta time, as long as it starts inside them.
pub proof fn lemma_key_move_in_bounds(p: Pos, k: KeyInput, dt: int)
    requires
        player_in_bounds(p),
    ensures
        player_in_bounds(spec_key_move(p, k, dt)),
{
}

/// A gamepad step never leaves the playable bounds either.
pub proof fn lemma_stick_move_in_bounds(p: Pos, s: StickInput, dt: int)
    requires
        player_in_bounds(p),
    ensures
        player_in_bounds(spec_stick_move(p, s, dt)),
{
}

/// Nor does any sequence of gamepad steps.
pub proof fn lemma_pads_move_in_bounds(p: Pos, pads: Seq<StickInput>, dt: int)
    requires
        player_in_bounds(p),
    ensures
        player_in_bounds(spec_pads_move(p, pads, dt)),
    decreases pads.len(),
{
    if pads.len() > 0 {
        lemma_stick_move_in_bounds(p, pads[0], dt);
        lemma_pads_move_in_bounds(
            spec_stick_move(p, pads[0], dt),
            pads.subrange(1, pads.len() as int),
            dt,
        );
    }
}

/// The movement clamp law: for every direction, every stick reading and every
/// delta time, a player center that starts inside the playable bounds ends
/// the movement phase inside them.
pub proof fn lemma_player_after_in_bounds(p: Pos, keys: KeyInput, pads: Seq<StickInput>, dt: int)
    requires
        player_in_bounds(p),
    ensures
        player_in_bounds(spec_player_after(p, keys, pads, dt)),
{
    lemma_key_move_in_bounds(p, keys, dt);
    lemma_pads_move_in_bounds(spec_key_move(p, keys, dt), pads, dt);
}

/// The idle law: with no direction key down and no gamepad connected, the
/// movement phase leaves the player exactly where it was, for any delta time.
pub proof fn lemma_idle_input_keeps_position(p: Pos, keys: KeyInput, dt: int)
    requires
        keys_idle(keys),
    ensures
        spec_player_after(p, keys, Seq::<StickInput>::empty(), dt) == p,
{
}

} // verus!
