//! Player state and the motion controller: held keys become one rotation
//! and one translation per frame.
//!
//! The convention: turning right increases the viewing angle, moving
//! forward adds the viewing direction scaled by a tenth of a grid unit.
//! The stored angle is kept normalized to `[0, FULL_TURN)`.

use vstd::prelude::*;
use crate::fixed::{div_floor, POS_LIMIT};
use crate::trig::{cos_fp, cos_spec, norm_angle, norm_spec, sin_fp, sin_spec, FULL_TURN};

verus! {

/// Angular step of one held rotation key for one frame: five degrees.
pub const ROT_STEP: i64 = 5_000;

/// The player: a fractional position on the grid and a viewing angle, in
/// fixed point.
#[derive(Clone, Copy, Debug, PartialEq, Eq, Structural)]
pub struct Player {
    pub x: i64,
    pub y: i64,
    pub pov: i64,
}

impl Player {
    /// A well-formed player: normalized angle, position within the
    /// fixed-point range.
    pub open spec fn wf(self) -> bool {
        &&& 0 <= self.pov < FULL_TURN
        &&& -POS_LIMIT <= self.x <= POS_LIMIT
        &&& -POS_LIMIT <= self.y <= POS_LIMIT
    }

    /// Builds a player from fixed-point coordinates and a normalized angle.
    pub fn new(x: i64, y: i64, pov: i64) -> (r: Player)
        requires
            0 <= pov < FULL_TURN,
            -POS_LIMIT <= x <= POS_LIMIT,
            -POS_LIMIT <= y <= POS_LIMIT,
        ensures
            r == (Player { x, y, pov }),
            r.wf(),
    {
        Player { x, y, pov }
    }
}

/// One movement intent, decoupled from any concrete key identifier.
#[derive(Clone, Copy, Debug, PartialEq, Eq, Structural)]
pub enum MoveKey {
    TurnLeft,
    TurnRight,
    Forward,
    Backward,
}

/// The snapshot of currently held movement intents, evaluated once per
/// frame.
#[derive(Clone, Copy, Debug, PartialEq, Eq, Structural)]
pub struct HeldKeys {
    pub turn_left: bool,
    pub turn_right: bool,
    pub forward: bool,
    pub backward: bool,
}

impl HeldKeys {
    /// No key held.
    pub fn new() -> (r: HeldKeys)
        ensures
            r == (HeldKeys { turn_left: false, turn_right: false, forward: false, backward: false }),
    {
        HeldKeys { turn_left: false, turn_right: false, forward: false, backward: false }
    }

    /// Records a key going down; the other keys keep their state.
    pub fn press(&mut self, k: MoveKey)
        ensures
            final(self).turn_left == (old(self).turn_left || k == MoveKey::TurnLeft),
            final(self).turn_right == (old(self).turn_right || k == MoveKey::TurnRight),
            final(self).forward == (old(self).forward || k == MoveKey::Forward),
            final(self).backward == (old(self).backward || k == MoveKey::Backward),
    {
        match k {
            MoveKey::TurnLeft => self.turn_left = true,
            MoveKey::TurnRight => self.turn_right = true,
            MoveKey::Forward => self.forward = true,
            MoveKey::Backward => self.backward = true,
        }
    }

    /// Records a key going up; the other keys keep their state.
    pub fn release(&mut self, k: MoveKey)
        ensures
            final(self).turn_left == (old(self).turn_left && k != MoveKey::TurnLeft),
            final(self).turn_right == (old(self).turn_right && k != MoveKey::TurnRight),
            final(self).forward == (old(self).forward && k != MoveKey::Forward),
            final(self).backward == (old(self).backward && k != MoveKey::Backward),
    {
        match k {
            MoveKey::TurnLeft => self.turn_left = false,
            MoveKey::TurnRight => self.turn_right = false,
            MoveKey::Forward => self.forward = false,
            MoveKey::Backward => self.backward = false,
        }
    }
}

/// A position clamped to the fixed-point range.
pub open spec fn clamp_pos(v: int) -> int {
    if v < -POS_LIMIT {
        -POS_LIMIT as int
    } else if v > POS_LIMIT {
        POS_LIMIT as int
    } else {
        v
    }
}

/// The viewing angle after one frame of held rotation keys.
pub open spec fn turned_pov(pov: int, left: bool, right: bool) -> int {
    norm_spec(pov + (if right { ROT_STEP as int } else { 0 }) - (if left { ROT_STEP as int } else { 0 }))
}

/// The x displacement of one frame of held movement keys at angle `pov`:
/// a tenth of the direction cosine forward, its negation backward.
pub open spec fn move_dx(pov: int, forward: bool, backward: bool) -> int {
    (if forward { cos_spec(pov) / 10 } else { 0 }) - (if backward { cos_spec(pov) / 10 } else { 0 })
}

/// The y displacement of one frame of held movement keys at angle `pov`.
pub open spec fn move_dy(pov: int, forward: bool, backward: bool) -> int {
    (if forward { sin_spec(pov) / 10 } else { 0 }) - (if backward { sin_spec(pov) / 10 } else { 0 })
}

/// The player after one frame of the held keys: rotation first, then the
/// translation along the already-turned viewing direction.
pub open spec fn stepped_player(p: Player, keys: HeldKeys) -> (int, int, int) {
    let pov1 = turned_pov(p.pov as int, keys.turn_left, keys.turn_right);
    (
        clamp_pos(p.x + move_dx(pov1, keys.forward, keys.backward)),
        clamp_pos(p.y + move_dy(pov1, keys.forward, keys.backward)),
        pov1,
    )
}

/// Applies one frame of held keys to the player.
pub fn update_player(p: &Player, keys: &HeldKeys) -> (r: Player)
    requires
        p.wf(),
    ensures
        r.x == stepped_player(*p, *keys).0,
        r.y == stepped_player(*p, *keys).1,
        r.pov == stepped_player(*p, *keys).2,
        r.wf(),
{
    let d: i64 = (if keys.turn_right { ROT_STEP } else { 0 }) - (if keys.turn_left { ROT_STEP } else { 0 });
    let pov1 = norm_angle(p.pov + d);
    let step_x = div_floor(cos_fp(pov1), 10);
    let step_y = div_floor(sin_fp(pov1), 10);
    let dx: i64 = (if keys.forward { step_x } else { 0 }) - (if keys.backward { step_x } else { 0 });
    let dy: i64 = (if keys.forward { step_y } else { 0 }) - (if keys.backward { step_y } else { 0 });
    let x0 = p.x + dx;
    let y0 = p.y + dy;
    let x1: i64 = if x0 < -POS_LIMIT { -POS_LIMIT } else if x0 > POS_LIMIT { POS_LIMIT } else { x0 };
    let y1: i64 = if y0 < -POS_LIMIT { -POS_LIMIT } else if y0 > POS_LIMIT { POS_LIMIT } else { y0 };
    Player { x: x1, y: y1, pov: pov1 }
}

/// The angle after `n` frames of the right rotation key alone.
pub open spec fn rotate_right_n(pov: int, n: nat) -> int
    decreases n,
{
    if n == 0 {
        pov
    } else {
        turned_pov(rotate_right_n(pov, (n - 1) as nat), false, true)
    }
}

/// Each rotation accumulates: `n` five-degree steps land on the normalized
/// sum.
pub proof fn lemma_rotation_accumulates(pov: int, n: nat)
    requires
        0 <= pov < FULL_TURN,
    ensures
        rotate_right_n(pov, n) == norm_spec(pov + (ROT_STEP as int) * n),
    decreases n,
{
    let f = FULL_TURN as int;
    if n == 0 {
        vstd::arithmetic::div_mod::lemma_small_mod(pov as nat, f as nat);
    } else {
        lemma_rotation_accumulates(pov, (n - 1) as nat);
        let prev = pov + (ROT_STEP as int) * (n - 1);
        assert(rotate_right_n(pov, n) == norm_spec(norm_spec(prev) + ROT_STEP));
        vstd::arithmetic::div_mod::lemma_mod_bound(prev, f);
        vstd::arithmetic::div_mod::lemma_small_mod(ROT_STEP as nat, f as nat);
        vstd::arithmetic::div_mod::lemma_add_mod_noop(prev, ROT_STEP as int, f);
        vstd::arithmetic::div_mod::lemma_mod_twice(prev, f);
        assert((ROT_STEP as int) * n == (ROT_STEP as int) * (n - 1) + ROT_STEP) by (nonlinear_arith);
    }
}

/// Seventy-two five-degree turns are one full revolution: the angle comes
/// back to exactly its starting value.
pub proof fn lemma_rotation_wraps(pov: int)
    requires
        0 <= pov < FULL_TURN,
    ensures
        rotate_right_n(pov, 72) == pov,
{
    let f = FULL_TURN as int;
    lemma_rotation_accumulates(pov, 72);
    assert((ROT_STEP as int) * 72 == f);
    vstd::arithmetic::div_mod::lemma_mod_multiples_vanish(1, pov, f);
    vstd::arithmetic::div_mod::lemma_small_mod(pov as nat, f as nat);
}

} // verus!
