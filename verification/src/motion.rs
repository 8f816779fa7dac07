//! The player motion controller: four boolean directional signals in, one
//! velocity command out, recomputed from scratch every tick (never
//! accumulated).
//!
//! The command is the net unit direction of the held keys. A command with
//! both components set stands for the unit diagonal, that is the raw sum
//! scaled by `1/sqrt(2)`: the actual world velocity is always
//! `SPEED * dir / |dir|` (and zero for a zero direction), so its magnitude
//! is exactly [`SPEED`] whenever any net direction remains — a diagonal is
//! never the unnormalized `SPEED * sqrt(2)`. The final scaling by the
//! irrational factor is the physics collaborator's floating-point step; the
//! library pins everything up to it.

use vstd::prelude::*;

verus! {

/// Tunable: movement speed in world units per second.
pub const SPEED: u32 = 100;

/// The per-axis sum of two opposing unit contributions: `1` for the
/// positive key alone, `-1` for the negative key alone, `0` when the keys
/// cancel or neither is held.
pub open spec fn axis_sum(positive: bool, negative: bool) -> int {
    if positive && !negative {
        1
    } else if negative && !positive {
        -1
    } else {
        0
    }
}

/// A velocity direction selector: each component is `-1`, `0` or `1`.
/// `x` grows to the right, `y` grows upward.
#[derive(Clone, Copy, PartialEq, Eq, Structural, Debug)]
pub struct MoveDir {
    pub x: i8,
    pub y: i8,
}

/// The net direction of a set of held keys: up adds `+y`, down `-y`,
/// left `-x`, right `+x`.
pub open spec fn move_dir(up: bool, down: bool, left: bool, right: bool) -> MoveDir {
    MoveDir { x: axis_sum(right, left) as i8, y: axis_sum(up, down) as i8 }
}

/// The squared length of the raw direction sum: `0`, `1` (cardinal) or
/// `2` (diagonal).
pub open spec fn dir_len_sq(d: MoveDir) -> int {
    d.x * d.x + d.y * d.y
}

/// The squared magnitude of the world velocity `speed * d / |d|` that a
/// direction selector commands: `speed * speed * |d|^2` divided exactly by
/// `|d|^2`, and `0` for the zero direction.
pub open spec fn speed_sq(d: MoveDir, speed: int) -> int {
    if dir_len_sq(d) == 0 {
        0
    } else {
        (speed * speed * dir_len_sq(d)) / dir_len_sq(d)
    }
}

impl MoveDir {
    pub open spec fn is_zero(&self) -> bool {
        self.x == 0 && self.y == 0
    }

    /// The zero command: no net direction, velocity zero.
    pub fn zero() -> (d: MoveDir)
        ensures
            d.is_zero(),
            d == (MoveDir { x: 0 as i8, y: 0 as i8 }),
    {
        MoveDir { x: 0, y: 0 }
    }

    /// The squared length of the raw sum; the physics collaborator divides
    /// the scaled vector by its square root (`1` or `sqrt(2)`).
    pub fn len_sq(&self) -> (r: u32)
        ensures
            r == dir_len_sq(*self),
    {
        let x = self.x as i32;
        let y = self.y as i32;
        proof {
            assert(0 <= x * x <= 16384 && 0 <= y * y <= 16384) by (nonlinear_arith)
                requires
                    -128 <= x <= 127,
                    -128 <= y <= 127,
            ;
        }
        (x * x + y * y) as u32
    }
}

/// Converts the held directional keys into this tick's velocity command.
/// The result overwrites the actor's previous velocity entirely.
pub fn compute_velocity(up: bool, down: bool, left: bool, right: bool) -> (dir: MoveDir)
    ensures
        dir == move_dir(up, down, left, right),
{
    let mut x: i8 = 0;
    let mut y: i8 = 0;
    if up {
        y = y + 1;
    }
    if down {
        y = y - 1;
    }
    if left {
        x = x - 1;
    }
    if right {
        x = x + 1;
    }
    MoveDir { x, y }
}

/// For any subset of held keys, the commanded velocity magnitude is `0` or
/// exactly `speed`: the direction is normalized before scaling, so holding
/// a diagonal never yields magnitude `speed * sqrt(2)`. The magnitude is
/// zero exactly when the keys cancel axis by axis — in particular when no
/// key is held at all.
pub proof fn lemma_velocity_magnitude(up: bool, down: bool, left: bool, right: bool, speed: int)
    ensures
        ({
            let d = move_dir(up, down, left, right);
            &&& -1 <= d.x <= 1
            &&& -1 <= d.y <= 1
            &&& d.is_zero() <==> (up == down && left == right)
            &&& speed_sq(d, speed) == if d.is_zero() {
                0int
            } else {
                speed * speed
            }
        }),
{
    let d = move_dir(up, down, left, right);
    let dx = d.x as int;
    let dy = d.y as int;
    assert(dx * dx == if dx == 0 { 0int } else { 1int }) by (nonlinear_arith)
        requires
            -1 <= dx <= 1,
    ;
    assert(dy * dy == if dy == 0 { 0int } else { 1int }) by (nonlinear_arith)
        requires
            -1 <= dy <= 1,
    ;
    let l = dir_len_sq(d);
    let ss = speed * speed;
    if l == 1 {
        vstd::arithmetic::div_mod::lemma_div_multiples_vanish(ss, 1);
        assert(ss * 1 == 1 * ss);
    }
    if l == 2 {
        vstd::arithmetic::div_mod::lemma_div_multiples_vanish(ss, 2);
        assert(ss * 2 == 2 * ss);
    }
}

} // verus!
