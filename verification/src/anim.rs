//! Sprite animation indexing for the player actor.
//!
//! The sprite atlas is a fixed grid of frames. Each facing or action pose
//! occupies one contiguous row of frames, and [`AnimIndices`] describes the
//! current row as the window `first..=last`; the window's width (the frame
//! count) never changes, so `first` is always an exact multiple of it and
//! the row number is `first / count`.
//!
//! Rows `0`, `1` and `2` are the walk cycle for the down, up and side
//! facings; rows `3`, `4` and `5` are the matching tool-use poses, at the
//! fixed offset of [`TOOL_ROW_OFFSET`] rows.

use vstd::prelude::*;

use vstd::arithmetic::div_mod::lemma_div_by_multiple;
use vstd::arithmetic::div_mod::lemma_mod_multiples_basic;

verus! {

/// Tunable: how long one animation frame is shown, in milliseconds
/// (an eighth of a second).
pub const FRAME_PERIOD_MS: u32 = 125;

/// The sprite rows of the tool-use poses sit this many rows below the
/// matching walk rows in the atlas.
pub const TOOL_ROW_OFFSET: usize = 3;

/// Atlas row of the walk cycle facing down (towards the camera).
pub const ROW_DOWN: usize = 0;

/// Atlas row of the walk cycle facing up (away from the camera).
pub const ROW_UP: usize = 1;

/// Atlas row of the sideways walk cycle; the facing right pose is this row
/// mirrored horizontally.
pub const ROW_SIDE: usize = 2;

/// The current frame window of an animated sprite: the contiguous block
/// `first..=last` of atlas indices, plus whether the animation is paused
/// on its idle pose.
#[derive(Clone, Copy, PartialEq, Eq, Structural, Debug)]
pub struct AnimIndices {
    pub first: usize,
    pub last: usize,
    pub stopped: bool,
}

impl AnimIndices {
    /// Well-formed: the window is non-empty, its width can be computed
    /// without overflow, and `first` is an exact multiple of the width.
    pub open spec fn wf(&self) -> bool {
        &&& self.first <= self.last
        &&& self.last < usize::MAX
        &&& self.first as int % (self.last - self.first + 1) == 0
    }

    /// The frame count of one row.
    pub open spec fn spec_count(&self) -> int {
        self.last - self.first + 1
    }

    /// The row the window currently sits on.
    pub open spec fn spec_row(&self) -> int {
        self.first as int / self.spec_count()
    }

    pub fn spr_count(&self) -> (count: usize)
        requires
            self.wf(),
        ensures
            count == self.spec_count(),
    {
        self.last - self.first + 1
    }

    pub fn row(&self) -> (row: usize)
        requires
            self.wf(),
        ensures
            row == self.spec_row(),
    {
        self.first / self.spr_count()
    }

    /// The first frame of the current row: the sprite's idle pose.
    pub fn offset(&self) -> (frame: usize)
        requires
            self.wf(),
        ensures
            frame == self.first,
            frame == self.spec_count() * self.spec_row(),
    {
        proof {
            self.lemma_row_times_count();
        }
        let count = self.spr_count();
        count * self.row()
    }

    /// Moves the window to `new_row`, keeping the frame count: the window
    /// becomes the contiguous block of that row.
    pub fn set_row(&mut self, new_row: usize)
        requires
            old(self).wf(),
            old(self).spec_count() * new_row + old(self).spec_count() <= usize::MAX,
        ensures
            final(self).wf(),
            final(self).spec_count() == old(self).spec_count(),
            final(self).spec_row() == new_row,
            final(self).first == old(self).spec_count() * new_row,
            final(self).last == final(self).first + old(self).spec_count() - 1,
            final(self).stopped == old(self).stopped,
    {
        proof {
            let c = old(self).spec_count();
            self.lemma_row_times_count();
            lemma_div_by_multiple(new_row as int, c);
            lemma_mod_multiples_basic(new_row as int, c);
            assert(c * new_row == new_row as int * c) by (nonlinear_arith);
        }
        let count = self.spr_count();
        let first = count * new_row;
        if first == self.first {
            return ;
        }
        self.first = first;
        self.last = first + count - 1;
    }

    /// `first` really is the product of the row number and the frame
    /// count: the division in `spec_row` is exact.
    pub proof fn lemma_row_times_count(&self)
        requires
            self.wf(),
        ensures
            self.spec_count() * self.spec_row() == self.first,
    {
        vstd::arithmetic::div_mod::lemma_fundamental_div_mod(
            self.first as int,
            self.spec_count(),
        );
    }
}

/// A repeating frame timer: fires each time `period` milliseconds of
/// elapsed time accumulate, carrying the remainder over.
#[derive(Clone, Copy, PartialEq, Eq, Structural, Debug)]
pub struct AnimTimer {
    pub elapsed: u32,
    pub period: u32,
}

impl AnimTimer {
    /// Well-formed: the period is positive and the carried elapsed time
    /// stays below it.
    pub open spec fn wf(&self) -> bool {
        &&& self.period > 0
        &&& self.elapsed < self.period
    }

    /// A fresh timer with the given period and nothing accumulated yet.
    pub fn new(period: u32) -> (timer: AnimTimer)
        requires
            period > 0,
        ensures
            timer.wf(),
            timer.period == period,
            timer.elapsed == 0,
    {
        AnimTimer { elapsed: 0, period }
    }

    /// Accumulates `dt` milliseconds; returns whether the timer fired at
    /// least once during them. The time beyond the last full period is
    /// carried over.
    pub fn advance(&mut self, dt: u32) -> (fired: bool)
        requires
            old(self).wf(),
        ensures
            final(self).wf(),
            final(self).period == old(self).period,
            fired == (old(self).elapsed + dt >= old(self).period),
            final(self).elapsed == (old(self).elapsed + dt) % (old(self).period as int),
    {
        let total: u64 = self.elapsed as u64 + dt as u64;
        if total >= self.period as u64 {
            self.elapsed = (total % (self.period as u64)) as u32;
            true
        } else {
            proof {
                vstd::arithmetic::div_mod::lemma_small_mod(
                    total as nat,
                    self.period as nat,
                );
            }
            self.elapsed = total as u32;
            false
        }
    }
}

/// The frame shown after one firing of the frame timer, for the window
/// `first..=last` described by `count`: a frame below the window snaps to
/// its start first, then the frame advances by one, wrapping from the last
/// frame back to the first.
pub open spec fn next_frame(first: int, count: int, frame: int) -> int {
    let clamped = if frame < first {
        first
    } else {
        frame
    };
    if clamped >= first + count - 1 {
        first
    } else {
        clamped + 1
    }
}

/// The facing row selected by the held directional keys. The directions
/// are evaluated in the fixed order up, down, left, right, each later one
/// overwriting the earlier, so the net priority is
/// right > left > down > up.
pub open spec fn spec_facing_row(up: bool, down: bool, left: bool, right: bool) -> int {
    if right {
        ROW_SIDE as int
    } else if left {
        ROW_SIDE as int
    } else if down {
        ROW_DOWN as int
    } else {
        ROW_UP as int
    }
}

/// The horizontal mirroring selected by the held keys, under the same
/// priority: the side row faces left unmirrored and is flipped for the
/// right facing. With no key held the previous mirroring `prev` is kept.
pub open spec fn spec_facing_flip(
    up: bool,
    down: bool,
    left: bool,
    right: bool,
    prev: bool,
) -> bool {
    if right {
        true
    } else if left {
        false
    } else if down {
        false
    } else if up {
        false
    } else {
        prev
    }
}

/// One tick of facing selection. With no directional key held the sprite
/// stops and its frame snaps to the row's idle pose (the window's first
/// frame); otherwise the window moves to the selected facing row, the
/// sprite runs, and the frame is left for the cycling tick to move.
/// Returns the new mirroring and the new frame.
pub fn update_facing(
    indices: &mut AnimIndices,
    flip: bool,
    frame: usize,
    up: bool,
    down: bool,
    left: bool,
    right: bool,
) -> (r: (bool, usize))
    requires
        old(indices).wf(),
        old(indices).spec_count() * 3 <= usize::MAX,
    ensures
        final(indices).wf(),
        final(indices).spec_count() == old(indices).spec_count(),
        !(up || down || left || right) ==> final(indices).first == old(indices).first
            && final(indices).last == old(indices).last && final(indices).stopped
            && r == (flip, old(indices).first),
        (up || down || left || right) ==> !final(indices).stopped
            && final(indices).spec_row() == spec_facing_row(up, down, left, right)
            && final(indices).first == old(indices).spec_count() * spec_facing_row(
            up,
            down,
            left,
            right,
        ) && final(indices).last == final(indices).first + old(indices).spec_count() - 1
            && r == (spec_facing_flip(up, down, left, right, flip), frame),
{
    if !up && !down && !left && !right {
        indices.stopped = true;
        let idle = indices.first;
        return (flip, idle);
    }
    let row: usize;
    let new_flip: bool;
    if right {
        row = ROW_SIDE;
        new_flip = true;
    } else if left {
        row = ROW_SIDE;
        new_flip = false;
    } else if down {
        row = ROW_DOWN;
        new_flip = false;
    } else {
        row = ROW_UP;
        new_flip = false;
    }
    proof {
        let c = indices.spec_count();
        assert(c * row + c <= c * 3) by (nonlinear_arith)
            requires
                0 <= c,
                0 <= row <= 2,
        ;
    }
    indices.set_row(row);
    indices.stopped = false;
    (new_flip, frame)
}

/// One tick of frame cycling: while the sprite is stopped nothing moves
/// (the timer does not even accumulate); otherwise the timer accumulates
/// `dt` and, when it fires, the frame steps through the window.
pub fn advance_animation(indices: &AnimIndices, timer: &mut AnimTimer, frame: usize, dt: u32) -> (
    new_frame: usize)
    requires
        indices.wf(),
        old(timer).wf(),
    ensures
        final(timer).wf(),
        final(timer).period == old(timer).period,
        indices.stopped ==> *final(timer) == *old(timer) && new_frame == frame,
        !indices.stopped ==> final(timer).elapsed == (old(timer).elapsed + dt) % (
        old(timer).period as int),
        !indices.stopped ==> new_frame == (if old(timer).elapsed + dt >= old(timer).period {
            next_frame(indices.first as int, indices.spec_count(), frame as int)
        } else {
            frame as int
        }),
{
    if indices.stopped {
        return frame;
    }
    let fired = timer.advance(dt);
    if !fired {
        return frame;
    }
    let clamped = if frame < indices.first {
        indices.first
    } else {
        frame
    };
    if clamped >= indices.last {
        indices.first
    } else {
        clamped + 1
    }
}

} // verus!
