//! The player controller: the `Normal` / `UsingTool` action state machine
//! and the per-tick aggregate it gates.
//!
//! In `Normal`, the directional keys drive movement and facing every tick.
//! A rising edge of the primary action input (a press, never a hold)
//! transitions to `UsingTool` within the same tick: the velocity is zeroed,
//! the sprite window moves to the tool pose of the facing captured at that
//! instant, and a one-shot [`ActionTimer`] starts.
//!
//! In `UsingTool`, movement input is ignored entirely and the timer
//! advances each tick. The first time the elapsed time passes the midpoint
//! of the duration, the midpoint opportunity is consumed: if a target cell
//! is selected at that instant, exactly one till request is emitted for it;
//! if none is, the action completes without ever affecting the grid. When
//! the timer reaches its full duration the machine returns to `Normal` and
//! the sprite window drops back to the walk row under the tool pose. An
//! action can never be canceled, and pressing the action input again while
//! it runs is ignored: the edge detection only fires in `Normal`.

use vstd::prelude::*;

use vstd::arithmetic::div_mod::lemma_div_by_multiple;
use vstd::arithmetic::div_mod::lemma_mod_division_less_than_divisor;
use vstd::arithmetic::div_mod::lemma_mod_multiples_basic;

use crate::anim::AnimIndices;
use crate::anim::AnimTimer;
use crate::anim::FRAME_PERIOD_MS;
use crate::anim::ROW_SIDE;
use crate::anim::TOOL_ROW_OFFSET;
use crate::anim::advance_animation;
use crate::anim::next_frame;
use crate::anim::spec_facing_flip;
use crate::anim::spec_facing_row;
use crate::anim::update_facing;
use crate::motion::MoveDir;
use crate::motion::compute_velocity;
use crate::motion::move_dir;
use crate::soil::TillRequest;

verus! {

/// Tunable: how long one tool use takes, in milliseconds (half a second).
pub const TOOL_DURATION_MS: u32 = 500;

/// How many frames one sprite row holds in the player atlas.
pub const FRAMES_PER_ROW: usize = 4;

/// The player's action state. `Normal` is the initial state; the machine
/// is cyclic, there is no terminal state.
#[derive(Clone, Copy, PartialEq, Eq, Structural, Debug, Default)]
pub enum PlayerState {
    #[default]
    Normal,
    UsingTool,
}

impl PlayerState {
    pub fn is_normal(&self) -> (r: bool)
        ensures
            r == (*self is Normal),
    {
        matches!(self, PlayerState::Normal)
    }

    pub fn is_using_tool(&self) -> (r: bool)
        ensures
            r == (*self is UsingTool),
    {
        matches!(self, PlayerState::UsingTool)
    }
}

/// One tick's sampled input signals: which directional keys are held, and
/// whether the primary action input was pressed this very tick (a rising
/// edge, not a hold — the input collaborator exposes both queries).
#[derive(Clone, Copy, PartialEq, Eq, Structural, Debug, Default)]
pub struct InputState {
    pub up: bool,
    pub down: bool,
    pub left: bool,
    pub right: bool,
    pub action_pressed: bool,
}

impl InputState {
    /// Some directional key is held.
    pub open spec fn any_dir(&self) -> bool {
        self.up || self.down || self.left || self.right
    }
}

/// The one-shot tool-use timer. `fired` records that the midpoint
/// opportunity was consumed, and so guards against emitting more than one
/// till request per action instance. The timer is never canceled once
/// started.
#[derive(Clone, Copy, PartialEq, Eq, Structural, Debug)]
pub struct ActionTimer {
    pub elapsed: u32,
    pub duration: u32,
    pub fired: bool,
}

impl ActionTimer {
    /// Well-formed: a positive duration that the elapsed time never
    /// exceeds.
    pub open spec fn wf(&self) -> bool {
        &&& 0 < self.duration
        &&& self.elapsed <= self.duration
    }

    /// Strictly past half of the duration.
    pub open spec fn past_midpoint(&self) -> bool {
        2 * self.elapsed > self.duration
    }

    pub open spec fn finished(&self) -> bool {
        self.elapsed == self.duration
    }

    /// The timer after `dt` more milliseconds; the elapsed time saturates
    /// at the duration.
    pub open spec fn advanced(self, dt: u32) -> ActionTimer {
        ActionTimer {
            elapsed: if self.elapsed + dt >= self.duration {
                self.duration
            } else {
                (self.elapsed + dt) as u32
            },
            duration: self.duration,
            fired: self.fired,
        }
    }
}

/// The frame window of `row` for a frame count of `count`, running.
pub open spec fn row_window(count: int, row: int) -> AnimIndices {
    AnimIndices {
        first: (count * row) as usize,
        last: (count * row + count - 1) as usize,
        stopped: false,
    }
}

/// The player aggregate: the action state with its timer, the sprite
/// window, mirroring and current frame, and this tick's velocity command.
#[derive(Clone, Copy, PartialEq, Eq, Structural, Debug)]
pub struct Player {
    pub state: PlayerState,
    pub anim: AnimIndices,
    pub anim_timer: AnimTimer,
    pub action: Option<ActionTimer>,
    pub flip: bool,
    pub frame: usize,
    pub velocity: MoveDir,
}

impl Player {
    /// The aggregate's invariant: the sprite window and frame timer are
    /// well-formed, the action timer exists exactly in `UsingTool`, and
    /// the window sits on a walk row (`0..=2`) in `Normal` and on the
    /// matching tool row (`3..=5`) while the tool is in use. The count
    /// bound keeps every row move inside `usize`.
    pub open spec fn wf(&self) -> bool {
        &&& self.anim.wf()
        &&& self.anim_timer.wf()
        &&& self.anim.spec_count() * 6 <= usize::MAX
        &&& (self.state is UsingTool <==> self.action is Some)
        &&& (self.action matches Some(t) ==> t.wf())
        &&& (self.state is Normal ==> self.anim.spec_row() <= ROW_SIDE)
        &&& (self.state is UsingTool ==> TOOL_ROW_OFFSET <= self.anim.spec_row()
            && self.anim.spec_row() <= ROW_SIDE + TOOL_ROW_OFFSET)
    }

    /// A freshly spawned player: `Normal`, facing down, idle on the first
    /// frame, no action running.
    pub fn new() -> (p: Player)
        ensures
            p.wf(),
            p.state is Normal,
            p.velocity.is_zero(),
            p.anim.first == 0,
            p.anim.last == FRAMES_PER_ROW - 1,
            !p.anim.stopped,
            p.frame == 0,
            !p.flip,
            p.anim_timer.period == FRAME_PERIOD_MS,
            p.anim_timer.elapsed == 0,
            p.action is None,
    {
        Player {
            state: PlayerState::Normal,
            anim: AnimIndices { first: 0, last: FRAMES_PER_ROW - 1, stopped: false },
            anim_timer: AnimTimer::new(FRAME_PERIOD_MS),
            action: None,
            flip: false,
            frame: 0,
            velocity: MoveDir::zero(),
        }
    }
}

/// The frame timer after one running tick: `dt` accumulated, the
/// remainder past full periods carried over.
pub open spec fn ticked_timer(timer: AnimTimer, dt: u32) -> AnimTimer {
    AnimTimer {
        elapsed: ((timer.elapsed + dt) % (timer.period as int)) as u32,
        period: timer.period,
    }
}

/// One `Normal` tick of the player, as a function of the sampled input:
/// the velocity command is recomputed, the facing and frame cycle run,
/// and an action press edge transitions to `UsingTool` — zeroing the
/// velocity, moving the window to the tool pose of the facing captured
/// this very tick, and starting a fresh action timer.
pub open spec fn spec_normal_tick(p: Player, input: InputState, dt: u32) -> Player {
    let c = p.anim.spec_count();
    let any = input.any_dir();
    let anim1 = if any {
        row_window(c, spec_facing_row(input.up, input.down, input.left, input.right))
    } else {
        AnimIndices { first: p.anim.first, last: p.anim.last, stopped: true }
    };
    let flip1 = spec_facing_flip(input.up, input.down, input.left, input.right, p.flip);
    let frame1 = if any {
        p.frame
    } else {
        p.anim.first
    };
    let timer1 = if any {
        ticked_timer(p.anim_timer, dt)
    } else {
        p.anim_timer
    };
    let frame2 = if any && p.anim_timer.elapsed + dt >= p.anim_timer.period {
        next_frame(anim1.first as int, c, frame1 as int) as usize
    } else {
        frame1
    };
    if input.action_pressed {
        let captured = anim1.spec_row();
        Player {
            state: PlayerState::UsingTool,
            anim: row_window(c, captured + TOOL_ROW_OFFSET),
            anim_timer: timer1,
            action: Some(ActionTimer { elapsed: 0, duration: TOOL_DURATION_MS, fired: false }),
            flip: flip1,
            frame: (c * captured) as usize,
            velocity: MoveDir { x: 0, y: 0 },
        }
    } else {
        Player {
            state: PlayerState::Normal,
            anim: anim1,
            anim_timer: timer1,
            action: None,
            flip: flip1,
            frame: frame2,
            velocity: move_dir(input.up, input.down, input.left, input.right),
        }
    }
}

/// One `UsingTool` tick: the tool pose cycles, the action timer advances
/// (saturating at its duration), the midpoint opportunity is consumed the
/// first time the elapsed time passes it — emitting the selected cell if
/// one exists at that instant — and reaching the full duration returns
/// the machine to `Normal`, dropping the window back to the walk row
/// under the tool pose. Movement input plays no part.
pub open spec fn spec_tool_tick(p: Player, dt: u32, selected: Option<TillRequest>) -> (
    Player,
    Option<TillRequest>,
) {
    let c = p.anim.spec_count();
    let cycling = !p.anim.stopped;
    let timer1 = if cycling {
        ticked_timer(p.anim_timer, dt)
    } else {
        p.anim_timer
    };
    let frame1 = if cycling && p.anim_timer.elapsed + dt >= p.anim_timer.period {
        next_frame(p.anim.first as int, c, p.frame as int) as usize
    } else {
        p.frame
    };
    let t0 = p.action.unwrap();
    let t1 = t0.advanced(dt);
    let emitted = if !t0.fired && t1.past_midpoint() {
        selected
    } else {
        None
    };
    let t2 = ActionTimer {
        elapsed: t1.elapsed,
        duration: t1.duration,
        fired: t0.fired || t1.past_midpoint(),
    };
    if t1.finished() {
        let walk_row = p.anim.spec_row() - TOOL_ROW_OFFSET;
        (
            Player {
                state: PlayerState::Normal,
                anim: AnimIndices {
                    first: (c * walk_row) as usize,
                    last: (c * walk_row + c - 1) as usize,
                    stopped: p.anim.stopped,
                },
                anim_timer: timer1,
                action: None,
                flip: p.flip,
                frame: (c * walk_row) as usize,
                velocity: p.velocity,
            },
            emitted,
        )
    } else {
        (
            Player {
                state: PlayerState::UsingTool,
                anim: p.anim,
                anim_timer: timer1,
                action: Some(t2),
                flip: p.flip,
                frame: frame1,
                velocity: p.velocity,
            },
            emitted,
        )
    }
}

impl Player {
    /// One tick in `Normal`: movement, facing, frame cycling, then the
    /// action press edge.
    pub fn tick_normal(&mut self, input: InputState, dt: u32)
        requires
            old(self).wf(),
            old(self).state is Normal,
        ensures
            final(self).wf(),
            *final(self) == spec_normal_tick(*old(self), input, dt),
    {
        proof {
            old(self).anim.lemma_row_times_count();
        }
        let ghost c = self.anim.spec_count();
        self.velocity = compute_velocity(input.up, input.down, input.left, input.right);
        let flip0 = self.flip;
        let frame0 = self.frame;
        let faced = update_facing(
            &mut self.anim,
            flip0,
            frame0,
            input.up,
            input.down,
            input.left,
            input.right,
        );
        self.flip = faced.0;
        self.frame = faced.1;
        let cycled = advance_animation(&self.anim, &mut self.anim_timer, self.frame, dt);
        self.frame = cycled;
        if input.action_pressed {
            let captured = self.anim.row();
            proof {
                assert(c * (captured + 3) + c <= c * 6) by (nonlinear_arith)
                    requires
                        0 <= c,
                        0 <= captured <= 2,
                ;
                assert(c * captured <= c * 2) by (nonlinear_arith)
                    requires
                        0 <= c,
                        0 <= captured <= 2,
                ;
            }
            self.anim.set_row(captured + TOOL_ROW_OFFSET);
            self.anim.stopped = false;
            self.frame = self.anim.spr_count() * captured;
            self.velocity = MoveDir::zero();
            self.state = PlayerState::UsingTool;
            self.action = Some(
                ActionTimer { elapsed: 0, duration: TOOL_DURATION_MS, fired: false },
            );
        }
    }

    /// One tick in `UsingTool`: frame cycling, the action timer, the
    /// midpoint emission, and the completion transition. Returns the till
    /// request emitted this tick, if any.
    pub fn tick_using_tool(&mut self, dt: u32, selected: Option<TillRequest>) -> (emitted:
        Option<TillRequest>)
        requires
            old(self).wf(),
            old(self).state is UsingTool,
        ensures
            final(self).wf(),
            *final(self) == spec_tool_tick(*old(self), dt, selected).0,
            emitted == spec_tool_tick(*old(self), dt, selected).1,
    {
        proof {
            old(self).anim.lemma_row_times_count();
        }
        let ghost c = self.anim.spec_count();
        let cycled = advance_animation(&self.anim, &mut self.anim_timer, self.frame, dt);
        self.frame = cycled;
        let mut t = self.action.unwrap();
        let remaining = t.duration - t.elapsed;
        if dt >= remaining {
            t.elapsed = t.duration;
        } else {
            t.elapsed = t.elapsed + dt;
        }
        let crossed = !t.fired && (t.elapsed as u64) * 2 > (t.duration as u64);
        let emitted = if crossed {
            selected
        } else {
            None
        };
        if crossed {
            t.fired = true;
        }
        if t.elapsed == t.duration {
            let row = self.anim.row();
            proof {
                assert(c * (row - 3) + c <= c * 3) by (nonlinear_arith)
                    requires
                        0 <= c,
                        3 <= row <= 5,
                ;
            }
            self.anim.set_row(row - TOOL_ROW_OFFSET);
            self.frame = self.anim.spr_count() * (row - TOOL_ROW_OFFSET);
            self.state = PlayerState::Normal;
            self.action = None;
        } else {
            self.action = Some(t);
        }
        emitted
    }

    /// One simulation tick: the state machine's transition table in one
    /// place. A `Normal` tick never emits a till request; a `UsingTool`
    /// tick ignores the movement and action inputs entirely.
    pub fn tick(&mut self, input: InputState, dt: u32, selected: Option<TillRequest>) -> (
        emitted: Option<TillRequest>)
        requires
            old(self).wf(),
        ensures
            final(self).wf(),
            old(self).state is Normal ==> *final(self) == spec_normal_tick(
                *old(self),
                input,
                dt,
            ) && emitted is None,
            old(self).state is UsingTool ==> *final(self) == spec_tool_tick(
                *old(self),
                dt,
                selected,
            ).0 && emitted == spec_tool_tick(*old(self), dt, selected).1,
    {
        let state = self.state;
        match state {
            PlayerState::Normal => {
                self.tick_normal(input, dt);
                None
            },
            PlayerState::UsingTool => self.tick_using_tool(dt, selected),
        }
    }
}

/// The window of `row_window(count, row)` really sits on `row`: its
/// arithmetic stays in range and the row division is exact.
pub proof fn lemma_row_window_props(c: int, r: int)
    requires
        1 <= c,
        0 <= r,
        c * (r + 1) <= usize::MAX,
    ensures
        ({
            let w = row_window(c, r);
            &&& w.wf()
            &&& w.spec_count() == c
            &&& w.spec_row() == r
            &&& w.first == c * r
            &&& w.last == c * r + c - 1
            &&& !w.stopped
        }),
{
    assert(0 <= c * r && c * (r + 1) == c * r + c && c * r == r * c) by (nonlinear_arith)
        requires
            1 <= c,
            0 <= r,
    ;
    lemma_div_by_multiple(r, c);
    lemma_mod_multiples_basic(r, c);
}

/// An action press edge in `Normal` starts the tool use within the same
/// tick: the state is `UsingTool` afterwards, the velocity is zeroed
/// simultaneously, a fresh unfired timer of the documented duration runs,
/// and the sprite window sits on the tool row of the facing captured this
/// very tick.
pub proof fn lemma_press_starts_action(p: Player, input: InputState, dt: u32)
    requires
        p.wf(),
        p.state is Normal,
        input.action_pressed,
    ensures
        ({
            let q = spec_normal_tick(p, input, dt);
            let captured = if input.any_dir() {
                spec_facing_row(input.up, input.down, input.left, input.right)
            } else {
                p.anim.spec_row()
            };
            &&& q.state is UsingTool
            &&& q.velocity.is_zero()
            &&& q.action matches Some(t) && t.elapsed == 0 && !t.fired && t.duration
                == TOOL_DURATION_MS
            &&& q.anim.spec_row() == captured + TOOL_ROW_OFFSET
            &&& q.wf()
        }),
{
    let c = p.anim.spec_count();
    let captured = if input.any_dir() {
        spec_facing_row(input.up, input.down, input.left, input.right)
    } else {
        p.anim.spec_row()
    };
    assert(c * (captured + 3 + 1) <= c * 6) by (nonlinear_arith)
        requires
            1 <= c,
            0 <= captured <= 2,
    ;
    if input.any_dir() {
        assert(c * (captured + 1) <= c * 6) by (nonlinear_arith)
            requires
                1 <= c,
                0 <= captured <= 2,
        ;
        lemma_row_window_props(c, captured);
    } else {
        p.anim.lemma_row_times_count();
    }
    lemma_row_window_props(c, captured + TOOL_ROW_OFFSET);
}

/// One `UsingTool` tick, at the specification level: the invariant is
/// preserved; the machine returns to `Normal` exactly when the advanced
/// timer reaches its full duration, restoring the walk row under the tool
/// pose at that very tick and holding the tool row until then; the
/// midpoint opportunity is consumed monotonically; movement is ignored —
/// the velocity never changes; and a request is emitted exactly when the
/// elapsed time first passes the midpoint and a cell is selected at that
/// instant.
pub proof fn lemma_tool_tick_invariants(p: Player, dt: u32, selected: Option<TillRequest>)
    requires
        p.wf(),
        p.state is UsingTool,
    ensures
        ({
            let (q, em) = spec_tool_tick(p, dt, selected);
            let t0 = p.action.unwrap();
            &&& q.wf()
            &&& q.velocity == p.velocity
            &&& (q.state is Normal <==> t0.advanced(dt).finished())
            &&& (q.state is UsingTool ==> q.anim.spec_row() == p.anim.spec_row()
                && q.action.unwrap().fired == (t0.fired || t0.advanced(dt).past_midpoint()))
            &&& (q.state is Normal ==> q.anim.spec_row() == p.anim.spec_row()
                - TOOL_ROW_OFFSET)
            &&& em == (if !t0.fired && t0.advanced(dt).past_midpoint() {
                selected
            } else {
                None::<TillRequest>
            })
        }),
{
    let c = p.anim.spec_count();
    let row = p.anim.spec_row();
    let t0 = p.action.unwrap();
    let t1 = t0.advanced(dt);
    lemma_mod_division_less_than_divisor(
        p.anim_timer.elapsed + dt,
        p.anim_timer.period as int,
    );
    if t1.finished() {
        assert(c * (row - 3 + 1) <= c * 6) by (nonlinear_arith)
            requires
                1 <= c,
                3 <= row <= 5,
        ;
        lemma_row_window_props(c, row - TOOL_ROW_OFFSET);
        p.anim.lemma_row_times_count();
        let q = spec_tool_tick(p, dt, selected).0;
        assert(q.anim.first == row_window(c, row - TOOL_ROW_OFFSET).first);
        assert(q.anim.last == row_window(c, row - TOOL_ROW_OFFSET).last);
    }
}

/// Runs the `UsingTool` ticks of `steps` (each a time delta and the cell
/// selected that tick) until the action completes or the steps run out.
pub open spec fn tool_run(p: Player, steps: Seq<(u32, Option<TillRequest>)>) -> Player
    decreases steps.len(),
{
    if steps.len() == 0 || !(p.state is UsingTool) {
        p
    } else {
        tool_run(spec_tool_tick(p, steps[0].0, steps[0].1).0, steps.drop_first())
    }
}

/// How many till requests the `UsingTool` ticks of `steps` emit.
pub open spec fn tool_emission_count(p: Player, steps: Seq<(u32, Option<TillRequest>)>) -> int
    decreases steps.len(),
{
    if steps.len() == 0 || !(p.state is UsingTool) {
        0
    } else {
        let r = spec_tool_tick(p, steps[0].0, steps[0].1);
        (if r.1 is Some {
            1int
        } else {
            0int
        }) + tool_emission_count(r.0, steps.drop_first())
    }
}

/// True iff some tick of `steps` consumes the midpoint opportunity while
/// a target cell is selected: the elapsed time passes the midpoint for
/// the first time on a tick whose selected cell exists.
pub open spec fn midpoint_served(p: Player, steps: Seq<(u32, Option<TillRequest>)>) -> bool
    decreases steps.len(),
{
    if steps.len() == 0 || !(p.state is UsingTool) {
        false
    } else {
        let t0 = p.action.unwrap();
        (!t0.fired && t0.advanced(steps[0].0).past_midpoint() && steps[0].1 is Some)
            || midpoint_served(spec_tool_tick(p, steps[0].0, steps[0].1).0, steps.drop_first())
    }
}

/// Once the midpoint opportunity of an action instance is consumed, no
/// later tick of that instance emits anything.
pub proof fn lemma_fired_tool_emits_nothing(p: Player, steps: Seq<(u32, Option<TillRequest>)>)
    requires
        p.state is UsingTool,
        p.action matches Some(t) && t.fired,
    ensures
        tool_emission_count(p, steps) == 0,
        !midpoint_served(p, steps),
    decreases steps.len(),
{
    reveal_with_fuel(tool_emission_count, 2);
    reveal_with_fuel(midpoint_served, 2);
    if steps.len() > 0 {
        let q = spec_tool_tick(p, steps[0].0, steps[0].1).0;
        if q.state is UsingTool {
            lemma_fired_tool_emits_nothing(q, steps.drop_first());
        }
    }
}

/// Exactly one till request per action instance: over any run of
/// `UsingTool` ticks, exactly one request is emitted when the midpoint
/// crossing finds a selected cell, and none otherwise — never more than
/// one, however long the run.
pub proof fn lemma_tool_emits_exactly_once(p: Player, steps: Seq<(u32, Option<TillRequest>)>)
    requires
        p.state is UsingTool,
    ensures
        tool_emission_count(p, steps) == if midpoint_served(p, steps) {
            1int
        } else {
            0int
        },
    decreases steps.len(),
{
    reveal_with_fuel(tool_emission_count, 2);
    reveal_with_fuel(midpoint_served, 2);
    if steps.len() > 0 {
        let dt = steps[0].0;
        let sel = steps[0].1;
        let t0 = p.action.unwrap();
        let r = spec_tool_tick(p, dt, sel);
        let q = r.0;
        if !t0.fired && t0.advanced(dt).past_midpoint() {
            if q.state is UsingTool {
                lemma_fired_tool_emits_nothing(q, steps.drop_first());
            }
        } else {
            if q.state is UsingTool {
                if q.action.unwrap().fired {
                    lemma_fired_tool_emits_nothing(q, steps.drop_first());
                } else {
                    lemma_tool_emits_exactly_once(q, steps.drop_first());
                }
            }
        }
    }
}

/// The tool pose holds for the whole action instance, movement stays
/// ignored throughout, and completing the action restores the walk row
/// the facing had when it started.
pub proof fn lemma_tool_restores_row(p: Player, steps: Seq<(u32, Option<TillRequest>)>)
    requires
        p.wf(),
        p.state is UsingTool,
    ensures
        ({
            let q = tool_run(p, steps);
            &&& q.wf()
            &&& (q.state is UsingTool ==> q.anim.spec_row() == p.anim.spec_row())
            &&& (q.state is Normal ==> q.anim.spec_row() == p.anim.spec_row()
                - TOOL_ROW_OFFSET)
            &&& q.velocity == p.velocity
        }),
    decreases steps.len(),
{
    reveal_with_fuel(tool_run, 2);
    if steps.len() > 0 {
        lemma_tool_tick_invariants(p, steps[0].0, steps[0].1);
        let q0 = spec_tool_tick(p, steps[0].0, steps[0].1).0;
        if q0.state is UsingTool {
            lemma_tool_restores_row(q0, steps.drop_first());
        }
    }
}

} // verus!

