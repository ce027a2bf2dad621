//! The mode state machine: what mode the device is in, and how one tick of
//! button input and clock reading moves it to the next mode.

use vstd::prelude::*;

use crate::history::{Block, BlockKind, blocks_of, history_get, history_len, history_new, history_push};
use crate::input::Buttons;

verus! {

/// Length of a work interval, in milliseconds (25 minutes).
pub const WORK_MILLIS: u64 = 25 * 60 * 1000;

/// Length of the rest interval that follows a work interval, in milliseconds
/// (5 minutes).
pub const REST_MILLIS: u64 = 5 * 60 * 1000;

/// The device's mode; always exactly one of the three.
///
/// - `ModeSelect(selection)`: the menu. Selection 0 is neutral, 1 highlights
///   "start a timer", 2 highlights "view history".
/// - `Timer`: a running interval that began at `from_millis` on the monotonic
///   clock and lasts `duration_millis`; `reverse` is false for a work
///   interval counting up and true for the rest interval that follows it,
///   whose wedge drains instead of filling.
/// - `Viewer(scroll_point)`: the history viewer, on page `scroll_point` of 5.
#[derive(Clone, Copy, PartialEq, Eq, Structural, Debug)]
pub enum Mode {
    ModeSelect(u8),
    Timer { from_millis: u64, duration_millis: u64, reverse: bool },
    Viewer(u8),
}

/// The whole device state: recorded history (oldest first, append-only), the
/// current mode, and a frame counter that wraps on overflow and must never be
/// used to measure time.
pub struct State {
    pub times: heapless::Vec<Block, 100>,
    pub mode: Mode,
    pub counter: u64,
}

/// Milliseconds elapsed since `from` at clock reading `now`, saturating at
/// zero if the readings race backwards.
pub open spec fn spec_elapsed(from: u64, now: u64) -> int {
    if now >= from {
        now - from
    } else {
        0
    }
}

/// The frame counter after one tick: one more, wrapping to zero at the top.
pub open spec fn wrap_inc(c: u64) -> u64 {
    if c == u64::MAX {
        0
    } else {
        (c + 1) as u64
    }
}

/// The block that a completed interval records: five units of ordinary work
/// after a work interval, one unit of rest after a rest interval.
pub open spec fn spec_completed_block(reverse: bool) -> Block {
    if reverse {
        Block { count: 1, kind: BlockKind::Rest }
    } else {
        Block { count: 5, kind: BlockKind::Other(0) }
    }
}

/// The mode after one tick.
///
/// In the menu, button A is checked first and wins when both are asserted:
/// from selection 1 it starts a work timer at `now`, from 2 it returns to
/// neutral, otherwise it moves to selection 1. Button B from selection 1
/// returns to neutral, from 2 opens the viewer, otherwise it moves to
/// selection 2.
///
/// A timer ignores buttons. Once its duration has elapsed, a work timer
/// starts the rest timer at `now` and a rest timer returns to the neutral
/// menu.
///
/// In the viewer, both buttons together exit to the neutral menu; B alone
/// scrolls forward, clamped to page 4; A alone scrolls back, clamped to
/// page 0.
pub open spec fn spec_next_mode(m: Mode, input: Buttons, now: u64) -> Mode {
    match m {
        Mode::ModeSelect(sel) => {
            if input.a {
                if sel == 1 {
                    Mode::Timer { from_millis: now, duration_millis: WORK_MILLIS, reverse: false }
                } else if sel == 2 {
                    Mode::ModeSelect(0)
                } else {
                    Mode::ModeSelect(1)
                }
            } else if input.b {
                if sel == 1 {
                    Mode::ModeSelect(0)
                } else if sel == 2 {
                    Mode::Viewer(0)
                } else {
                    Mode::ModeSelect(2)
                }
            } else {
                m
            }
        },
        Mode::Timer { from_millis, duration_millis, reverse } => {
            if spec_elapsed(from_millis, now) >= duration_millis {
                if reverse {
                    Mode::ModeSelect(0)
                } else {
                    Mode::Timer { from_millis: now, duration_millis: REST_MILLIS, reverse: true }
                }
            } else {
                m
            }
        },
        Mode::Viewer(sp) => {
            if input.a && input.b {
                Mode::ModeSelect(0)
            } else if input.b {
                Mode::Viewer(if sp < 4 { (sp + 1) as u8 } else { 4 })
            } else if input.a {
                Mode::Viewer(if sp == 0 { 0 } else { (sp - 1) as u8 })
            } else {
                m
            }
        },
    }
}

/// The history after one tick: a timer whose duration has elapsed appends the
/// block it completed, unless the history already holds 100 blocks, in which
/// case the new block is rejected and recording stops. Nothing else touches
/// the history.
pub open spec fn spec_next_history(h: Seq<Block>, m: Mode, now: u64) -> Seq<Block> {
    match m {
        Mode::Timer { from_millis, duration_millis, reverse } => {
            if spec_elapsed(from_millis, now) >= duration_millis {
                if h.len() < 100 {
                    h.push(spec_completed_block(reverse))
                } else {
                    h
                }
            } else {
                h
            }
        },
        _ => h,
    }
}

impl State {
    /// The recorded blocks, oldest first.
    pub open spec fn blocks(&self) -> Seq<Block> {
        blocks_of(self.times)
    }

    /// The history never holds more than 100 blocks.
    pub open spec fn wf(&self) -> bool {
        self.blocks().len() <= 100
    }

    /// The power-on state: empty history, neutral menu, counter zero.
    pub fn new() -> (s: State)
        ensures
            s.wf(),
            s.blocks() == Seq::<Block>::empty(),
            s.mode == Mode::ModeSelect(0),
            s.counter == 0,
    {
        State { times: history_new(), mode: Mode::ModeSelect(0), counter: 0 }
    }

    /// How many blocks the history holds.
    pub fn history_len(&self) -> (n: usize)
        ensures
            n == self.blocks().len(),
    {
        history_len(&self.times)
    }

    /// Reads recorded block `i` (0 is the oldest).
    pub fn history_block(&self, i: usize) -> (b: Block)
        requires
            i < self.blocks().len(),
        ensures
            b == self.blocks()[i as int],
    {
        history_get(&self.times, i)
    }
}

/// Advances the state machine by one tick.
///
/// Total on every well-formed state and every input: the counter always
/// advances by exactly one (wrapping), the mode follows `spec_next_mode`, the
/// history follows `spec_next_history`, and the next polling interval is the
/// previous one, which no transition in this machine changes.
pub fn advance(state: State, input: Buttons, now_millis: u64, prev_interval_millis: u32) -> (r: (State, u32))
    requires
        state.wf(),
    ensures
        r.0.wf(),
        r.0.mode == spec_next_mode(state.mode, input, now_millis),
        r.0.blocks() == spec_next_history(state.blocks(), state.mode, now_millis),
        r.0.counter == wrap_inc(state.counter),
        r.1 == prev_interval_millis,
{
    let State { mut times, mode, counter } = state;
    let new_counter: u64 = if counter == u64::MAX { 0 } else { counter + 1 };
    let new_mode: Mode = match mode {
        Mode::ModeSelect(sel) => {
            if input.a {
                if sel == 1 {
                    Mode::Timer { from_millis: now_millis, duration_millis: WORK_MILLIS, reverse: false }
                } else if sel == 2 {
                    Mode::ModeSelect(0)
                } else {
                    Mode::ModeSelect(1)
                }
            } else if input.b {
                if sel == 1 {
                    Mode::ModeSelect(0)
                } else if sel == 2 {
                    Mode::Viewer(0)
                } else {
                    Mode::ModeSelect(2)
                }
            } else {
                mode
            }
        },
        Mode::Timer { from_millis, duration_millis, reverse } => {
            let elapsed: u64 = if now_millis >= from_millis { now_millis - from_millis } else { 0 };
            if elapsed >= duration_millis {
                let completed = if reverse {
                    Block { count: 1, kind: BlockKind::Rest }
                } else {
                    Block { count: 5, kind: BlockKind::Other(0) }
                };
                let _accepted = history_push(&mut times, completed);
                if reverse {
                    Mode::ModeSelect(0)
                } else {
                    Mode::Timer { from_millis: now_millis, duration_millis: REST_MILLIS, reverse: true }
                }
            } else {
                mode
            }
        },
        Mode::Viewer(sp) => {
            if input.a && input.b {
                Mode::ModeSelect(0)
            } else if input.b {
                Mode::Viewer(if sp < 4 { sp + 1 } else { 4 })
            } else if input.a {
                Mode::Viewer(if sp == 0 { 0 } else { sp - 1 })
            } else {
                mode
            }
        },
    };
    (State { times, mode: new_mode, counter: new_counter }, prev_interval_millis)
}

} // verus!
