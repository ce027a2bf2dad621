//! The behaviours the library guarantees across several functions, stated
//! and proved once for all inputs.

use vstd::prelude::*;

use vstd::arithmetic::div_mod::{
    lemma_div_is_ordered, lemma_div_multiples_vanish, lemma_fundamental_div_mod,
    lemma_fundamental_div_mod_converse,
};

use crate::history::Block;
use crate::input::Buttons;
use crate::machine::{
    Mode, REST_MILLIS, WORK_MILLIS, spec_completed_block, spec_elapsed, spec_next_history,
    spec_next_mode, wrap_inc,
};
use crate::machine::State;
use crate::render::{spec_progress, spec_render, spec_timer_frame};

verus! {

/// One tick moves the frame counter forward by exactly one, modulo 2^64.
pub proof fn lemma_counter_increments_mod_2_64(c: u64)
    ensures
        wrap_inc(c) == (c + 1) % 0x1_0000_0000_0000_0000,
{
}

/// The history is append-only: one tick never deletes, reorders or rewrites
/// a recorded block, whatever the mode and the clock say.
pub proof fn lemma_history_append_only(h: Seq<Block>, m: Mode, now: u64)
    ensures
        spec_next_history(h, m, now).len() >= h.len(),
        forall|i: int| 0 <= i < h.len() ==> spec_next_history(h, m, now)[i] == h[i],
{
}

/// From menu selection 1, an asserted button A starts a 25-minute work
/// timer at the current clock reading, whatever button B does.
pub proof fn lemma_select_starts_work_timer(input: Buttons, now: u64)
    requires
        input.a,
    ensures
        spec_next_mode(Mode::ModeSelect(1), input, now) == (Mode::Timer {
            from_millis: now,
            duration_millis: WORK_MILLIS,
            reverse: false,
        }),
{
}

/// Once a work timer's duration has elapsed, the very next tick starts the
/// 5-minute rest timer and appends one work block of five units, whatever
/// the buttons do, provided the history is below capacity.
pub proof fn lemma_work_timer_completes(h: Seq<Block>, input: Buttons, from: u64, now: u64)
    requires
        spec_elapsed(from, now) >= WORK_MILLIS,
        h.len() < 100,
    ensures
        spec_next_mode(
            Mode::Timer { from_millis: from, duration_millis: WORK_MILLIS, reverse: false },
            input,
            now,
        ) == (Mode::Timer { from_millis: now, duration_millis: REST_MILLIS, reverse: true }),
        spec_next_history(
            h,
            Mode::Timer { from_millis: from, duration_millis: WORK_MILLIS, reverse: false },
            now,
        ) == h.push(spec_completed_block(false)),
{
}

/// Once a rest timer's duration has elapsed, the very next tick returns to
/// the neutral menu and appends one rest block of one unit, whatever the
/// buttons do, provided the history is below capacity.
pub proof fn lemma_rest_timer_completes(h: Seq<Block>, input: Buttons, from: u64, now: u64)
    requires
        spec_elapsed(from, now) >= REST_MILLIS,
        h.len() < 100,
    ensures
        spec_next_mode(
            Mode::Timer { from_millis: from, duration_millis: REST_MILLIS, reverse: true },
            input,
            now,
        ) == Mode::ModeSelect(0),
        spec_next_history(
            h,
            Mode::Timer { from_millis: from, duration_millis: REST_MILLIS, reverse: true },
            now,
        ) == h.push(spec_completed_block(true)),
{
}

/// A full work-plus-rest cycle, started from menu selection 1 by button A
/// and left to elapse, ends on the neutral menu having appended exactly two
/// blocks: five units of work, then one unit of rest. Holds whenever the
/// history has room for both blocks.
pub proof fn lemma_full_cycle_appends_two(
    h: Seq<Block>,
    start_input: Buttons,
    work_input: Buttons,
    rest_input: Buttons,
    t0: u64,
    t1: u64,
    t2: u64,
)
    requires
        start_input.a,
        spec_elapsed(t0, t1) >= WORK_MILLIS,
        spec_elapsed(t1, t2) >= REST_MILLIS,
        h.len() + 2 <= 100,
    ensures
        ({
            let m1 = spec_next_mode(Mode::ModeSelect(1), start_input, t0);
            let m2 = spec_next_mode(m1, work_input, t1);
            spec_next_mode(m2, rest_input, t2) == Mode::ModeSelect(0)
        }),
        ({
            let m1 = spec_next_mode(Mode::ModeSelect(1), start_input, t0);
            let m2 = spec_next_mode(m1, work_input, t1);
            let h1 = spec_next_history(h, m1, t1);
            let h2 = spec_next_history(h1, m2, t2);
            h2 == h.push(spec_completed_block(false)).push(spec_completed_block(true))
                && h2.len() == h.len() + 2
        }),
{
}

/// From the viewer, both buttons asserted together exit to the neutral
/// menu, whatever the scroll point was.
pub proof fn lemma_viewer_exit(sp: u8, input: Buttons, now: u64)
    requires
        input.a,
        input.b,
    ensures
        spec_next_mode(Mode::Viewer(sp), input, now) == Mode::ModeSelect(0),
{
}

/// On the last page, button B alone leaves the scroll point clamped at 4.
pub proof fn lemma_viewer_scroll_clamped(input: Buttons, now: u64)
    requires
        input.b,
        !input.a,
    ensures
        spec_next_mode(Mode::Viewer(4), input, now) == Mode::Viewer(4),
{
}

/// Once the elapsed time covers the duration, the countdown progress sits
/// at its ceiling of 9.
pub proof fn lemma_progress_full(from: u64, duration: u64, now: u64)
    requires
        spec_elapsed(from, now) >= duration,
    ensures
        spec_progress(from, duration, now) == 9,
{
    let e = spec_elapsed(from, now);
    let step = duration as int / 9;
    if step != 0 {
        lemma_fundamental_div_mod(duration as int, 9);
        assert(9 * step <= duration);
        lemma_div_is_ordered(9 * step, e, step);
        lemma_div_multiples_vanish(9, step);
        assert(e / step >= 9);
    }
}

/// Cell `(x, y)` of the grid sits at row-major index `y * 5 + x`.
proof fn lemma_grid_index(x: int, y: int)
    requires
        0 <= x < 5,
        0 <= y < 5,
    ensures
        (y * 5 + x) % 5 == x,
        (y * 5 + x) / 5 == y,
{
    lemma_fundamental_div_mod_converse(y * 5 + x, 5, y, x);
}

/// A work wedge whose duration has fully elapsed covers the whole grid.
pub proof fn lemma_work_wedge_full(from: u64, duration: u64, now: u64, x: int, y: int)
    requires
        spec_elapsed(from, now) >= duration,
        0 <= x < 5,
        0 <= y < 5,
    ensures
        spec_timer_frame(from, duration, false, now)[y * 5 + x],
{
    lemma_progress_full(from, duration, now);
    lemma_grid_index(x, y);
}

/// At the start of a work interval whose duration spans at least one
/// progress step, every cell but the corner `(0, 0)` is dark; the corner
/// cell itself stays lit, the wedge's fixed point.
pub proof fn lemma_work_wedge_start(from: u64, duration: u64, now: u64, x: int, y: int)
    requires
        spec_elapsed(from, now) == 0,
        duration >= 9,
        0 <= x < 5,
        0 <= y < 5,
    ensures
        spec_timer_frame(from, duration, false, now)[y * 5 + x] == (x + y == 0),
{
    let step = duration as int / 9;
    lemma_fundamental_div_mod(duration as int, 9);
    assert(step >= 1);
    assert(spec_progress(from, duration, now) == 0);
    lemma_grid_index(x, y);
}

/// A rest wedge whose duration has fully elapsed has drained to the same
/// single corner cell `(0, 0)`; every other cell is dark.
pub proof fn lemma_rest_wedge_end(from: u64, duration: u64, now: u64, x: int, y: int)
    requires
        spec_elapsed(from, now) >= duration,
        0 <= x < 5,
        0 <= y < 5,
    ensures
        spec_timer_frame(from, duration, true, now)[y * 5 + x] == (x + y == 0),
{
    lemma_progress_full(from, duration, now);
    lemma_grid_index(x, y);
}

/// Rendering is idempotent: the frame is a pure function of the state and
/// the clock reading, so any two frames rendered from the same state at the
/// same reading are identical.
pub proof fn lemma_render_deterministic(s: &State, now: u64, f1: Seq<bool>, f2: Seq<bool>)
    requires
        f1 == spec_render(s, now),
        f2 == spec_render(s, now),
    ensures
        f1 == f2,
{
}

} // verus!
