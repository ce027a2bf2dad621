//! The renderer: a pure function from the device state (and the clock
//! reading, for a running timer) to a 5x5 binary frame.

use vstd::prelude::*;

use crate::frame::Frame;
use crate::history::{Block, blocks_of, history_get, history_len};
use crate::machine::{Mode, State, spec_elapsed};

verus! {

/// Menu glyph: selection 1 lights the left two columns, selection 2 the
/// right two, any other selection the single centre column.
pub open spec fn select_cell(sel: u8, x: int, y: int) -> bool {
    if sel == 1 {
        x <= 1
    } else if sel == 2 {
        x >= 3
    } else {
        x == 2
    }
}

/// The full menu frame for a selection, row-major.
pub open spec fn spec_select_frame(sel: u8) -> Seq<bool> {
    Seq::new(25, |i: int| select_cell(sel, i % 5, i / 5))
}

/// Countdown progress, 0 through 9: elapsed time divided by a ninth of the
/// duration, clamped at 9. A duration too short to yield a positive ninth
/// counts as fully elapsed rather than dividing by zero.
pub open spec fn spec_progress(from: u64, duration: u64, now: u64) -> int {
    let step = duration as int / 9;
    if step == 0 {
        9
    } else {
        let p = spec_elapsed(from, now) / step;
        if p > 9 {
            9
        } else {
            p
        }
    }
}

/// A timer cell is lit when it lies in the lower-left wedge whose diagonal
/// extent grows with progress. At progress 0 only the corner cell `(0, 0)`
/// remains lit; at progress 9 the wedge covers the whole grid.
pub open spec fn timer_cell(progress: int, x: int, y: int) -> bool {
    x + y <= (if progress >= 1 { progress - 1 } else { 0 })
}

/// The progress the wedge shows: a rest interval (`reverse`) drains from 9
/// toward 0 instead of filling.
pub open spec fn spec_directed_progress(from: u64, duration: u64, reverse: bool, now: u64) -> int {
    let p = spec_progress(from, duration, now);
    if reverse {
        9 - p
    } else {
        p
    }
}

/// The full timer frame: the wedge for the directed progress.
pub open spec fn spec_timer_frame(from: u64, duration: u64, reverse: bool, now: u64) -> Seq<bool> {
    let p = spec_directed_progress(from, duration, reverse, now);
    Seq::new(25, |i: int| timer_cell(p, i % 5, i / 5))
}

/// Units of recorded time (block counts summed) in the first `i` blocks.
pub open spec fn prefix_units(bs: Seq<Block>, i: int) -> int
    recommends
        0 <= i <= bs.len(),
    decreases i,
{
    if i <= 0 {
        0
    } else {
        prefix_units(bs, i - 1) + bs[i - 1].count
    }
}

/// The least index at or after `i` whose block brings the running unit sum to
/// `bound` or beyond; the history's length when none does.
pub open spec fn first_reaching_from(bs: Seq<Block>, bound: int, i: int) -> int
    recommends
        0 <= i <= bs.len(),
    decreases bs.len() - i,
{
    if i >= bs.len() {
        bs.len() as int
    } else if prefix_units(bs, i + 1) >= bound {
        i
    } else {
        first_reaching_from(bs, bound, i + 1)
    }
}

/// The least index whose block brings the running unit sum to `bound` or
/// beyond; the history's length when none does.
pub open spec fn first_reaching(bs: Seq<Block>, bound: int) -> int {
    first_reaching_from(bs, bound, 0)
}

/// A viewer page covers 20 units of time; page `sp` begins where the running
/// sum reaches `20 * sp`. This is the index of the page's first block.
pub open spec fn page_start(bs: Seq<Block>, sp: int) -> int {
    first_reaching(bs, 20 * sp)
}

/// Whether page `sp` has any block to show.
pub open spec fn page_has_content(bs: Seq<Block>, sp: int) -> bool {
    page_start(bs, sp) < bs.len()
}

/// The index of the page's last block: the first block where the running sum
/// reaches the next page's border, or the last block of the history if the
/// sum never gets there.
pub open spec fn page_end(bs: Seq<Block>, sp: int) -> int {
    let e = first_reaching(bs, 20 * sp + 20);
    if e < bs.len() {
        e
    } else {
        bs.len() - 1
    }
}

/// How many blocks the page shows.
pub open spec fn page_len(bs: Seq<Block>, sp: int) -> int {
    page_end(bs, sp) - page_start(bs, sp) + 1
}

/// The overshoot of the page's first block past the page border: how many of
/// its units fall inside this page.
pub open spec fn page_diff(bs: Seq<Block>, sp: int) -> int {
    prefix_units(bs, page_start(bs, sp) + 1) - 20 * sp
}

/// Which block of the page the animation highlights this tick.
pub open spec fn highlight_offset(bs: Seq<Block>, sp: int, counter: u64) -> int {
    counter as int % page_len(bs, sp)
}

/// First position of the highlighted run: the page's entry overshoot plus
/// the counts of the blocks strictly between the page's first block and the
/// highlighted one.
pub open spec fn run_lo(bs: Seq<Block>, sp: int, counter: u64) -> int {
    let first = page_start(bs, sp);
    let off = highlight_offset(bs, sp, counter);
    page_diff(bs, sp) + (if off >= 1 {
        prefix_units(bs, first + off) - prefix_units(bs, first + 1)
    } else {
        0
    })
}

/// Last position of the highlighted run: the first position plus the
/// highlighted block's own count.
pub open spec fn run_hi(bs: Seq<Block>, sp: int, counter: u64) -> int {
    run_lo(bs, sp, counter) + bs[page_start(bs, sp) + highlight_offset(bs, sp, counter)].count
}

/// A scroll point at or past the number of pages is clamped to the last
/// page rather than rejected.
pub open spec fn clamp_page(sp: u8) -> int {
    if sp <= 4 {
        sp as int
    } else {
        4
    }
}

/// A viewer cell, for a clamped page `sp`. Row 0 is the scrollbar: only
/// column `sp` is lit. The remaining rows, read left to right and top to
/// bottom as positions 1 through 20, light the contiguous run of positions
/// between `run_lo` and `run_hi`; with no content on the page they stay
/// dark.
pub open spec fn viewer_cell(bs: Seq<Block>, sp: int, counter: u64, x: int, y: int) -> bool {
    if y == 0 {
        x == sp
    } else if page_has_content(bs, sp) {
        run_lo(bs, sp, counter) <= (y - 1) * 5 + x + 1 <= run_hi(bs, sp, counter)
    } else {
        false
    }
}

/// The full viewer frame for a history, a raw scroll point and the frame
/// counter.
pub open spec fn spec_viewer_frame(bs: Seq<Block>, scroll_point: u8, counter: u64) -> Seq<bool> {
    Seq::new(25, |i: int| viewer_cell(bs, clamp_page(scroll_point), counter, i % 5, i / 5))
}

/// The running unit sum is nonnegative and at most 255 units per block.
pub proof fn lemma_prefix_units_bounds(bs: Seq<Block>, i: int)
    requires
        0 <= i <= bs.len(),
    ensures
        0 <= prefix_units(bs, i) <= 255 * i,
    decreases i,
{
    if i > 0 {
        lemma_prefix_units_bounds(bs, i - 1);
    }
}

/// The running unit sum never decreases.
pub proof fn lemma_prefix_units_monotone(bs: Seq<Block>, i: int, j: int)
    requires
        0 <= i <= j <= bs.len(),
    ensures
        prefix_units(bs, i) <= prefix_units(bs, j),
    decreases j,
{
    if i < j {
        lemma_prefix_units_monotone(bs, i, j - 1);
    }
}

/// The found index lies between the scan's start and the history's length.
pub proof fn lemma_first_reaching_from_range(bs: Seq<Block>, bound: int, i: int)
    requires
        0 <= i <= bs.len(),
    ensures
        i <= first_reaching_from(bs, bound, i) <= bs.len(),
    decreases bs.len() - i,
{
    if i < bs.len() && prefix_units(bs, i + 1) < bound {
        lemma_first_reaching_from_range(bs, bound, i + 1);
    }
}

/// A larger bound is reached no earlier.
pub proof fn lemma_first_reaching_from_monotone(bs: Seq<Block>, b1: int, b2: int, i: int)
    requires
        b1 <= b2,
        0 <= i <= bs.len(),
    ensures
        first_reaching_from(bs, b1, i) <= first_reaching_from(bs, b2, i),
    decreases bs.len() - i,
{
    if i >= bs.len() {
    } else if prefix_units(bs, i + 1) >= b2 {
    } else if prefix_units(bs, i + 1) >= b1 {
        lemma_first_reaching_from_range(bs, b2, i + 1);
    } else {
        lemma_first_reaching_from_monotone(bs, b1, b2, i + 1);
    }
}

/// Scans the history for the first block whose running unit sum reaches
/// `bound`, returning its index together with the running sum through it
/// (or the history's length and total sum when no block reaches the bound).
fn find_first_reaching(times: &heapless::Vec<Block, 100>, bound: usize) -> (r: (usize, usize))
    requires
        blocks_of(*times).len() <= 100,
    ensures
        r.0 == first_reaching(blocks_of(*times), bound as int),
        r.0 < blocks_of(*times).len() ==> r.1 == prefix_units(blocks_of(*times), r.0 + 1) && r.1 >= bound,
        r.0 == blocks_of(*times).len() ==> r.1 == prefix_units(blocks_of(*times), r.0 as int),
        r.1 <= 25500,
{
    let ghost bs = blocks_of(*times);
    let len = history_len(times);
    let mut acc: usize = 0;
    let mut i: usize = 0;
    while i < len
        invariant
            blocks_of(*times) == bs,
            len == bs.len(),
            len <= 100,
            i <= len,
            acc == prefix_units(bs, i as int),
            acc <= 255 * i,
            first_reaching_from(bs, bound as int, 0) == first_reaching_from(bs, bound as int, i as int),
        decreases len - i,
    {
        let b = history_get(times, i);
        acc = acc + b.count as usize;
        proof {
            assert(acc == prefix_units(bs, i + 1));
        }
        if acc >= bound {
            return (i, acc);
        }
        i = i + 1;
    }
    (i, acc)
}

/// Renders the menu glyph for a selection.
pub fn render_select(sel: u8) -> (f: Frame)
    ensures
        f.wf(),
        f@ == spec_select_frame(sel),
{
    let mut cells: Vec<bool> = Vec::new();
    let mut i: usize = 0;
    while i < 25
        invariant
            i <= 25,
            cells@.len() == i,
            forall|j: int| 0 <= j < i ==> cells@[j] == select_cell(sel, j % 5, j / 5),
        decreases 25 - i,
    {
        let x: usize = i % 5;
        let lit: bool = if sel == 1 {
            x <= 1
        } else if sel == 2 {
            x >= 3
        } else {
            x == 2
        };
        cells.push(lit);
        i = i + 1;
    }
    let f = Frame::from_cells(cells);
    proof {
        assert(f@ =~= spec_select_frame(sel));
    }
    f
}

/// Renders a running timer's wedge from the interval it covers and the
/// clock's current reading.
pub fn render_timer(from_millis: u64, duration_millis: u64, reverse: bool, now_millis: u64) -> (f: Frame)
    ensures
        f.wf(),
        f@ == spec_timer_frame(from_millis, duration_millis, reverse, now_millis),
{
    let elapsed: u64 = if now_millis >= from_millis { now_millis - from_millis } else { 0 };
    let step: u64 = duration_millis / 9;
    let forward: u64 = if step == 0 {
        9
    } else {
        let q: u64 = elapsed / step;
        if q > 9 { 9 } else { q }
    };
    let progress: u64 = if reverse { 9 - forward } else { forward };
    let threshold: u64 = if progress >= 1 { progress - 1 } else { 0 };
    let mut cells: Vec<bool> = Vec::new();
    let mut i: usize = 0;
    while i < 25
        invariant
            i <= 25,
            cells@.len() == i,
            threshold == ({
                let p = spec_directed_progress(from_millis, duration_millis, reverse, now_millis);
                if p >= 1 { p - 1 } else { 0int }
            }),
            forall|j: int| 0 <= j < i ==> cells@[j] == timer_cell(
                spec_directed_progress(from_millis, duration_millis, reverse, now_millis),
                j % 5,
                j / 5,
            ),
        decreases 25 - i,
    {
        let x: usize = i % 5;
        let y: usize = i / 5;
        let lit: bool = (x + y) as u64 <= threshold;
        cells.push(lit);
        i = i + 1;
    }
    let f = Frame::from_cells(cells);
    proof {
        assert(f@ =~= spec_timer_frame(from_millis, duration_millis, reverse, now_millis));
    }
    f
}

/// Renders the history viewer for a scroll point: the scrollbar pixel on
/// row 0 and, when the page has content, the highlighted run of time units
/// on the remaining rows. A scroll point past the last page is clamped to
/// page 4.
pub fn render_viewer(state: &State, scroll_point: u8) -> (f: Frame)
    requires
        state.wf(),
    ensures
        f.wf(),
        f@ == spec_viewer_frame(state.blocks(), scroll_point, state.counter),
{
    let ghost bs = state.blocks();
    let sp: usize = if scroll_point <= 4 { scroll_point as usize } else { 4 };
    proof {
        assert(sp == clamp_page(scroll_point));
    }
    let len = history_len(&state.times);
    let border: usize = 20 * sp;
    let (first, first_units) = find_first_reaching(&state.times, border);
    proof {
        assert(first == page_start(bs, sp as int));
    }
    if first >= len {
        let mut f = Frame::empty();
        f.set(sp, 0);
        proof {
            assert(!page_has_content(bs, sp as int));
            assert(f@ =~= spec_viewer_frame(bs, scroll_point, state.counter));
        }
        return f;
    }
    let (reached, _reached_units) = find_first_reaching(&state.times, border + 20);
    let last: usize = if reached < len { reached } else { len - 1 };
    proof {
        lemma_first_reaching_from_monotone(bs, border as int, border as int + 20, 0);
        lemma_first_reaching_from_range(bs, border as int + 20, 0);
        assert(last == page_end(bs, sp as int));
        assert(first <= last < len);
    }
    let diff: usize = first_units - border;
    proof {
        assert(diff == page_diff(bs, sp as int));
    }
    let n: usize = last - first + 1;
    let off: usize = (state.counter % (n as u64)) as usize;
    proof {
        assert(n == page_len(bs, sp as int));
        assert(off == highlight_offset(bs, sp as int, state.counter));
        assert(off < n);
    }
    let mut mid: usize = 0;
    if off >= 1 {
        let mut j: usize = first + 1;
        while j < first + off
            invariant
                blocks_of(state.times) == bs,
                len == bs.len(),
                len <= 100,
                first < len,
                1 <= off,
                first + off <= last,
                last < len,
                first + 1 <= j <= first + off,
                mid == prefix_units(bs, j as int) - prefix_units(bs, first + 1),
                mid <= 255 * j,
            decreases first + off - j,
        {
            let b = history_get(&state.times, j);
            mid = mid + b.count as usize;
            proof {
                assert(prefix_units(bs, j + 1) == prefix_units(bs, j as int) + bs[j as int].count);
            }
            j = j + 1;
        }
    }
    proof {
        assert(mid == (if off >= 1 {
            prefix_units(bs, first + off) - prefix_units(bs, first + 1)
        } else {
            0int
        }));
        if off >= 1 {
            lemma_prefix_units_monotone(bs, first + 1, first + off);
        }
    }
    let off_mae: usize = diff + mid;
    let highlighted = history_get(&state.times, first + off);
    let off_at: usize = off_mae + highlighted.count as usize;
    proof {
        assert(off_mae == run_lo(bs, sp as int, state.counter));
        assert(off_at == run_hi(bs, sp as int, state.counter));
    }
    let mut cells: Vec<bool> = Vec::new();
    let mut i: usize = 0;
    while i < 25
        invariant
            i <= 25,
            cells@.len() == i,
            sp == clamp_page(scroll_point),
            page_has_content(bs, sp as int),
            off_mae == run_lo(bs, sp as int, state.counter),
            off_at == run_hi(bs, sp as int, state.counter),
            forall|k: int| 0 <= k < i ==> cells@[k] == viewer_cell(bs, sp as int, state.counter, k % 5, k / 5),
        decreases 25 - i,
    {
        let x: usize = i % 5;
        let y: usize = i / 5;
        let lit: bool = if y == 0 {
            x == sp
        } else {
            let t: usize = (y - 1) * 5 + x + 1;
            off_mae <= t && t <= off_at
        };
        cells.push(lit);
        i = i + 1;
    }
    let f = Frame::from_cells(cells);
    proof {
        assert(f@ =~= spec_viewer_frame(bs, scroll_point, state.counter));
    }
    f
}

/// The frame that the current state shows, as a function of the state and
/// the clock reading alone: the menu glyph, the timer wedge, or the viewer
/// page, by the current mode.
pub open spec fn spec_render(s: &State, now: u64) -> Seq<bool> {
    match s.mode {
        Mode::ModeSelect(sel) => spec_select_frame(sel),
        Mode::Timer { from_millis, duration_millis, reverse } => spec_timer_frame(
            from_millis,
            duration_millis,
            reverse,
            now,
        ),
        Mode::Viewer(sp) => spec_viewer_frame(s.blocks(), sp, s.counter),
    }
}

impl State {
    /// Renders the current mode onto the grid. Pure in the state and the
    /// clock reading; only a running timer reads the clock.
    pub fn render(&self, now_millis: u64) -> (f: Frame)
        requires
            self.wf(),
        ensures
            f.wf(),
            f@ == spec_render(self, now_millis),
    {
        match self.mode {
            Mode::ModeSelect(sel) => render_select(sel),
            Mode::Timer { from_millis, duration_millis, reverse } => render_timer(
                from_millis,
                duration_millis,
                reverse,
                now_millis,
            ),
            Mode::Viewer(sp) => render_viewer(self, sp),
        }
    }
}

} // verus!
