use pomodoro_grid::frame::Frame;
use pomodoro_grid::history::{Block, BlockKind};
use pomodoro_grid::machine::{Mode, State, WORK_MILLIS};
use pomodoro_grid::render::{render_select, render_timer, render_viewer};

/// Reads a frame into 25 row-major booleans.
fn cells(f: &Frame) -> Vec<bool> {
    let mut out = Vec::new();
    for y in 0..5 {
        for x in 0..5 {
            out.push(f.get(x, y));
        }
    }
    out
}

fn lit_count(f: &Frame) -> usize {
    cells(f).iter().filter(|&&b| b).count()
}

#[test]
fn select_neutral_lights_centre_column() {
    let f = render_select(0);
    for y in 0..5 {
        for x in 0..5 {
            assert_eq!(f.get(x, y), x == 2, "cell ({x}, {y})");
        }
    }
}

#[test]
fn select_1_lights_left_two_columns() {
    let f = render_select(1);
    for y in 0..5 {
        for x in 0..5 {
            assert_eq!(f.get(x, y), x <= 1, "cell ({x}, {y})");
        }
    }
}

#[test]
fn select_2_lights_right_two_columns() {
    let f = render_select(2);
    for y in 0..5 {
        for x in 0..5 {
            assert_eq!(f.get(x, y), x >= 3, "cell ({x}, {y})");
        }
    }
}

#[test]
fn select_out_of_range_falls_back_to_centre() {
    let f = render_select(7);
    for y in 0..5 {
        for x in 0..5 {
            assert_eq!(f.get(x, y), x == 2, "cell ({x}, {y})");
        }
    }
}

#[test]
fn work_wedge_at_start_keeps_only_the_corner() {
    let f = render_timer(0, WORK_MILLIS, false, 0);
    for y in 0..5 {
        for x in 0..5 {
            assert_eq!(f.get(x, y), x + y == 0, "cell ({x}, {y})");
        }
    }
}

#[test]
fn work_wedge_at_duration_covers_the_grid() {
    let f = render_timer(1000, WORK_MILLIS, false, 1000 + WORK_MILLIS);
    assert_eq!(lit_count(&f), 25);
}

#[test]
fn work_wedge_half_way() {
    // duration 900: one step is 100; at 450 elapsed the progress is 4,
    // so a cell is lit exactly when x + y <= 3.
    let f = render_timer(0, 900, false, 450);
    for y in 0..5 {
        for x in 0..5 {
            assert_eq!(f.get(x, y), x + y <= 3, "cell ({x}, {y})");
        }
    }
}

#[test]
fn rest_wedge_starts_full_and_drains_to_the_corner() {
    let start = render_timer(0, 300_000, true, 0);
    assert_eq!(lit_count(&start), 25);
    let done = render_timer(0, 300_000, true, 300_000);
    for y in 0..5 {
        for x in 0..5 {
            assert_eq!(done.get(x, y), x + y == 0, "cell ({x}, {y})");
        }
    }
}

#[test]
fn zero_duration_counts_as_fully_elapsed() {
    let f = render_timer(0, 0, false, 0);
    assert_eq!(lit_count(&f), 25);
}

#[test]
fn clock_behind_timer_start_counts_as_zero_elapsed() {
    let f = render_timer(5000, WORK_MILLIS, false, 100);
    for y in 0..5 {
        for x in 0..5 {
            assert_eq!(f.get(x, y), x + y == 0, "cell ({x}, {y})");
        }
    }
}

fn viewer_state(blocks: &[Block], counter: u64) -> State {
    let mut times: heapless::Vec<Block, 100> = heapless::Vec::new();
    for b in blocks {
        times.push(*b).unwrap();
    }
    State { times, mode: Mode::Viewer(0), counter }
}

#[test]
fn viewer_empty_history_shows_only_the_scrollbar() {
    let s = viewer_state(&[], 3);
    let f = render_viewer(&s, 0);
    assert!(f.get(0, 0));
    assert_eq!(lit_count(&f), 1);
}

#[test]
fn viewer_scrollbar_column_follows_the_page() {
    let s = viewer_state(&[], 0);
    for sp in 0..=4u8 {
        let f = render_viewer(&s, sp);
        assert!(f.get(sp as usize, 0));
        assert_eq!(lit_count(&f), 1);
    }
}

#[test]
fn viewer_scroll_point_past_last_page_is_clamped() {
    let s = viewer_state(&[], 0);
    let f = render_viewer(&s, 7);
    assert!(f.get(4, 0));
    assert_eq!(lit_count(&f), 1);
}

#[test]
fn viewer_highlights_the_first_block_on_an_even_tick() {
    let work = Block { count: 5, kind: BlockKind::Other(0) };
    let rest = Block { count: 1, kind: BlockKind::Rest };
    // Page 0 enters the first block whole, so its in-page portion is 5
    // units; the highlighted run on tick 0 covers positions 5 through 10.
    let s = viewer_state(&[work, rest], 0);
    let f = render_viewer(&s, 0);
    let mut expected = vec![false; 25];
    expected[0] = true; // scrollbar
    for t in 5..=10usize {
        let y = (t - 1) / 5 + 1;
        let x = (t - 1) % 5;
        expected[y * 5 + x] = true;
    }
    assert_eq!(cells(&f), expected);
}

#[test]
fn viewer_animation_moves_with_the_counter() {
    let work = Block { count: 5, kind: BlockKind::Other(0) };
    let rest = Block { count: 1, kind: BlockKind::Rest };
    // On tick 1 the rest block is highlighted: positions 5 through 6.
    let s = viewer_state(&[work, rest], 1);
    let f = render_viewer(&s, 0);
    let mut expected = vec![false; 25];
    expected[0] = true; // scrollbar
    expected[1 * 5 + 4] = true; // position 5: cell (4, 1)
    expected[2 * 5 + 0] = true; // position 6: cell (0, 2)
    assert_eq!(cells(&f), expected);
    // The animation cycles with period 2 here.
    let again = render_viewer(&viewer_state(&[work, rest], 3), 0);
    assert_eq!(cells(&again), expected);
}

#[test]
fn viewer_page_beyond_history_shows_only_the_scrollbar() {
    let work = Block { count: 5, kind: BlockKind::Other(0) };
    let s = viewer_state(&[work], 0);
    let f = render_viewer(&s, 1);
    assert!(f.get(1, 0));
    assert_eq!(lit_count(&f), 1);
}

#[test]
fn render_dispatches_on_the_mode() {
    let menu = State { times: heapless::Vec::new(), mode: Mode::ModeSelect(2), counter: 0 };
    assert_eq!(cells(&menu.render(0)), cells(&render_select(2)));
    let timer = State {
        times: heapless::Vec::new(),
        mode: Mode::Timer { from_millis: 0, duration_millis: 900, reverse: false },
        counter: 0,
    };
    assert_eq!(cells(&timer.render(450)), cells(&render_timer(0, 900, false, 450)));
    let viewer = State { times: heapless::Vec::new(), mode: Mode::Viewer(2), counter: 0 };
    let viewer_frame = viewer.render(123);
    assert!(viewer_frame.get(2, 0));
    assert_eq!(lit_count(&viewer_frame), 1);
}

#[test]
fn rendering_the_same_state_twice_gives_identical_frames() {
    let work = Block { count: 5, kind: BlockKind::Other(0) };
    let rest = Block { count: 1, kind: BlockKind::Rest };
    let mut times: heapless::Vec<Block, 100> = heapless::Vec::new();
    times.push(work).unwrap();
    times.push(rest).unwrap();
    let s = State { times, mode: Mode::Viewer(0), counter: 5 };
    assert_eq!(cells(&s.render(77)), cells(&s.render(77)));
    let t = State {
        times: heapless::Vec::new(),
        mode: Mode::Timer { from_millis: 0, duration_millis: 900, reverse: true },
        counter: 0,
    };
    // The timer wedge reads the clock, so the reading is held fixed.
    assert_eq!(cells(&t.render(300)), cells(&t.render(300)));
}
