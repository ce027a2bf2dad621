use pomodoro_grid::input::{edge_latch, effective_buttons, PinLevel};

#[test]
fn press_edge_reads_low() {
    assert_eq!(edge_latch(PinLevel::High, PinLevel::Low), PinLevel::Low);
}

#[test]
fn held_button_reads_released_on_the_second_tick() {
    assert_eq!(edge_latch(PinLevel::Low, PinLevel::Low), PinLevel::High);
}

#[test]
fn release_edge_reads_high() {
    assert_eq!(edge_latch(PinLevel::Low, PinLevel::High), PinLevel::High);
}

#[test]
fn idle_button_reads_high() {
    assert_eq!(edge_latch(PinLevel::High, PinLevel::High), PinLevel::High);
}

#[test]
fn only_the_press_edge_asserts_a_button() {
    // Button A is pressed on this tick; button B is held from before.
    let input = effective_buttons(PinLevel::High, PinLevel::Low, PinLevel::Low, PinLevel::Low);
    assert!(input.a);
    assert!(!input.b);
}

#[test]
fn button_low_before_the_first_sample_reads_released() {
    // The loop starts with both previous levels taken as low: a button that
    // is already held at the first sample does not assert.
    let input = effective_buttons(PinLevel::Low, PinLevel::Low, PinLevel::Low, PinLevel::Low);
    assert!(!input.a);
    assert!(!input.b);
}

#[test]
fn simulated_hold_asserts_exactly_once() {
    // Raw samples of button A over six ticks: released, then held for four
    // ticks, then released again. The edge latch asserts only on the tick
    // the level first falls.
    let raw = [
        PinLevel::High,
        PinLevel::Low,
        PinLevel::Low,
        PinLevel::Low,
        PinLevel::Low,
        PinLevel::High,
    ];
    let mut prev = PinLevel::Low;
    let mut asserted_ticks = Vec::new();
    for (i, &r) in raw.iter().enumerate() {
        let input = effective_buttons(prev, PinLevel::High, r, PinLevel::High);
        if input.a {
            asserted_ticks.push(i);
        }
        prev = r;
    }
    assert_eq!(asserted_ticks, vec![1]);
}
