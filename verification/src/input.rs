//! Button sampling: raw pin levels and the edge latch that turns them into
//! single-tick press events.

use vstd::prelude::*;

verus! {

/// The sampled level of a push-button pin. The buttons are wired active-low:
/// `Low` is a held button, `High` a released one.
#[derive(Clone, Copy, PartialEq, Eq, Structural, Debug)]
pub enum PinLevel {
    Low,
    High,
}

/// The two buttons' effective state on one tick, after the edge latch:
/// a flag is true only on the tick the button became pressed.
#[derive(Clone, Copy, PartialEq, Eq, Structural, Debug)]
pub struct Buttons {
    pub a: bool,
    pub b: bool,
}

/// The effective level of one button: the raw level counts only on the tick
/// where it differs from the previous tick's observed level; an unchanged
/// level reads as `High` (released). Holding a button therefore does not
/// retrigger it, and a button already low before the first sample reads as
/// released from the first tick on.
pub open spec fn spec_edge_latch(prev: PinLevel, raw: PinLevel) -> PinLevel {
    if raw != prev {
        raw
    } else {
        PinLevel::High
    }
}

/// Whether an effective level counts as an asserted (just-pressed) button
/// under the active-low convention.
pub open spec fn spec_asserted(effective: PinLevel) -> bool {
    effective is Low
}

/// Latches one button's raw level against the previous tick's observed level.
pub fn edge_latch(prev: PinLevel, raw: PinLevel) -> (effective: PinLevel)
    ensures
        effective == spec_edge_latch(prev, raw),
{
    if raw != prev {
        raw
    } else {
        PinLevel::High
    }
}

/// Debounces both buttons for one tick: a button is asserted exactly when its
/// level just fell to `Low`.
pub fn effective_buttons(prev_a: PinLevel, prev_b: PinLevel, raw_a: PinLevel, raw_b: PinLevel) -> (input: Buttons)
    ensures
        input.a == spec_asserted(spec_edge_latch(prev_a, raw_a)),
        input.b == spec_asserted(spec_edge_latch(prev_b, raw_b)),
{
    Buttons {
        a: matches!(edge_latch(prev_a, raw_a), PinLevel::Low),
        b: matches!(edge_latch(prev_b, raw_b), PinLevel::Low),
    }
}

} // verus!
