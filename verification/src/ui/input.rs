//! UI input events.

use vstd::prelude::*;

verus! {

/// A normalized UI input event, whatever device produced it.
#[derive(Debug, Clone, Copy, PartialEq, Eq, Structural)]
pub enum UiInputEvent {
    Up,
    Down,
    Left,
    Right,
    Open,
    Back,
    PagePrev,
    PageNext,
    /// A tap on key `col` of keyboard row `row`.
    KeyboardTap { row: usize, col: usize },
    KeyboardSubmit,
    Quit,
}

} // verus!
