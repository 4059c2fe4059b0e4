use vstd::prelude::*;

verus! {

/// One sample of the three buttons; `true` means pressed.
#[derive(Clone, Copy, Debug, PartialEq, Eq, Structural)]
pub struct ButtonStates {
    pub btn_a: bool,
    pub btn_b: bool,
    pub btn_c: bool,
}

impl ButtonStates {
    /// Reads the buttons from their line levels. The buttons are wired
    /// active-low: a button is pressed when its line is low.
    pub fn from_line_levels(a_high: bool, b_high: bool, c_high: bool) -> (s: ButtonStates)
        ensures
            s.btn_a == !a_high,
            s.btn_b == !b_high,
            s.btn_c == !c_high,
    {
        ButtonStates { btn_a: !a_high, btn_b: !b_high, btn_c: !c_high }
    }

    /// No button pressed.
    pub fn released() -> (s: ButtonStates)
        ensures
            !s.btn_a && !s.btn_b && !s.btn_c,
    {
        ButtonStates { btn_a: false, btn_b: false, btn_c: false }
    }
}

/// Remembers the button states last shown, so that the indicators are only
/// redrawn when a button has changed.
#[derive(Clone, Copy, Debug, PartialEq, Eq)]
pub struct StatusTracker {
    /// The states the indicators show now.
    pub shown: ButtonStates,
}

impl StatusTracker {
    /// A tracker whose indicators show every button released.
    pub fn new() -> (t: StatusTracker)
        ensures
            !t.shown.btn_a && !t.shown.btn_b && !t.shown.btn_c,
    {
        StatusTracker { shown: ButtonStates::released() }
    }

    /// Takes a new sample. When any button differs from what is shown, the
    /// sample becomes what is shown and is returned, to be drawn; otherwise
    /// nothing is to be drawn.
    pub fn refresh(&mut self, now: ButtonStates) -> (redraw: Option<ButtonStates>)
        ensures
            now != old(self).shown ==> redraw == Some(now),
            now == old(self).shown ==> redraw.is_none(),
            final(self).shown == now,
    {
        if now.btn_a != self.shown.btn_a || now.btn_b != self.shown.btn_b
            || now.btn_c != self.shown.btn_c {
            self.shown = now;
            Some(now)
        } else {
            None
        }
    }
}

} // verus!
