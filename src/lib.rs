//! Decision logic of a button-polling display demo: wraparound-safe tick
//! accounting, threshold-gated periodic timers, an 8-bit wrapping counter
//! driven by buttons, change tracking for button indicators, and the layout
//! of what is drawn on the panel.

pub mod buttons;
pub mod counter;
pub mod layout;
pub mod poll;
pub mod ticks;
pub mod timer;

pub use buttons::{ButtonStates, StatusTracker};
pub use counter::{
    increment, lemma_counter_net_effect, update_counter, CounterUpdate, BTN_A_STEP, BTN_C_STEP,
};
pub use layout::{
    button_indicator, button_panel, welcome_screen, ButtonPanel, Indicator, PanelColor, Point,
    Rect, Size, WelcomeScreen, BORDER_WIDTH, GREETING_DROP, INDICATOR_HEIGHT, INDICATOR_WIDTH,
    LABEL_DROP, PANEL_HEIGHT, PANEL_WIDTH, SLOT_PITCH,
};
pub use poll::{
    LogLine, PollLoop, StepActions, COUNTER_PERIOD_MS, POLL_INTERVAL_MS, STATUS_PERIOD_MS,
};
pub use ticks::{lemma_delta_of_wrapped_successor, tick_delta};
pub use timer::{lemma_steady_slices_fire, PeriodicTimer, MILLIS_PER_SEC};
