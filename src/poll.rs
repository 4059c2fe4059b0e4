use vstd::prelude::*;
use crate::buttons::{ButtonStates, StatusTracker};
use crate::counter::{logged_value, update_counter, updated_value};
use crate::ticks::{tick_delta, ticks_between};
use crate::timer::{exceeds, PeriodicTimer};

verus! {

/// Period of the counter update, in milliseconds.
pub const COUNTER_PERIOD_MS: u32 = 1000;

/// Period of the button indicator check, in milliseconds.
pub const STATUS_PERIOD_MS: u32 = 25;

/// Pause between two iterations of the loop, in milliseconds.
pub const POLL_INTERVAL_MS: u32 = 10;

/// A line for the log, written by each counter update.
#[derive(Clone, Copy, Debug, PartialEq, Eq, Structural)]
pub struct LogLine {
    /// The counter after the button adjustments, before the increment.
    pub counter: i8,
    /// Whether button A was held.
    pub btn_a_pressed: bool,
}

/// What one iteration asks its caller to do.
#[derive(Clone, Copy, Debug, PartialEq, Eq)]
pub struct StepActions {
    /// A line to write to the log.
    pub log: Option<LogLine>,
    /// Button states to draw on the indicators.
    pub redraw: Option<ButtonStates>,
}

/// The state that the polling loop carries from one iteration to the next.
#[derive(Clone, Copy, Debug, PartialEq, Eq)]
pub struct PollLoop {
    /// The tick count read by the previous iteration.
    pub prev_ticks: u32,
    /// The button-driven counter.
    pub counter: i8,
    /// Gates the counter update.
    pub counter_timer: PeriodicTimer,
    /// Gates the indicator check.
    pub status_timer: PeriodicTimer,
    /// What the indicators show.
    pub status: StatusTracker,
    /// Whether the indicator check runs at all.
    pub status_redraw_enabled: bool,
}

impl PollLoop {
    /// Both timers keep their periods and a common clock, within threshold.
    pub open spec fn wf(&self) -> bool {
        &&& self.counter_timer.wf()
        &&& self.status_timer.wf()
        &&& self.counter_timer.threshold_ms == COUNTER_PERIOD_MS
        &&& self.status_timer.threshold_ms == STATUS_PERIOD_MS
        &&& self.status_timer.tick_rate_hz == self.counter_timer.tick_rate_hz
    }

    /// Ticks per second of the clock the loop reads.
    pub open spec fn tick_rate(&self) -> int {
        self.counter_timer.tick_rate_hz as int
    }

    /// The state before the first iteration: tick zero, counter zero,
    /// nothing accumulated, every indicator showing released.
    pub fn new(tick_rate_hz: u32, status_redraw_enabled: bool) -> (l: PollLoop)
        ensures
            l.wf(),
            l.prev_ticks == 0,
            l.counter == 0,
            l.counter_timer.acc_ticks == 0,
            l.status_timer.acc_ticks == 0,
            l.tick_rate() == tick_rate_hz,
            !l.status.shown.btn_a && !l.status.shown.btn_b && !l.status.shown.btn_c,
            l.status_redraw_enabled == status_redraw_enabled,
    {
        PollLoop {
            prev_ticks: 0,
            counter: 0,
            counter_timer: PeriodicTimer::new(COUNTER_PERIOD_MS, tick_rate_hz),
            status_timer: PeriodicTimer::new(STATUS_PERIOD_MS, tick_rate_hz),
            status: StatusTracker::new(),
            status_redraw_enabled,
        }
    }

    /// One iteration, given the tick count just read and the buttons just
    /// sampled. The ticks elapsed since the previous reading go to both
    /// timers. When the counter timer fires, the counter takes its update
    /// and a log line is returned. When the indicator check is enabled and
    /// its timer fires, changed button states are returned for redrawing.
    pub fn step(&mut self, now_ticks: u32, buttons: ButtonStates) -> (act: StepActions)
        requires
            old(self).wf(),
        ensures
            final(self).wf(),
            final(self).tick_rate() == old(self).tick_rate(),
            final(self).status_redraw_enabled == old(self).status_redraw_enabled,
            final(self).prev_ticks == now_ticks,
            ({
                let delta = ticks_between(old(self).prev_ticks, now_ticks);
                let fires = exceeds(
                    old(self).counter_timer.acc_ticks + delta,
                    COUNTER_PERIOD_MS as int,
                    old(self).tick_rate(),
                );
                &&& fires ==> final(self).counter_timer.acc_ticks == 0
                &&& !fires ==> final(self).counter_timer.acc_ticks
                    == old(self).counter_timer.acc_ticks + delta
                &&& fires ==> act.log == Some(
                    LogLine {
                        counter: logged_value(old(self).counter, buttons.btn_a, buttons.btn_c),
                        btn_a_pressed: buttons.btn_a,
                    },
                )
                &&& fires ==> final(self).counter == updated_value(
                    old(self).counter,
                    buttons.btn_a,
                    buttons.btn_c,
                )
                &&& !fires ==> act.log.is_none() && final(self).counter == old(self).counter
            }),
            !old(self).status_redraw_enabled ==> act.redraw.is_none() && final(self).status
                == old(self).status && final(self).status_timer == old(self).status_timer,
            ({
                let delta = ticks_between(old(self).prev_ticks, now_ticks);
                let checks = old(self).status_redraw_enabled && exceeds(
                    old(self).status_timer.acc_ticks + delta,
                    STATUS_PERIOD_MS as int,
                    old(self).tick_rate(),
                );
                &&& old(self).status_redraw_enabled && !checks ==> act.redraw.is_none()
                    && final(self).status == old(self).status
                    && final(self).status_timer.acc_ticks == old(self).status_timer.acc_ticks
                    + delta
                &&& checks ==> final(self).status_timer.acc_ticks == 0
                    && final(self).status.shown == buttons
                &&& checks && buttons != old(self).status.shown ==> act.redraw == Some(buttons)
                &&& checks && buttons == old(self).status.shown ==> act.redraw.is_none()
            }),
    {
        let delta = tick_delta(self.prev_ticks, now_ticks);
        self.prev_ticks = now_ticks;
        let mut redraw: Option<ButtonStates> = None;
        if self.status_redraw_enabled {
            if self.status_timer.advance(delta) {
                redraw = self.status.refresh(buttons);
            }
        }
        let mut log: Option<LogLine> = None;
        if self.counter_timer.advance(delta) {
            let u = update_counter(self.counter, buttons.btn_a, buttons.btn_c);
            log = Some(LogLine { counter: u.logged, btn_a_pressed: buttons.btn_a });
            self.counter = u.next;
        }
        StepActions { log, redraw }
    }
}

} // verus!
