use vstd::prelude::*;

verus! {

/// Milliseconds per second, the unit in which thresholds are given.
pub const MILLIS_PER_SEC: u32 = 1000;

/// Whether `acc` ticks at `rate_hz` ticks per second exceed `threshold_ms`
/// milliseconds, that is `acc / rate_hz > threshold_ms / 1000`.
pub open spec fn exceeds(acc: int, threshold_ms: int, rate_hz: int) -> bool {
    acc * MILLIS_PER_SEC > threshold_ms * rate_hz
}

/// A software timer that accumulates elapsed ticks and fires once the time
/// they stand for exceeds its threshold, then starts again from zero.
#[derive(Clone, Copy, Debug, PartialEq, Eq)]
pub struct PeriodicTimer {
    /// Ticks accumulated since the timer last fired.
    pub acc_ticks: u64,
    /// The period, in milliseconds.
    pub threshold_ms: u32,
    /// Ticks per second of the clock that feeds the timer.
    pub tick_rate_hz: u32,
}

impl PeriodicTimer {
    /// The accumulator stays within the threshold between slices.
    pub open spec fn wf(&self) -> bool {
        !exceeds(self.acc_ticks as int, self.threshold_ms as int, self.tick_rate_hz as int)
    }

    /// A timer with nothing accumulated.
    pub fn new(threshold_ms: u32, tick_rate_hz: u32) -> (t: PeriodicTimer)
        ensures
            t.acc_ticks == 0,
            t.threshold_ms == threshold_ms,
            t.tick_rate_hz == tick_rate_hz,
            t.wf(),
    {
        PeriodicTimer { acc_ticks: 0, threshold_ms, tick_rate_hz }
    }

    /// Adds one slice of `delta` elapsed ticks. When the total exceeds the
    /// threshold the timer fires and its accumulator goes back to zero;
    /// otherwise it keeps the total. Either way it never holds more than
    /// its threshold once the slice is taken in.
    pub fn advance(&mut self, delta: u32) -> (fired: bool)
        requires
            old(self).wf(),
        ensures
            fired == exceeds(
                old(self).acc_ticks + delta,
                old(self).threshold_ms as int,
                old(self).tick_rate_hz as int,
            ),
            fired ==> final(self).acc_ticks == 0,
            !fired ==> final(self).acc_ticks == old(self).acc_ticks + delta,
            final(self).threshold_ms == old(self).threshold_ms,
            final(self).tick_rate_hz == old(self).tick_rate_hz,
            final(self).wf(),
    {
        let thr = self.threshold_ms as u128;
        let rate = self.tick_rate_hz as u128;
        proof {
            assert(thr * rate <= 0xffff_ffff * 0xffff_ffffu128) by (nonlinear_arith)
                requires
                    thr <= 0xffff_ffff,
                    rate <= 0xffff_ffff,
            ;
        }
        let limit: u128 = thr * rate;
        let total: u64 = self.acc_ticks + delta as u64;
        assert((total as u128) * 1000 <= 0x1_0000_0000_0000_0000_0000u128);
        let fired = (total as u128) * (MILLIS_PER_SEC as u128) > limit;
        if fired {
            self.acc_ticks = 0;
        } else {
            self.acc_ticks = total;
        }
        fired
    }
}

/// Under steady delivery of `delta` ticks per slice, a timer never goes
/// more than `threshold_ms * rate_hz / (1000 * delta) + 1` slices without
/// firing: that many slices together exceed the threshold from any start.
pub proof fn lemma_steady_slices_fire(threshold_ms: u32, rate_hz: u32, delta: u32, start: nat)
    requires
        delta > 0,
    ensures
        exceeds(
            start + ((threshold_ms as int * rate_hz as int) / (MILLIS_PER_SEC as int * delta as int)
                + 1) * delta,
            threshold_ms as int,
            rate_hz as int,
        ),
{
    let lim = threshold_ms as int * rate_hz as int;
    let den = MILLIS_PER_SEC as int * delta as int;
    let q = lim / den;
    assert(lim < (q + 1) * den) by (nonlinear_arith)
        requires
            q == lim / den,
            den > 0,
    ;
    assert(start * 1000 + (q + 1) * delta * 1000 > lim) by (nonlinear_arith)
        requires
            lim < (q + 1) * den,
            den == 1000 * delta,
            start >= 0,
    ;
    assert((start + (q + 1) * delta) * 1000 == start * 1000 + (q + 1) * delta * 1000)
        by (nonlinear_arith);
}

} // verus!
