use vstd::prelude::*;

verus! {

/// Amount added to the counter, per update, while button A is held.
pub const BTN_A_STEP: i8 = 10;

/// Amount taken from the counter, per update, while button C is held.
pub const BTN_C_STEP: i8 = 16;

/// The two's-complement 8-bit value that the integer `x` wraps to.
pub open spec fn wrap_i8(x: int) -> i8 {
    let m = (x + 128) % 256;
    (m - 128) as i8
}

/// What one update adds to the counter before it is logged.
pub open spec fn button_adjustment(btn_a: bool, btn_c: bool) -> int {
    (if btn_a { BTN_A_STEP as int } else { 0 }) - (if btn_c { BTN_C_STEP as int } else { 0 })
}

/// The value that an update logs: the counter after the button adjustments.
pub open spec fn logged_value(counter: i8, btn_a: bool, btn_c: bool) -> i8 {
    wrap_i8(counter + button_adjustment(btn_a, btn_c))
}

/// The counter after a whole update: the logged value, plus one.
pub open spec fn updated_value(counter: i8, btn_a: bool, btn_c: bool) -> i8 {
    wrap_i8(logged_value(counter, btn_a, btn_c) + 1)
}

/// The counter after one update for each `(btn_a, btn_c)` sample, in order.
pub open spec fn counter_after(start: i8, presses: Seq<(bool, bool)>) -> i8
    decreases presses.len(),
{
    if presses.len() == 0 {
        start
    } else {
        let last = presses.last();
        updated_value(counter_after(start, presses.drop_last()), last.0, last.1)
    }
}

/// Net change of a run of updates: each adds its button adjustment and one.
pub open spec fn net_change(presses: Seq<(bool, bool)>) -> int
    decreases presses.len(),
{
    if presses.len() == 0 {
        0
    } else {
        let last = presses.last();
        net_change(presses.drop_last()) + button_adjustment(last.0, last.1) + 1
    }
}

proof fn lemma_wrap_identity(x: i8)
    ensures
        wrap_i8(x as int) == x,
{
}

proof fn lemma_wrap_absorbs(x: int, y: int)
    ensures
        wrap_i8(wrap_i8(x) + y) == wrap_i8(x + y),
{
    let q = (x + 128) / 256;
    let r = (x + 128) % 256;
    assert(x + 128 == 256 * q + r) by (nonlinear_arith)
        requires
            q == (x + 128) / 256,
            r == (x + 128) % 256,
    ;
    assert(wrap_i8(x) as int == r - 128);
    assert((r + y) % 256 == (x + 128 + y) % 256) by {
        vstd::arithmetic::div_mod::lemma_mod_multiples_vanish(q, r + y, 256);
    }
}

/// A run of updates moves the counter by its net change, under 8-bit
/// wrapping: +10 for each update with button A held, -16 for each with
/// button C held, and +1 for every update.
pub proof fn lemma_counter_net_effect(start: i8, presses: Seq<(bool, bool)>)
    ensures
        counter_after(start, presses) == wrap_i8(start + net_change(presses)),
    decreases presses.len(),
{
    if presses.len() == 0 {
        lemma_wrap_identity(start);
    } else {
        let rest = presses.drop_last();
        let last = presses.last();
        lemma_counter_net_effect(start, rest);
        let before = start + net_change(rest);
        lemma_wrap_absorbs(before, button_adjustment(last.0, last.1));
        lemma_wrap_absorbs(before + button_adjustment(last.0, last.1), 1);
    }
}

/// The counter plus one, wrapping from 127 to -128.
pub fn increment(current: i8) -> (r: i8)
    ensures
        r == wrap_i8(current + 1),
{
    current.wrapping_add(1)
}

/// What one counter update reports and leaves behind.
#[derive(Clone, Copy, Debug, PartialEq, Eq)]
pub struct CounterUpdate {
    /// The value written to the log.
    pub logged: i8,
    /// The counter after the update.
    pub next: i8,
}

/// One counter update: add 10 if button A is held, subtract 16 if button C
/// is held (both wrapping), log that value, then increment by one.
pub fn update_counter(counter: i8, btn_a: bool, btn_c: bool) -> (u: CounterUpdate)
    ensures
        u.logged == logged_value(counter, btn_a, btn_c),
        u.next == updated_value(counter, btn_a, btn_c),
{
    let mut value: i8 = counter;
    if btn_a {
        value = value.wrapping_add(BTN_A_STEP);
    }
    if btn_c {
        value = value.wrapping_sub(BTN_C_STEP);
    }
    proof {
        lemma_wrap_identity(counter);
        lemma_wrap_absorbs(counter as int, if btn_a { BTN_A_STEP as int } else { 0 });
        lemma_wrap_absorbs(
            counter as int + (if btn_a { BTN_A_STEP as int } else { 0 }),
            if btn_c { -(BTN_C_STEP as int) } else { 0 },
        );
    }
    let next = increment(value);
    CounterUpdate { logged: value, next }
}

} // verus!
