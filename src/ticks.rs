use vstd::prelude::*;

verus! {

/// Number of distinct values of the runtime's tick counter.
pub open spec fn tick_modulus() -> int {
    0x1_0000_0000
}

/// Ticks elapsed from `prev` to `now` on a counter that wraps at its width.
pub open spec fn ticks_between(prev: u32, now: u32) -> int {
    (now as int - prev as int) % tick_modulus()
}

/// Elapsed ticks between two readings of the wrapping tick counter.
pub fn tick_delta(prev: u32, now: u32) -> (delta: u32)
    ensures
        delta as int == ticks_between(prev, now),
        prev <= now ==> delta == now - prev,
{
    now.wrapping_sub(prev)
}

/// When `now` is reached from `prev` by advancing the counter `d` ticks,
/// wrapping past its largest value or not, the elapsed ticks are `d`.
pub proof fn lemma_delta_of_wrapped_successor(prev: u32, d: u32)
    ensures
        ticks_between(prev, ((prev as int + d as int) % tick_modulus()) as u32) == d as int,
{
}

} // verus!
