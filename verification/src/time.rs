//! Conversions between hardware timer ticks and nanoseconds, and the
//! computation of the one-shot timer's initial count.

use vstd::prelude::*;

verus! {

/// Nanoseconds in one second.
pub const NANOS_PER_SEC: u64 = 1_000_000_000;

/// Frequency of the platform timer, in ticks per second.
pub const TIMER_FREQUENCY: u64 = 100_000_000;

/// Nanoseconds in one hardware tick.
pub const NANOS_PER_TICK: u64 = NANOS_PER_SEC / TIMER_FREQUENCY;

/// Converts hardware ticks to nanoseconds.
pub fn ticks_to_nanos(ticks: u64) -> (nanos: u64)
    requires
        ticks * NANOS_PER_TICK <= u64::MAX,
    ensures
        nanos == ticks * NANOS_PER_TICK,
{
    ticks * NANOS_PER_TICK
}

/// Converts nanoseconds to hardware ticks.
pub fn nanos_to_ticks(nanos: u64) -> (ticks: u64)
    ensures
        ticks == nanos / NANOS_PER_TICK,
{
    nanos / NANOS_PER_TICK
}

/// Initial count for the one-shot timer: the distance from `ticks_now` to the
/// deadline (given in nanoseconds), rounded up to a multiple of 4 as the
/// timer configuration register demands.
pub fn timer_init_value(deadline_ns: u64, ticks_now: u64) -> (init: u64)
    requires
        ticks_now <= deadline_ns / NANOS_PER_TICK,
        deadline_ns / NANOS_PER_TICK - ticks_now + 3 <= u64::MAX,
    ensures
        init % 4 == 0,
        init >= deadline_ns / NANOS_PER_TICK - ticks_now,
        init < deadline_ns / NANOS_PER_TICK - ticks_now + 4,
{
    let ticks_deadline = nanos_to_ticks(deadline_ns);
    let init_value = ticks_deadline - ticks_now;
    let raised = init_value + 3;
    let rounded = raised & !3u64;
    proof {
        assert((raised & !3u64) % 4 == 0 && raised & !3u64 <= raised && raised < (raised
            & !3u64) + 4) by (bit_vector);
    }
    rounded
}

} // verus!
