//! Rate limiting against a free-running tick counter.
//!
//! The counter has 64 bits and starts over at zero after its largest value.
//! A gate remembers the reading at which it last fired and fires again once
//! the counter has moved on by a full period, however often it has started
//! over in between.

use vstd::prelude::*;

verus! {

/// Ticks between two telemetry frames.
pub const FRAME_PERIOD: u64 = 10_000;

/// Ticks between two changes of the status light.
pub const LED_PERIOD: u64 = 20_000;

/// The reading of a counter that stood at `start` and has moved on by
/// `advance` ticks.
pub open spec fn reading_after(start: u64, advance: u64) -> u64 {
    ((start + advance) % 0x1_0000_0000_0000_0000) as u64
}

/// Ticks that the counter has moved on from the reading `last` to the
/// reading `now`, if it has started over at most once in between.
pub open spec fn elapsed(now: u64, last: u64) -> int {
    if now >= last {
        now - last
    } else {
        now - last + 0x1_0000_0000_0000_0000
    }
}

/// Whether a gate of the given period that last fired at `last` fires at
/// `now`.
pub open spec fn due(now: u64, last: u64, period: u64) -> bool {
    elapsed(now, last) >= period
}

/// Ticks from `last` to `now`.
pub fn ticks_since(now: u64, last: u64) -> (ticks: u64)
    ensures
        ticks == elapsed(now, last),
{
    now.wrapping_sub(last)
}

/// Whether a gate of the given period that last fired at `last` fires at
/// `now`.
pub fn is_due(now: u64, last: u64, period: u64) -> (fires: bool)
    ensures
        fires == due(now, last, period),
{
    ticks_since(now, last) >= period
}

/// What is measured is how far the counter has moved on since the last
/// firing, also where the counter has started over in between: there is a
/// new firing exactly when that distance has reached the period.
pub proof fn lemma_gate_counts_across_wrap(last: u64, advance: u64, period: u64)
    ensures
        elapsed(reading_after(last, advance), last) == advance,
        due(reading_after(last, advance), last, period) <==> advance >= period,
{
}

} // verus!
