//! Timers: a clock read to start one, a clock read to end it.

use vstd::prelude::*;

use super::recorders::Recorders;
use super::slot::Slot;
use super::switch::TimerSwitch;
use crate::duration::{max_nanos, Duration, NANOS_PER_SEC};

verus! {

/// `std::time::Instant`, a reading of the monotonic clock. Nothing is known of its value.
#[verifier::external_type_specification]
#[verifier::external_body]
pub struct ExInstant(std::time::Instant);

/// A timer that runs: the clock as it stood when the timer started, or `None` for a timer that
/// started without a clock read.
pub type TimerStart = Option<std::time::Instant>;

/// Calls `std::time::Instant::now`. The reading depends on the time alone, so nothing is claimed
/// of it. The call traps on a target without a clock: it is made only where the switch lets timers
/// read the clock.
#[allow(unused_variables)]
#[verifier::external_body]
fn read_clock(switch: &TimerSwitch) -> std::time::Instant
    requires
        switch.timing(),
{
    std::time::Instant::now()
}

/// Calls `std::time::Instant::elapsed` and gives the whole seconds since `start` and the
/// nanoseconds beyond them. The span depends on the time; what is claimed is that the nanoseconds
/// are fewer than a second's worth. The call does not fail: a span that would be negative is zero.
#[verifier::external_body]
fn read_elapsed(start: &std::time::Instant) -> (r: (u64, u32))
    ensures
        r.1 < NANOS_PER_SEC,
{
    let elapsed = start.elapsed();
    (elapsed.as_secs(), elapsed.subsec_nanos())
}

/// Whether `instant` is a reading of the clock, taken under `switch`.
pub closed spec fn clock_reading(switch: TimerSwitch, instant: std::time::Instant) -> bool {
    call_ensures(read_clock, (&switch,), instant)
}

/// Whether `t` is a reading of the time since `start`: whole seconds and the nanoseconds beyond
/// them.
pub closed spec fn elapsed_reading(start: std::time::Instant, t: (u64, u32)) -> bool {
    call_ensures(read_elapsed, (&start,), t)
}

/// Starts a timer. The clock is read only while the switch lets timers read it; where the build
/// counts starts, such a start is counted.
pub fn timer_start(switch: &TimerSwitch, rec: &mut Recorders) -> (r: TimerStart)
    requires
        switch.counting() ==> old(rec)@.total(Slot::TimerStarts) < u64::MAX,
    ensures
        r is Some <==> switch.timing(),
        r matches Some(instant) ==> clock_reading(*switch, instant),
        final(rec)@ == old(rec)@.started(*switch),
        r is Some <==> switch.enabled && !switch.build.no_timers && switch.build.has_clock,
        forall|slot: Slot| #[trigger]
            final(rec)@.total(slot) == old(rec)@.total(slot) + if slot == Slot::TimerStarts
                && r is Some && switch.build.counts_starts {
                1nat
            } else {
                0nat
            },
        final(rec)@.depth == old(rec)@.depth,
        final(rec)@.parents_open == old(rec)@.parents_open,
{
    if switch.build.no_timers || !switch.build.has_clock {
        return None;
    }
    if !switch.enabled {
        return None;
    }
    if switch.build.counts_starts {
        rec.add_count(Slot::TimerStarts, 1);
    }
    Some(read_clock(switch))
}

/// How long a timer has run: a reading of the time since it started. A timer that started without a clock read has run for no time.
pub fn timer_elapsed(start: TimerStart) -> (r: Duration)
    ensures
        start is None ==> r@ == 0,
        start matches Some(instant) ==> exists|t: (u64, u32)| #[trigger]
            elapsed_reading(instant, t) && r@ == t.0 * 1_000_000_000 + t.1,
        r@ <= max_nanos(),
{
    match start {
        Some(instant) => {
            let (secs, nanos): (u64, u32) = read_elapsed(&instant);
            assert(elapsed_reading(instant, (secs, nanos)));
            Duration::new(secs, nanos)
        },
        None => Duration::zero(),
    }
}

/// What counts as a reading is what the clock gives: nothing else passes for the time since a start
/// or for the start of a timer.
proof fn law_readings_come_from_the_clock(
    switch: TimerSwitch,
    instant: std::time::Instant,
    t: (u64, u32),
)
    ensures
        clock_reading(switch, instant) <==> call_ensures(read_clock, (&switch,), instant),
        elapsed_reading(instant, t) <==> call_ensures(read_elapsed, (&instant,), t),
        elapsed_reading(instant, t) ==> t.1 < 1_000_000_000,
{
}

} // verus!
