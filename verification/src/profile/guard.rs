//! Guards: recordings that are made when a region of the compiler is left.

use vstd::prelude::*;

use super::clock::{clock_reading, timer_elapsed, timer_start, TimerStart};
use super::record::post_time_and_count;
use super::recorders::{RecorderState, Recorders};
use super::slot::Slot;
use super::switch::TimerSwitch;
use crate::duration::Duration;

verus! {

impl RecorderState {
    /// What an entry into the staged function posts: a nested entry where another one is on the
    /// stack, an entry outside any parent where no parent interval is open.
    pub open spec fn entry_posting(self) -> Map<Slot, nat> {
        let nested: Map<Slot, nat> = if self.depth > 0 {
            map![Slot::NestedEntries => 1]
        } else {
            Map::empty()
        };
        if self.parents_open == 0 {
            nested.insert(Slot::EntriesOutsideParent, 1)
        } else {
            nested
        }
    }

    /// The state after an entry into the staged function.
    pub open spec fn entered(self, switch: TimerSwitch) -> RecorderState {
        RecorderState {
            depth: self.depth + 1,
            ..self.post(switch, self.entry_posting())
        }.started(switch)
    }

    /// The state after the innermost entry is off the stack.
    pub open spec fn left(self) -> RecorderState {
        RecorderState {
            depth: if self.depth > 0 {
                (self.depth - 1) as nat
            } else {
                0
            },
            ..self
        }
    }

    /// The state after a parent interval opens.
    pub open spec fn parent_opened(self) -> RecorderState {
        RecorderState { parents_open: self.parents_open + 1, ..self }
    }

    /// The state after a parent interval closes.
    pub open spec fn parent_closed(self) -> RecorderState {
        RecorderState {
            parents_open: if self.parents_open > 0 {
                (self.parents_open - 1) as nat
            } else {
                0
            },
            ..self
        }
    }
}

/// What leaving the staged function after `elapsed` nanoseconds posts.
pub open spec fn in_function_posting(elapsed: nat) -> Map<Slot, nat> {
    map![Slot::InFunction => elapsed]
}

/// What a statement that took `elapsed` nanoseconds posts.
pub open spec fn statement_posting(elapsed: nat) -> Map<Slot, nat> {
    map![Slot::ProcessAccumulated => elapsed, Slot::Statements => 1]
}

/// What a legacy reactive statement that took `elapsed` nanoseconds posts.
pub open spec fn reactive_posting(elapsed: nat) -> Map<Slot, nat> {
    map![Slot::ReactiveStmt => elapsed, Slot::ReactiveCalls => 1]
}

/// Whether closing a guard makes `before` into `after`: `posting` is posted where there is room
/// for it, nothing is posted where there is none, and `ok` tells the two apart.
pub open spec fn posted_if_room(
    before: RecorderState,
    after: RecorderState,
    switch: TimerSwitch,
    posting: Map<Slot, nat>,
    ok: bool,
) -> bool {
    &&& ok == before.admits(switch, posting)
    &&& after == if ok {
        before.post(switch, posting)
    } else {
        before
    }
}

/// Tracks how deep the staged function is on the stack, so that a nested entry is counted rather
/// than inferred.
#[derive(Debug)]
pub struct EntryGuard(TimerStart);

impl EntryGuard {
    /// The timer that runs since the entry.
    pub closed spec fn start(self) -> TimerStart {
        self.0
    }

    /// Enters the staged function.
    pub fn new(switch: &TimerSwitch, rec: &mut Recorders) -> (r: EntryGuard)
        requires
            old(rec)@.depth < u64::MAX,
            old(rec)@.admits(*switch, old(rec)@.entry_posting()),
            switch.counting() ==> old(rec)@.total(Slot::TimerStarts) < u64::MAX,
        ensures
            r.start() is Some <==> switch.timing(),
            r.start() matches Some(instant) ==> clock_reading(*switch, instant),
            final(rec)@ == old(rec)@.entered(*switch),
            r.start() is Some <==> switch.enabled && !switch.build.no_timers
                && switch.build.has_clock,
            forall|slot: Slot| #[trigger]
                final(rec)@.total(slot) == old(rec)@.total(slot) + if !switch.enabled
                    || switch.build.no_timers {
                    0nat
                } else {
                    match slot {
                        Slot::NestedEntries if old(rec)@.depth > 0 => 1nat,
                        Slot::EntriesOutsideParent if old(rec)@.parents_open == 0 => 1nat,
                        Slot::TimerStarts if switch.build.has_clock
                            && switch.build.counts_starts => 1nat,
                        _ => 0nat,
                    }
                },
            final(rec)@.depth == old(rec)@.depth + 1,
            final(rec)@.parents_open == old(rec)@.parents_open,
    {
        let ghost posting = rec@.entry_posting();
        assert(rec@.depth > 0 ==> posting.dom().contains(Slot::NestedEntries));
        assert(rec@.parents_open == 0 ==> posting.dom().contains(Slot::EntriesOutsideParent));
        if switch.is_recording() {
            if rec.depth() > 0 {
                rec.add_count(Slot::NestedEntries, 1);
            }
            if rec.parents_open() == 0 {
                rec.add_count(Slot::EntriesOutsideParent, 1);
            }
        }
        rec.set_depth(rec.depth() + 1);
        assert(rec@ == (RecorderState {
            depth: old(rec)@.depth + 1,
            ..old(rec)@.post(*switch, posting)
        }));
        EntryGuard(timer_start(switch, rec))
    }

    /// Leaves the staged function and records how long it was entered for. Gives `false`, with
    /// nothing recorded, where the recorded time would exceed the longest span.
    pub fn close(self, switch: &TimerSwitch, rec: &mut Recorders) -> (ok: bool)
        ensures
            !switch.recording() ==> ok && final(rec)@ == old(rec)@.left(),
            switch.recording() ==> exists|d: Duration| #[trigger]
                call_ensures(timer_elapsed, (self.start(),), d) && posted_if_room(
                    old(rec)@.left(),
                    final(rec)@,
                    *switch,
                    in_function_posting(d@),
                    ok,
                ),
            self.start() is None ==> ok && final(rec)@ == old(rec)@.left().post(
                *switch,
                in_function_posting(0),
            ),
            !switch.enabled || switch.build.no_timers ==> ok && forall|slot: Slot| #[trigger]
                final(rec)@.total(slot) == old(rec)@.total(slot),
            switch.enabled && !switch.build.no_timers ==> exists|d: Duration| #[trigger]
                call_ensures(timer_elapsed, (self.start(),), d) && (ok <==> old(rec)@.total(
                    Slot::InFunction,
                ) + d@ <= u64::MAX * 1_000_000_000 + 999_999_999) && (
                    forall|slot: Slot| #[trigger]
                        final(rec)@.total(slot) == old(rec)@.total(slot) + if !ok || !switch.enabled
                            || switch.build.no_timers {
                            0nat
                        } else {
                            match slot {
                                Slot::InFunction => d@,
                                _ => 0nat,
                            }
                        }),
            final(rec)@.depth == if old(rec)@.depth > 0 {
                old(rec)@.depth - 1
            } else {
                0
            },
            final(rec)@.parents_open == old(rec)@.parents_open,
    {
        if !switch.is_recording() {
            rec.set_depth(rec.depth().saturating_sub(1));
            return true;
        }
        let elapsed = timer_elapsed(self.0);
        leave_entry(switch, rec, elapsed)
    }
}

/// Leaves the staged function after `elapsed`. Gives `false`, with nothing recorded, where the
/// recorded time would exceed the longest span.
pub fn leave_entry(switch: &TimerSwitch, rec: &mut Recorders, elapsed: Duration) -> (ok: bool)
    ensures
        posted_if_room(
            old(rec)@.left(),
            final(rec)@,
            *switch,
            in_function_posting(elapsed@),
            ok,
        ),
        elapsed@ == 0 ==> ok,
        ok <==> (switch.enabled && !switch.build.no_timers ==> old(rec)@.total(Slot::InFunction)
            + elapsed@ <= u64::MAX * 1_000_000_000 + 999_999_999),
        forall|slot: Slot| #[trigger]
            final(rec)@.total(slot) == old(rec)@.total(slot) + if !ok || !switch.enabled
                || switch.build.no_timers {
                0nat
            } else {
                match slot {
                    Slot::InFunction => elapsed@,
                    _ => 0nat,
                }
            },
        final(rec)@.depth == if old(rec)@.depth > 0 {
            old(rec)@.depth - 1
        } else {
            0
        },
        final(rec)@.parents_open == old(rec)@.parents_open,
{
    rec.set_depth(rec.depth().saturating_sub(1));
    if !switch.is_recording() {
        return true;
    }
    assert(in_function_posting(elapsed@).dom().contains(Slot::InFunction));
    if !rec.has_room_for_time(Slot::InFunction, elapsed) {
        return false;
    }
    rec.add_time(Slot::InFunction, elapsed);
    true
}

/// Marks the interval that a parent timer covers, so that an entry can tell whether it is inside
/// one.
#[derive(Debug)]
pub struct ParentScope;

impl ParentScope {
    /// Opens a parent interval.
    pub fn new(rec: &mut Recorders) -> (r: ParentScope)
        requires
            old(rec)@.parents_open < u64::MAX,
        ensures
            final(rec)@ == old(rec)@.parent_opened(),
            forall|slot: Slot| #[trigger] final(rec)@.total(slot) == old(rec)@.total(slot),
            final(rec)@.depth == old(rec)@.depth,
            final(rec)@.parents_open == old(rec)@.parents_open + 1,
    {
        rec.set_parents_open(rec.parents_open() + 1);
        ParentScope
    }

    /// Closes a parent interval.
    pub fn close(self, rec: &mut Recorders)
        ensures
            final(rec)@ == old(rec)@.parent_closed(),
            forall|slot: Slot| #[trigger] final(rec)@.total(slot) == old(rec)@.total(slot),
            final(rec)@.depth == old(rec)@.depth,
            final(rec)@.parents_open == if old(rec)@.parents_open > 0 {
                old(rec)@.parents_open - 1
            } else {
                0
            },
    {
        rec.set_parents_open(rec.parents_open().saturating_sub(1));
    }
}

/// Records a statement when the statement processor is left, whichever way it is left.
#[derive(Debug)]
pub struct ProcessAccumulatedGuard(pub TimerStart);

impl ProcessAccumulatedGuard {
    /// Records the statement. Gives `false`, with nothing recorded, where the recorded time would
    /// exceed the longest span.
    pub fn close(self, switch: &TimerSwitch, rec: &mut Recorders) -> (ok: bool)
        requires
            switch.recording() ==> old(rec)@.total(Slot::Statements) < u64::MAX,
        ensures
            !switch.recording() ==> ok && final(rec)@ == old(rec)@,
            switch.recording() ==> exists|d: Duration| #[trigger]
                call_ensures(timer_elapsed, (self.0,), d) && posted_if_room(
                    old(rec)@,
                    final(rec)@,
                    *switch,
                    statement_posting(d@),
                    ok,
                ),
            self.0 is None ==> ok && final(rec)@ == old(rec)@.post(
                *switch,
                statement_posting(0),
            ),
            !switch.enabled || switch.build.no_timers ==> ok && forall|slot: Slot| #[trigger]
                final(rec)@.total(slot) == old(rec)@.total(slot),
            switch.enabled && !switch.build.no_timers ==> exists|d: Duration| #[trigger]
                call_ensures(timer_elapsed, (self.0,), d) && (ok <==> old(rec)@.total(
                    Slot::ProcessAccumulated,
                ) + d@ <= u64::MAX * 1_000_000_000 + 999_999_999) && (
                    forall|slot: Slot| #[trigger]
                        final(rec)@.total(slot) == old(rec)@.total(slot) + if !ok || !switch.enabled
                            || switch.build.no_timers {
                            0nat
                        } else {
                            match slot {
                                Slot::ProcessAccumulated => d@,
                                Slot::Statements => 1nat,
                                _ => 0nat,
                            }
                        }),
            final(rec)@.depth == old(rec)@.depth,
            final(rec)@.parents_open == old(rec)@.parents_open,
    {
        if !switch.is_recording() {
            return true;
        }
        let elapsed = timer_elapsed(self.0);
        record_statement(switch, rec, elapsed)
    }
}

/// Records a statement that took `elapsed`. Gives `false`, with nothing recorded, where the
/// recorded time would exceed the longest span.
pub fn record_statement(switch: &TimerSwitch, rec: &mut Recorders, elapsed: Duration) -> (ok: bool)
    requires
        switch.recording() ==> old(rec)@.total(Slot::Statements) < u64::MAX,
    ensures
        posted_if_room(old(rec)@, final(rec)@, *switch, statement_posting(elapsed@), ok),
        elapsed@ == 0 ==> ok,
        ok <==> (switch.enabled && !switch.build.no_timers ==> old(rec)@.total(Slot::ProcessAccumulated)
            + elapsed@ <= u64::MAX * 1_000_000_000 + 999_999_999),
        forall|slot: Slot| #[trigger]
            final(rec)@.total(slot) == old(rec)@.total(slot) + if !ok || !switch.enabled
                || switch.build.no_timers {
                0nat
            } else {
                match slot {
                    Slot::ProcessAccumulated => elapsed@,
                    Slot::Statements => 1nat,
                    _ => 0nat,
                }
            },
        final(rec)@.depth == old(rec)@.depth,
        final(rec)@.parents_open == old(rec)@.parents_open,
{
    if !switch.is_recording() {
        return true;
    }
    assert(statement_posting(elapsed@).dom().contains(Slot::ProcessAccumulated));
    if !rec.has_room_for_time(Slot::ProcessAccumulated, elapsed) {
        return false;
    }
    post_time_and_count(switch, rec, Slot::ProcessAccumulated, elapsed, Slot::Statements);
    true
}

/// Records a legacy reactive statement when its branch is left, whichever way it is left.
#[derive(Debug)]
pub struct ReactiveStmtGuard(pub TimerStart);

impl ReactiveStmtGuard {
    /// Records the reactive statement. Gives `false`, with nothing recorded, where the recorded
    /// time would exceed the longest span.
    pub fn close(self, switch: &TimerSwitch, rec: &mut Recorders) -> (ok: bool)
        requires
            switch.recording() ==> old(rec)@.total(Slot::ReactiveCalls) < u64::MAX,
        ensures
            !switch.recording() ==> ok && final(rec)@ == old(rec)@,
            switch.recording() ==> exists|d: Duration| #[trigger]
                call_ensures(timer_elapsed, (self.0,), d) && posted_if_room(
                    old(rec)@,
                    final(rec)@,
                    *switch,
                    reactive_posting(d@),
                    ok,
                ),
            self.0 is None ==> ok && final(rec)@ == old(rec)@.post(
                *switch,
                reactive_posting(0),
            ),
            !switch.enabled || switch.build.no_timers ==> ok && forall|slot: Slot| #[trigger]
                final(rec)@.total(slot) == old(rec)@.total(slot),
            switch.enabled && !switch.build.no_timers ==> exists|d: Duration| #[trigger]
                call_ensures(timer_elapsed, (self.0,), d) && (ok <==> old(rec)@.total(
                    Slot::ReactiveStmt,
                ) + d@ <= u64::MAX * 1_000_000_000 + 999_999_999) && (
                    forall|slot: Slot| #[trigger]
                        final(rec)@.total(slot) == old(rec)@.total(slot) + if !ok || !switch.enabled
                            || switch.build.no_timers {
                            0nat
                        } else {
                            match slot {
                                Slot::ReactiveStmt => d@,
                                Slot::ReactiveCalls => 1nat,
                                _ => 0nat,
                            }
                        }),
            final(rec)@.depth == old(rec)@.depth,
            final(rec)@.parents_open == old(rec)@.parents_open,
    {
        if !switch.is_recording() {
            return true;
        }
        let elapsed = timer_elapsed(self.0);
        record_reactive_stmt(switch, rec, elapsed)
    }
}

/// Records a legacy reactive statement that took `elapsed`. Gives `false`, with nothing recorded,
/// where the recorded time would exceed the longest span.
pub fn record_reactive_stmt(
    switch: &TimerSwitch,
    rec: &mut Recorders,
    elapsed: Duration,
) -> (ok: bool)
    requires
        switch.recording() ==> old(rec)@.total(Slot::ReactiveCalls) < u64::MAX,
    ensures
        posted_if_room(old(rec)@, final(rec)@, *switch, reactive_posting(elapsed@), ok),
        elapsed@ == 0 ==> ok,
        ok <==> (switch.enabled && !switch.build.no_timers ==> old(rec)@.total(Slot::ReactiveStmt)
            + elapsed@ <= u64::MAX * 1_000_000_000 + 999_999_999),
        forall|slot: Slot| #[trigger]
            final(rec)@.total(slot) == old(rec)@.total(slot) + if !ok || !switch.enabled
                || switch.build.no_timers {
                0nat
            } else {
                match slot {
                    Slot::ReactiveStmt => elapsed@,
                    Slot::ReactiveCalls => 1nat,
                    _ => 0nat,
                }
            },
        final(rec)@.depth == old(rec)@.depth,
        final(rec)@.parents_open == old(rec)@.parents_open,
{
    if !switch.is_recording() {
        return true;
    }
    assert(reactive_posting(elapsed@).dom().contains(Slot::ReactiveStmt));
    if !rec.has_room_for_time(Slot::ReactiveStmt, elapsed) {
        return false;
    }
    post_time_and_count(switch, rec, Slot::ReactiveStmt, elapsed, Slot::ReactiveCalls);
    true
}

} // verus!
