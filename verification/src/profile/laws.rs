//! What holds of the timers and recorders as a whole.

use vstd::prelude::*;

use super::breakdown::PipelineBreakdown;
use super::guard::{in_function_posting, reactive_posting, statement_posting};
use super::recorders::{amount_in, RecorderState};
use super::slot::{Group, Slot};
use super::switch::TimerSwitch;

verus! {

/// While the timers are off no recorder accumulates: a posting is dropped, no start is counted,
/// and an entry into the staged function leaves every slot as it was.
pub proof fn law_off_records_nothing(
    state: RecorderState,
    switch: TimerSwitch,
    posting: Map<Slot, nat>,
)
    requires
        !switch.enabled,
    ensures
        state.post(switch, posting) == state,
        state.admits(switch, posting),
        state.started(switch) == state,
        state.entered(switch).totals == state.totals,
{
}

/// The same holds of a build that leaves the timers out, whatever its switch says.
pub proof fn law_left_out_records_nothing(
    state: RecorderState,
    switch: TimerSwitch,
    posting: Map<Slot, nat>,
)
    requires
        switch.build.no_timers,
    ensures
        state.post(switch, posting) == state,
        state.admits(switch, posting),
        state.started(switch) == state,
        state.entered(switch).totals == state.totals,
{
}

/// A clock is read only where recorders accumulate what the timer finds.
pub proof fn law_timing_is_recorded(switch: TimerSwitch)
    ensures
        switch.timing() ==> switch.recording(),
        switch.counting() ==> switch.timing(),
{
}

/// What the settings of the switch mean: recorders accumulate while the timers are asked for and
/// built in; a timer reads the clock where there also is one; its start is counted where the build
/// also counts starts.
pub proof fn law_switch_settings(switch: TimerSwitch)
    ensures
        switch.recording() <==> switch.enabled && !switch.build.no_timers,
        switch.timing() <==> switch.enabled && !switch.build.no_timers && switch.build.has_clock,
        switch.counting() <==> switch.enabled && !switch.build.no_timers && switch.build.has_clock
            && switch.build.counts_starts,
{
}

/// How much every slot holds: a time up to the longest span, a count up to the greatest `u64`.
pub proof fn law_slot_limits()
    ensures
        Slot::VisitProgram.is_time() && Slot::VisitProgram.capacity() == u64::MAX * 1_000_000_000 + 999_999_999,
        Slot::ScriptTextTransform.is_time() && Slot::ScriptTextTransform.capacity() == u64::MAX * 1_000_000_000 + 999_999_999,
        Slot::TemplateFragment.is_time() && Slot::TemplateFragment.capacity() == u64::MAX * 1_000_000_000 + 999_999_999,
        Slot::AssemblyAfterFragment.is_time() && Slot::AssemblyAfterFragment.capacity() == u64::MAX * 1_000_000_000 + 999_999_999,
        Slot::CssRender.is_time() && Slot::CssRender.capacity() == u64::MAX * 1_000_000_000 + 999_999_999,
        Slot::Codegen.is_time() && Slot::Codegen.capacity() == u64::MAX * 1_000_000_000 + 999_999_999,
        Slot::Prenormalize.is_time() && Slot::Prenormalize.capacity() == u64::MAX * 1_000_000_000 + 999_999_999,
        Slot::CollectVars.is_time() && Slot::CollectVars.capacity() == u64::MAX * 1_000_000_000 + 999_999_999,
        Slot::LineLoop.is_time() && Slot::LineLoop.capacity() == u64::MAX * 1_000_000_000 + 999_999_999,
        Slot::ProcessAccumulated.is_time() && Slot::ProcessAccumulated.capacity() == u64::MAX * 1_000_000_000 + 999_999_999,
        Slot::Runes.is_time() && Slot::Runes.capacity() == u64::MAX * 1_000_000_000 + 999_999_999,
        Slot::ReactiveStmt.is_time() && Slot::ReactiveStmt.capacity() == u64::MAX * 1_000_000_000 + 999_999_999,
        Slot::AstTransforms.is_time() && Slot::AstTransforms.capacity() == u64::MAX * 1_000_000_000 + 999_999_999,
        Slot::PostPasses.is_time() && Slot::PostPasses.capacity() == u64::MAX * 1_000_000_000 + 999_999_999,
        Slot::InFunction.is_time() && Slot::InFunction.capacity() == u64::MAX * 1_000_000_000 + 999_999_999,
        Slot::ReparseParse.is_time() && Slot::ReparseParse.capacity() == u64::MAX * 1_000_000_000 + 999_999_999,
        Slot::ReparseVisit.is_time() && Slot::ReparseVisit.capacity() == u64::MAX * 1_000_000_000 + 999_999_999,
        Slot::DirectParse.is_time() && Slot::DirectParse.capacity() == u64::MAX * 1_000_000_000 + 999_999_999,
        Slot::ClientSplit.is_time() && Slot::ClientSplit.capacity() == u64::MAX * 1_000_000_000 + 999_999_999,
        Slot::ClientMap.is_time() && Slot::ClientMap.capacity() == u64::MAX * 1_000_000_000 + 999_999_999,
        Slot::ClientPlain.is_time() && Slot::ClientPlain.capacity() == u64::MAX * 1_000_000_000 + 999_999_999,
        Slot::ServerPrint.is_time() && Slot::ServerPrint.capacity() == u64::MAX * 1_000_000_000 + 999_999_999,
        Slot::ServerPipePrint.is_time() && Slot::ServerPipePrint.capacity() == u64::MAX * 1_000_000_000 + 999_999_999,
        Slot::ServerPipeReparse.is_time() && Slot::ServerPipeReparse.capacity() == u64::MAX * 1_000_000_000 + 999_999_999,
        Slot::NormalizePrint.is_time() && Slot::NormalizePrint.capacity() == u64::MAX * 1_000_000_000 + 999_999_999,
        Slot::Parse.is_time() && Slot::Parse.capacity() == u64::MAX * 1_000_000_000 + 999_999_999,
        Slot::LineOffsets.is_time() && Slot::LineOffsets.capacity() == u64::MAX * 1_000_000_000 + 999_999_999,
        Slot::EnsureScript.is_time() && Slot::EnsureScript.capacity() == u64::MAX * 1_000_000_000 + 999_999_999,
        Slot::TsRemoval.is_time() && Slot::TsRemoval.capacity() == u64::MAX * 1_000_000_000 + 999_999_999,
        Slot::OptionsMerge.is_time() && Slot::OptionsMerge.capacity() == u64::MAX * 1_000_000_000 + 999_999_999,
        Slot::Analyze.is_time() && Slot::Analyze.capacity() == u64::MAX * 1_000_000_000 + 999_999_999,
        Slot::Transform.is_time() && Slot::Transform.capacity() == u64::MAX * 1_000_000_000 + 999_999_999,
        Slot::Total.is_time() && Slot::Total.capacity() == u64::MAX * 1_000_000_000 + 999_999_999,
        !Slot::Statements.is_time() && Slot::Statements.capacity() == u64::MAX,
        !Slot::ReactiveCalls.is_time() && Slot::ReactiveCalls.capacity() == u64::MAX,
        !Slot::StagedCalls.is_time() && Slot::StagedCalls.capacity() == u64::MAX,
        !Slot::Entries.is_time() && Slot::Entries.capacity() == u64::MAX,
        !Slot::ParentCalls.is_time() && Slot::ParentCalls.capacity() == u64::MAX,
        !Slot::NestedEntries.is_time() && Slot::NestedEntries.capacity() == u64::MAX,
        !Slot::ParentSiteMain.is_time() && Slot::ParentSiteMain.capacity() == u64::MAX,
        !Slot::ParentSitePub.is_time() && Slot::ParentSitePub.capacity() == u64::MAX,
        !Slot::EntriesOutsideParent.is_time() && Slot::EntriesOutsideParent.capacity() == u64::MAX,
        !Slot::ReparseCalls.is_time() && Slot::ReparseCalls.capacity() == u64::MAX,
        !Slot::ReparseBytes.is_time() && Slot::ReparseBytes.capacity() == u64::MAX,
        !Slot::DirectCalls.is_time() && Slot::DirectCalls.capacity() == u64::MAX,
        !Slot::DirectBytes.is_time() && Slot::DirectBytes.capacity() == u64::MAX,
        !Slot::ClientSplitCalls.is_time() && Slot::ClientSplitCalls.capacity() == u64::MAX,
        !Slot::ClientMapCalls.is_time() && Slot::ClientMapCalls.capacity() == u64::MAX,
        !Slot::ClientPlainCalls.is_time() && Slot::ClientPlainCalls.capacity() == u64::MAX,
        !Slot::ServerPrintCalls.is_time() && Slot::ServerPrintCalls.capacity() == u64::MAX,
        !Slot::ServerPipeCalls.is_time() && Slot::ServerPipeCalls.capacity() == u64::MAX,
        !Slot::NormalizeCalls.is_time() && Slot::NormalizeCalls.capacity() == u64::MAX,
        !Slot::Compiles.is_time() && Slot::Compiles.capacity() == u64::MAX,
        !Slot::TimerStarts.is_time() && Slot::TimerStarts.capacity() == u64::MAX,
{
}

/// A posting of one amount gives that amount, in full, to its slot and nothing to another.
pub proof fn law_posting_gives_its_amount(slot: Slot, other: Slot, amount: nat)
    ensures
        amount_in(map![slot => amount], slot) == amount,
        other != slot ==> amount_in(map![slot => amount], other) == 0,
{
}

/// While recorders accumulate, every slot named in a posting grows by exactly what is written there
/// for it, and every other slot stays as it was.
pub proof fn law_posting_adds_in_full(
    state: RecorderState,
    switch: TimerSwitch,
    posting: Map<Slot, nat>,
    slot: Slot,
)
    requires
        switch.enabled,
        !switch.build.no_timers,
    ensures
        posting.dom().contains(slot) ==> state.post(switch, posting).total(slot) == state.total(
            slot,
        ) + posting[slot],
        !posting.dom().contains(slot) ==> state.post(switch, posting).total(slot) == state.total(
            slot,
        ),
        state.post(switch, posting).depth == state.depth,
        state.post(switch, posting).parents_open == state.parents_open,
{
}

/// A posting is refused only where a slot would pass its limit.
pub proof fn law_room_reaches_to_the_limit(
    state: RecorderState,
    switch: TimerSwitch,
    slot: Slot,
    amount: nat,
)
    requires
        switch.enabled,
        !switch.build.no_timers,
    ensures
        slot.is_time() ==> (state.admits(switch, map![slot => amount]) <==> state.total(slot)
            + amount <= u64::MAX * 1_000_000_000 + 999_999_999),
        !slot.is_time() ==> (state.admits(switch, map![slot => amount]) <==> state.total(slot)
            + amount <= u64::MAX),
{
    assert(map![slot => amount].dom().contains(slot));
}

/// A posting to several slots is admitted exactly where each of them has room for its own amount.
pub proof fn law_room_is_slot_by_slot(
    state: RecorderState,
    switch: TimerSwitch,
    posting: Map<Slot, nat>,
)
    ensures
        state.admits(switch, posting) <==> forall|slot: Slot| #[trigger]
            posting.dom().contains(slot) ==> state.admits(switch, map![slot => posting[slot]]),
{
    if state.admits(switch, posting) {
        assert forall|slot: Slot| #[trigger] posting.dom().contains(slot) implies state.admits(
            switch,
            map![slot => posting[slot]],
        ) by {}
    } else {
        let slot = choose|slot: Slot| #[trigger]
            posting.dom().contains(slot) && state.total(slot) + posting[slot] > slot.capacity();
        assert(map![slot => posting[slot]].dom().contains(slot));
    }
}

/// Leaving the staged function adds the time inside it once and in full, and touches no other slot.
pub proof fn law_leaving_adds_the_time_once(
    state: RecorderState,
    switch: TimerSwitch,
    elapsed: nat,
    slot: Slot,
)
    requires
        switch.enabled,
        !switch.build.no_timers,
    ensures
        state.left().post(switch, in_function_posting(elapsed)).total(Slot::InFunction)
            == state.total(Slot::InFunction) + elapsed,
        slot != Slot::InFunction ==> state.left().post(
            switch,
            in_function_posting(elapsed),
        ).total(slot) == state.total(slot),
{
}

/// A statement adds its time once and in full and counts as one; so does a legacy reactive
/// statement, in its own slots; neither touches another slot.
pub proof fn law_statements_add_their_time_once(
    state: RecorderState,
    switch: TimerSwitch,
    elapsed: nat,
    slot: Slot,
)
    requires
        switch.enabled,
        !switch.build.no_timers,
    ensures
        state.post(switch, statement_posting(elapsed)).total(slot) == state.total(slot) + match slot {
            Slot::ProcessAccumulated => elapsed,
            Slot::Statements => 1nat,
            _ => 0nat,
        },
        state.post(switch, reactive_posting(elapsed)).total(slot) == state.total(slot) + match slot {
            Slot::ReactiveStmt => elapsed,
            Slot::ReactiveCalls => 1nat,
            _ => 0nat,
        },
{
}

/// An entry counts as nested where another one is on the stack and as outside where no parent is
/// open, once each, and goes on the stack; it adds no time.
pub proof fn law_entering_counts_once(state: RecorderState, switch: TimerSwitch, slot: Slot)
    requires
        switch.enabled,
        !switch.build.no_timers,
    ensures
        amount_in(state.entry_posting(), slot) == match slot {
            Slot::NestedEntries if state.depth > 0 => 1nat,
            Slot::EntriesOutsideParent if state.parents_open == 0 => 1nat,
            _ => 0nat,
        },
        slot.is_time() ==> state.entered(switch).total(slot) == state.total(slot),
        state.entered(switch).depth == state.depth + 1,
        state.entered(switch).parents_open == state.parents_open,
{
}

/// Nothing is what a timer that never ran contributes: posting a time of zero changes nothing.
pub proof fn law_zero_contributes_nothing(state: RecorderState, switch: TimerSwitch, slot: Slot)
    ensures
        state.post(switch, map![slot => 0]) == state,
{
    assert(state.post(switch, map![slot => 0]) =~= state);
}

/// The order in which two recorders post does not matter.
pub proof fn law_postings_commute(
    state: RecorderState,
    switch: TimerSwitch,
    a: Map<Slot, nat>,
    b: Map<Slot, nat>,
)
    ensures
        state.post(switch, a).post(switch, b) == state.post(switch, b).post(switch, a),
{
    assert(state.post(switch, a).post(switch, b) =~= state.post(switch, b).post(switch, a));
}

/// One thing that happens to the recorders of a thread.
pub enum Event {
    /// A recorder posts.
    Record(TimerSwitch, Map<Slot, nat>),
    /// A timer starts.
    Start(TimerSwitch),
    /// The staged function is entered.
    Enter(TimerSwitch),
    /// The staged function is left after that many nanoseconds.
    Leave(TimerSwitch, nat),
    /// A parent interval opens.
    OpenParent,
    /// A parent interval closes.
    CloseParent,
    /// A breakdown is taken.
    Take(Group),
}

/// The state after one event.
pub open spec fn after_event(state: RecorderState, event: Event) -> RecorderState {
    match event {
        Event::Record(switch, posting) => state.post(switch, posting),
        Event::Start(switch) => state.started(switch),
        Event::Enter(switch) => state.entered(switch),
        Event::Leave(switch, elapsed) => {
            if state.left().admits(switch, in_function_posting(elapsed)) {
                state.left().post(switch, in_function_posting(elapsed))
            } else {
                state.left()
            }
        },
        Event::OpenParent => state.parent_opened(),
        Event::CloseParent => state.parent_closed(),
        Event::Take(group) => state.cleared(group),
    }
}

/// The state after `events`, from first to last.
pub open spec fn after_events(state: RecorderState, events: Seq<Event>) -> RecorderState
    decreases events.len(),
{
    if events.len() == 0 {
        state
    } else {
        after_event(after_events(state, events.drop_last()), events.last())
    }
}

/// What an event records in `slot`. Nothing is recorded while recorders do not accumulate.
pub open spec fn recorded(state: RecorderState, event: Event, slot: Slot) -> nat {
    match event {
        Event::Record(switch, posting) if switch.recording() => amount_in(posting, slot),
        Event::Start(switch) if switch.counting() && slot == Slot::TimerStarts => 1,
        Event::Enter(switch) if switch.counting() && slot == Slot::TimerStarts => 1,
        Event::Enter(switch) if switch.recording() => amount_in(state.entry_posting(), slot),
        Event::Leave(switch, elapsed) if switch.recording() && state.has_room(
            in_function_posting(elapsed),
        ) => amount_in(in_function_posting(elapsed), slot),
        _ => 0,
    }
}

/// What `events` record in `slot` together.
pub open spec fn recorded_in(state: RecorderState, events: Seq<Event>, slot: Slot) -> nat
    decreases events.len(),
{
    if events.len() == 0 {
        0
    } else {
        recorded_in(state, events.drop_last(), slot) + recorded(
            after_events(state, events.drop_last()),
            events.last(),
            slot,
        )
    }
}

/// What the takes among `events` give of `slot` together.
pub open spec fn taken_in(state: RecorderState, events: Seq<Event>, slot: Slot) -> nat
    decreases events.len(),
{
    if events.len() == 0 {
        0
    } else {
        taken_in(state, events.drop_last(), slot) + match events.last() {
            Event::Take(group) if slot.group() == group => {
                after_events(state, events.drop_last()).total(slot)
            },
            _ => 0nat,
        }
    }
}

/// What `events` record in `slot` after the last take of its breakdown among them.
pub open spec fn recorded_since_take(state: RecorderState, events: Seq<Event>, slot: Slot) -> nat
    decreases events.len(),
{
    if events.len() == 0 {
        0
    } else {
        match events.last() {
            Event::Take(group) if slot.group() == group => 0,
            _ => {
                recorded_since_take(state, events.drop_last(), slot) + recorded(
                    after_events(state, events.drop_last()),
                    events.last(),
                    slot,
                )
            },
        }
    }
}

/// One event grows a slot by what it records there, unless it takes the slot.
proof fn lemma_event_records(state: RecorderState, event: Event, slot: Slot)
    ensures
        event matches Event::Take(group) && slot.group() == group ==> after_event(
            state,
            event,
        ).total(slot) == 0,
        !(event matches Event::Take(group) && slot.group() == group) ==> after_event(
            state,
            event,
        ).total(slot) == state.total(slot) + recorded(state, event, slot),
{
}

/// Nothing recorded is lost and nothing counts twice: over any run, what the takes give of a slot
/// and what is left in it add up to what was there and what was recorded while on.
pub proof fn law_takes_and_rest_are_all_recorded(
    state: RecorderState,
    events: Seq<Event>,
    slot: Slot,
)
    ensures
        taken_in(state, events, slot) + after_events(state, events).total(slot) == state.total(
            slot,
        ) + recorded_in(state, events, slot),
    decreases events.len(),
{
    if events.len() > 0 {
        law_takes_and_rest_are_all_recorded(state, events.drop_last(), slot);
        lemma_event_records(after_events(state, events.drop_last()), events.last(), slot);
    }
}

/// Taking a breakdown gives what was recorded since it was last taken, and that alone.
pub proof fn law_take_gives_since_last_take(
    state: RecorderState,
    events: Seq<Event>,
    slot: Slot,
)
    requires
        state.total(slot) == 0,
    ensures
        after_events(state, events).total(slot) == recorded_since_take(state, events, slot),
    decreases events.len(),
{
    if events.len() > 0 {
        law_take_gives_since_last_take(state, events.drop_last(), slot);
        lemma_event_records(after_events(state, events.drop_last()), events.last(), slot);
    }
}

/// Taking one breakdown leaves the others as they were: breakdowns can be taken in any order, and
/// one that is taken again at once is empty.
pub proof fn law_takes_are_independent(
    state: RecorderState,
    a: Group,
    b: Group,
    slot: Slot,
)
    ensures
        state.cleared(a).cleared(b) == state.cleared(b).cleared(a),
        slot.group() != a ==> state.cleared(a).total(slot) == state.total(slot),
        slot.group() == a ==> state.cleared(a).total(slot) == 0,
        state.cleared(a).depth == state.depth,
        state.cleared(a).parents_open == state.parents_open,
{
    assert(state.cleared(a).cleared(b) =~= state.cleared(b).cleared(a));
}

/// Leaving the staged function undoes entering it: the entry is off the stack again, whatever the
/// switch did in between, and the parent intervals are as they were.
pub proof fn law_leave_undoes_enter(
    state: RecorderState,
    entering: TimerSwitch,
    leaving: TimerSwitch,
    elapsed: nat,
)
    ensures
        state.entered(entering).left().post(leaving, in_function_posting(elapsed)).depth
            == state.depth,
        state.entered(entering).left().post(leaving, in_function_posting(elapsed)).parents_open
            == state.parents_open,
{
}

/// Closing a parent interval undoes opening it.
pub proof fn law_close_undoes_open(state: RecorderState)
    ensures
        state.parent_opened().parent_closed() == state,
{
    assert(state.parent_opened().parent_closed() =~= state);
}

/// Entries in `events` that are not left again.
pub open spec fn entries_on_stack(events: Seq<Event>) -> int
    decreases events.len(),
{
    if events.len() == 0 {
        0
    } else {
        entries_on_stack(events.drop_last()) + match events.last() {
            Event::Enter(_) => 1int,
            Event::Leave(_, _) => -1int,
            _ => 0int,
        }
    }
}

/// Parent intervals in `events` that are not closed again.
pub open spec fn open_parents(events: Seq<Event>) -> int
    decreases events.len(),
{
    if events.len() == 0 {
        0
    } else {
        open_parents(events.drop_last()) + match events.last() {
            Event::OpenParent => 1int,
            Event::CloseParent => -1int,
            _ => 0int,
        }
    }
}

/// Whether nothing is left that was not entered and nothing is closed that was not opened.
pub open spec fn balanced(events: Seq<Event>) -> bool
    decreases events.len(),
{
    events.len() == 0 || {
        &&& balanced(events.drop_last())
        &&& entries_on_stack(events) >= 0
        &&& open_parents(events) >= 0
    }
}

/// Whether no recorder posts to the slots that entries and timers fill: none of them does.
pub open spec fn recorders_keep_to_their_slots(events: Seq<Event>) -> bool
    decreases events.len(),
{
    events.len() == 0 || {
        &&& recorders_keep_to_their_slots(events.drop_last())
        &&& events.last() matches Event::Record(_, posting) ==> {
            &&& !posting.dom().contains(Slot::NestedEntries)
            &&& !posting.dom().contains(Slot::EntriesOutsideParent)
            &&& !posting.dom().contains(Slot::TimerStarts)
        }
    }
}

/// Entries in `events`, since the script text split was last taken, that recorders see while
/// another entry is on the stack.
pub open spec fn nested_entries(events: Seq<Event>) -> nat
    decreases events.len(),
{
    if events.len() == 0 {
        0
    } else {
        let before = nested_entries(events.drop_last());
        match events.last() {
            Event::Take(Group::ScriptText) => 0,
            Event::Enter(switch) if switch.recording() && entries_on_stack(events.drop_last()) > 0
                => before + 1,
            _ => before,
        }
    }
}

/// Entries in `events`, since the script text split was last taken, that recorders see while no
/// parent interval is open.
pub open spec fn entries_outside_parent(events: Seq<Event>) -> nat
    decreases events.len(),
{
    if events.len() == 0 {
        0
    } else {
        let before = entries_outside_parent(events.drop_last());
        match events.last() {
            Event::Take(Group::ScriptText) => 0,
            Event::Enter(switch) if switch.recording() && open_parents(events.drop_last()) == 0
                => before + 1,
            _ => before,
        }
    }
}

/// What an entry posts in the two slots that only entries fill.
proof fn lemma_entry_posting(state: RecorderState)
    ensures
        amount_in(state.entry_posting(), Slot::NestedEntries) == if state.depth > 0 {
            1nat
        } else {
            0nat
        },
        amount_in(state.entry_posting(), Slot::EntriesOutsideParent) == if state.parents_open
            == 0 {
            1nat
        } else {
            0nat
        },
{
}

/// The guards track the stack as it is, on or off: the depth is the number of entries on it and
/// the open parents are those not closed yet. Since the last take, a nested entry is counted
/// exactly where another entry is on the stack, and an entry outside any parent exactly where no
/// parent is open.
pub proof fn law_guards_track_the_stack(events: Seq<Event>)
    requires
        balanced(events),
        recorders_keep_to_their_slots(events),
    ensures
        after_events(RecorderState::empty(), events).depth == entries_on_stack(events),
        after_events(RecorderState::empty(), events).parents_open == open_parents(events),
        after_events(RecorderState::empty(), events).total(Slot::NestedEntries)
            == nested_entries(events),
        after_events(RecorderState::empty(), events).total(Slot::EntriesOutsideParent)
            == entries_outside_parent(events),
    decreases events.len(),
{
    if events.len() > 0 {
        law_guards_track_the_stack(events.drop_last());
        let before = after_events(RecorderState::empty(), events.drop_last());
        lemma_entry_posting(before);
        lemma_event_records(before, events.last(), Slot::NestedEntries);
        lemma_event_records(before, events.last(), Slot::EntriesOutsideParent);
    }
}

/// Timers in `events`, entries' own included, that are counted when they start, since the count
/// was last taken.
pub open spec fn counted_starts(events: Seq<Event>) -> nat
    decreases events.len(),
{
    if events.len() == 0 {
        0
    } else {
        let before = counted_starts(events.drop_last());
        match events.last() {
            Event::Take(Group::TimerStarts) => 0,
            Event::Start(switch) if switch.counting() => before + 1,
            Event::Enter(switch) if switch.counting() => before + 1,
            _ => before,
        }
    }
}

/// In a build that counts starts, the count is the number of timers that read the clock to start
/// since it was last taken, those of entries included: timers that started while off are not in
/// it.
pub proof fn law_starts_are_counted(events: Seq<Event>)
    requires
        recorders_keep_to_their_slots(events),
    ensures
        after_events(RecorderState::empty(), events).total(Slot::TimerStarts) == counted_starts(
            events,
        ),
    decreases events.len(),
{
    if events.len() > 0 {
        law_starts_are_counted(events.drop_last());
        let before = after_events(RecorderState::empty(), events.drop_last());
        lemma_event_records(before, events.last(), Slot::TimerStarts);
    }
}

/// The buckets and the residual make up the whole compile, as long as the buckets claim no more
/// than there is.
pub proof fn law_buckets_and_residual_make_total(b: PipelineBreakdown)
    ensures
        b.attributed() <= b.total@ ==> b.attributed() + b.residual() == b.total@,
        b.attributed() >= b.total@ ==> b.residual() == 0,
        b.residual() <= b.total@,
{
}

/// The residual and the seven buckets, each in full, make up the whole compile, as long as the
/// buckets claim no more than there is.
pub proof fn law_residual_completes_the_buckets(b: PipelineBreakdown)
    ensures
        b.parse@ + b.line_offsets@ + b.ensure_script@ + b.ts_removal@ + b.options_merge@
            + b.analyze@ + b.transform@ <= b.total@ ==> b.residual() + b.parse@ + b.line_offsets@
            + b.ensure_script@ + b.ts_removal@ + b.options_merge@ + b.analyze@ + b.transform@
            == b.total@,
        b.parse@ + b.line_offsets@ + b.ensure_script@ + b.ts_removal@ + b.options_merge@
            + b.analyze@ + b.transform@ >= b.total@ ==> b.residual() == 0,
{
}

/// Whichever bucket grows, the claimed time grows by as much; with no time in any bucket, nothing is
/// claimed.
pub proof fn law_every_bucket_counts_in_full(
    before: PipelineBreakdown,
    after: PipelineBreakdown,
    n: nat,
)
    ensures
        ({
            &&& after.parse@ == before.parse@ + n
            &&& after.line_offsets@ == before.line_offsets@
            &&& after.ensure_script@ == before.ensure_script@
            &&& after.ts_removal@ == before.ts_removal@
            &&& after.options_merge@ == before.options_merge@
            &&& after.analyze@ == before.analyze@
            &&& after.transform@ == before.transform@
        }) ==> after.attributed() == before.attributed() + n,
        ({
            &&& after.parse@ == before.parse@
            &&& after.line_offsets@ == before.line_offsets@ + n
            &&& after.ensure_script@ == before.ensure_script@
            &&& after.ts_removal@ == before.ts_removal@
            &&& after.options_merge@ == before.options_merge@
            &&& after.analyze@ == before.analyze@
            &&& after.transform@ == before.transform@
        }) ==> after.attributed() == before.attributed() + n,
        ({
            &&& after.parse@ == before.parse@
            &&& after.line_offsets@ == before.line_offsets@
            &&& after.ensure_script@ == before.ensure_script@ + n
            &&& after.ts_removal@ == before.ts_removal@
            &&& after.options_merge@ == before.options_merge@
            &&& after.analyze@ == before.analyze@
            &&& after.transform@ == before.transform@
        }) ==> after.attributed() == before.attributed() + n,
        ({
            &&& after.parse@ == before.parse@
            &&& after.line_offsets@ == before.line_offsets@
            &&& after.ensure_script@ == before.ensure_script@
            &&& after.ts_removal@ == before.ts_removal@ + n
            &&& after.options_merge@ == before.options_merge@
            &&& after.analyze@ == before.analyze@
            &&& after.transform@ == before.transform@
        }) ==> after.attributed() == before.attributed() + n,
        ({
            &&& after.parse@ == before.parse@
            &&& after.line_offsets@ == before.line_offsets@
            &&& after.ensure_script@ == before.ensure_script@
            &&& after.ts_removal@ == before.ts_removal@
            &&& after.options_merge@ == before.options_merge@ + n
            &&& after.analyze@ == before.analyze@
            &&& after.transform@ == before.transform@
        }) ==> after.attributed() == before.attributed() + n,
        ({
            &&& after.parse@ == before.parse@
            &&& after.line_offsets@ == before.line_offsets@
            &&& after.ensure_script@ == before.ensure_script@
            &&& after.ts_removal@ == before.ts_removal@
            &&& after.options_merge@ == before.options_merge@
            &&& after.analyze@ == before.analyze@ + n
            &&& after.transform@ == before.transform@
        }) ==> after.attributed() == before.attributed() + n,
        ({
            &&& after.parse@ == before.parse@
            &&& after.line_offsets@ == before.line_offsets@
            &&& after.ensure_script@ == before.ensure_script@
            &&& after.ts_removal@ == before.ts_removal@
            &&& after.options_merge@ == before.options_merge@
            &&& after.analyze@ == before.analyze@
            &&& after.transform@ == before.transform@ + n
        }) ==> after.attributed() == before.attributed() + n,
        ({
            &&& before.parse@ == 0
            &&& before.line_offsets@ == 0
            &&& before.ensure_script@ == 0
            &&& before.ts_removal@ == 0
            &&& before.options_merge@ == 0
            &&& before.analyze@ == 0
            &&& before.transform@ == 0
        }) ==> before.attributed() == 0,
{
}

/// A phase that no bucket claims shows in the residual: what it adds to the whole compile, it adds
/// to the residual, and no bucket takes it up.
pub proof fn law_missing_bucket_shows_in_residual(
    before: PipelineBreakdown,
    after: PipelineBreakdown,
    unclaimed: nat,
)
    requires
        before.attributed() <= before.total@,
        after.attributed() == before.attributed(),
        after.total@ == before.total@ + unclaimed,
    ensures
        after.residual() == before.residual() + unclaimed,
{
}

/// What a bucket claims leaves the residual.
pub proof fn law_claimed_time_leaves_residual(
    before: PipelineBreakdown,
    after: PipelineBreakdown,
    claimed: nat,
)
    requires
        after.attributed() == before.attributed() + claimed,
        after.attributed() <= after.total@,
        after.total@ == before.total@,
    ensures
        after.residual() + claimed == before.residual(),
{
}

} // verus!
