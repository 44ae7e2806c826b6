use rsvelte_profile::duration::Duration;
use rsvelte_profile::profile::{
    leave_entry, record_reactive_stmt, record_statement, set_timers_enabled,
    take_script_text_breakdown, take_timer_starts, timer_start, Build, EntryGuard, ParentScope,
    ProcessAccumulatedGuard, ReactiveStmtGuard, Recorders, Slot, TimerSwitch,
};

const COUNTING: Build = Build { has_clock: true, no_timers: false, counts_starts: true };

fn off() -> TimerSwitch {
    TimerSwitch::new(COUNTING)
}

fn on() -> TimerSwitch {
    let mut switch = off();
    set_timers_enabled(&mut switch, true);
    switch
}

#[test]
fn a_nested_entry_is_counted() {
    let mut rec = Recorders::new();
    let scope = ParentScope::new(&mut rec);
    let outer = EntryGuard::new(&on(), &mut rec);
    let inner = EntryGuard::new(&on(), &mut rec);
    assert_eq!(rec.depth(), 2);
    assert!(inner.close(&on(), &mut rec));
    assert!(outer.close(&on(), &mut rec));
    assert_eq!(rec.depth(), 0);
    scope.close(&mut rec);
    assert_eq!(rec.parents_open(), 0);
    let s = take_script_text_breakdown(&mut rec);
    assert_eq!(s.nested_entries, 1);
    assert_eq!(s.entries_outside_parent, 0);
    assert_eq!(take_timer_starts(&mut rec), 2);
}

#[test]
fn entries_one_after_the_other_do_not_nest() {
    let mut rec = Recorders::new();
    for _ in 0..3 {
        let guard = EntryGuard::new(&on(), &mut rec);
        assert!(guard.close(&on(), &mut rec));
    }
    let s = take_script_text_breakdown(&mut rec);
    assert_eq!(s.nested_entries, 0);
    assert_eq!(s.entries_outside_parent, 3);
}

#[test]
fn entries_made_while_off_leave_no_trace() {
    let mut rec = Recorders::new();
    for _ in 0..3 {
        let scope = ParentScope::new(&mut rec);
        let guard = EntryGuard::new(&off(), &mut rec);
        assert!(guard.close(&off(), &mut rec));
        scope.close(&mut rec);
    }
    assert_eq!((rec.depth(), rec.parents_open()), (0, 0));
    let s = take_script_text_breakdown(&mut rec);
    assert_eq!((s.nested_entries, s.entries_outside_parent), (0, 0));

    let guard = EntryGuard::new(&on(), &mut rec);
    assert!(guard.close(&on(), &mut rec));
    let s = take_script_text_breakdown(&mut rec);
    assert_eq!((s.nested_entries, s.entries_outside_parent), (0, 1));
}

#[test]
fn the_stack_is_tracked_across_a_change_of_the_switch() {
    let mut rec = Recorders::new();
    let outer = EntryGuard::new(&off(), &mut rec);
    let inner = EntryGuard::new(&on(), &mut rec);
    assert!(inner.close(&off(), &mut rec));
    assert!(outer.close(&on(), &mut rec));
    assert_eq!(rec.depth(), 0);
    let s = take_script_text_breakdown(&mut rec);
    assert_eq!(s.nested_entries, 1);
    assert_eq!(s.in_function, Duration::zero());
}

#[test]
fn a_guard_records_the_time_it_was_open() {
    let mut rec = Recorders::new();
    let guard = EntryGuard::new(&on(), &mut rec);
    let before = std::time::Instant::now();
    while before.elapsed() < std::time::Duration::from_millis(2) {}
    assert!(guard.close(&on(), &mut rec));
    let s = take_script_text_breakdown(&mut rec);
    assert!(s.in_function.as_secs() > 0 || s.in_function.subsec_nanos() >= 2_000_000);
}

#[test]
fn leaving_records_the_elapsed_time() {
    let mut rec = Recorders::new();
    EntryGuard::new(&on(), &mut rec);
    assert!(leave_entry(&on(), &mut rec, Duration::new(1, 5)));
    assert!(leave_entry(&off(), &mut rec, Duration::new(9, 9)));
    assert_eq!(rec.depth(), 0);
    assert_eq!(take_script_text_breakdown(&mut rec).in_function, Duration::new(1, 5));
}

#[test]
fn leaving_refuses_what_exceeds_the_longest_span() {
    let mut rec = Recorders::new();
    let longest = Duration::new(u64::MAX, 999_999_999);
    assert!(leave_entry(&on(), &mut rec, longest));
    assert!(!leave_entry(&on(), &mut rec, Duration::new(0, 1)));
    let guard = EntryGuard::new(&on(), &mut rec);
    let before = std::time::Instant::now();
    while before.elapsed() < std::time::Duration::from_millis(1) {}
    assert!(!guard.close(&on(), &mut rec));
    assert_eq!(rec.depth(), 0);
    assert!(!rec.has_room_for_time(Slot::InFunction, Duration::new(0, 1)));
    assert_eq!(take_script_text_breakdown(&mut rec).in_function, longest);
}

#[test]
fn statements_are_recorded_when_their_guard_closes() {
    let mut rec = Recorders::new();
    assert!(record_statement(&on(), &mut rec, Duration::new(0, 7)));
    assert!(record_statement(&off(), &mut rec, Duration::new(0, 7)));
    let start = timer_start(&off(), &mut rec);
    assert!(ProcessAccumulatedGuard(start).close(&on(), &mut rec));
    assert!(ProcessAccumulatedGuard(None).close(&off(), &mut rec));
    let s = take_script_text_breakdown(&mut rec);
    assert_eq!((s.process_accumulated, s.statements), (Duration::new(0, 7), 2));
    assert_eq!(s.reactive_calls, 0);
}

#[test]
fn reactive_statements_are_recorded_when_their_guard_closes() {
    let mut rec = Recorders::new();
    assert!(record_reactive_stmt(&on(), &mut rec, Duration::new(0, 9)));
    assert!(ReactiveStmtGuard(None).close(&on(), &mut rec));
    assert!(ReactiveStmtGuard(None).close(&off(), &mut rec));
    let s = take_script_text_breakdown(&mut rec);
    assert_eq!((s.reactive_stmt, s.reactive_calls), (Duration::new(0, 9), 2));
    assert_eq!(s.statements, 0);
}

#[test]
fn a_guard_that_exceeds_the_longest_span_records_nothing() {
    let mut rec = Recorders::new();
    let longest = Duration::new(u64::MAX, 999_999_999);
    assert!(record_statement(&on(), &mut rec, longest));
    assert!(!record_statement(&on(), &mut rec, Duration::new(0, 1)));
    let start = timer_start(&on(), &mut rec);
    let before = std::time::Instant::now();
    while before.elapsed() < std::time::Duration::from_millis(1) {}
    assert!(!ProcessAccumulatedGuard(start).close(&on(), &mut rec));
    let s = take_script_text_breakdown(&mut rec);
    assert_eq!((s.process_accumulated, s.statements), (longest, 1));
}

/// Waits until at least that many milliseconds have passed.
fn wait_ms(ms: u64) {
    let before = std::time::Instant::now();
    while before.elapsed() < std::time::Duration::from_millis(ms) {}
}

/// Whether `d` is at least five seconds and two milliseconds and well under a minute.
fn grew_from_five_seconds(d: Duration) -> bool {
    d.as_secs() >= 5 && d.as_secs() < 60 && (d.as_secs() > 5 || d.subsec_nanos() >= 2_000_000)
}

#[test]
fn a_running_statement_timer_adds_to_what_is_there() {
    let mut rec = Recorders::new();
    assert!(record_statement(&on(), &mut rec, Duration::new(5, 0)));
    let start = timer_start(&on(), &mut rec);
    assert!(start.is_some());
    wait_ms(2);
    assert!(ProcessAccumulatedGuard(start).close(&on(), &mut rec));
    let s = take_script_text_breakdown(&mut rec);
    assert_eq!(s.statements, 2);
    assert!(grew_from_five_seconds(s.process_accumulated));
    assert_eq!((s.line_loop, s.reactive_stmt), (Duration::zero(), Duration::zero()));
}

#[test]
fn a_running_reactive_timer_adds_to_what_is_there() {
    let mut rec = Recorders::new();
    assert!(record_reactive_stmt(&on(), &mut rec, Duration::new(5, 0)));
    let start = timer_start(&on(), &mut rec);
    assert!(start.is_some());
    wait_ms(2);
    assert!(ReactiveStmtGuard(start).close(&on(), &mut rec));
    let s = take_script_text_breakdown(&mut rec);
    assert_eq!(s.reactive_calls, 2);
    assert!(grew_from_five_seconds(s.reactive_stmt));
    assert_eq!((s.statements, s.process_accumulated), (0, Duration::zero()));
}

#[test]
fn a_running_entry_timer_adds_to_what_is_there() {
    let mut rec = Recorders::new();
    assert!(leave_entry(&on(), &mut rec, Duration::new(5, 0)));
    let guard = EntryGuard::new(&on(), &mut rec);
    wait_ms(2);
    assert!(guard.close(&on(), &mut rec));
    let s = take_script_text_breakdown(&mut rec);
    assert!(grew_from_five_seconds(s.in_function));
}

#[test]
fn a_running_timer_that_closes_while_off_records_nothing() {
    let mut rec = Recorders::new();
    let start = timer_start(&on(), &mut rec);
    assert!(ProcessAccumulatedGuard(start).close(&off(), &mut rec));
    assert!(ReactiveStmtGuard(start).close(&off(), &mut rec));
    let s = take_script_text_breakdown(&mut rec);
    assert_eq!((s.statements, s.reactive_calls), (0, 0));
    assert_eq!((s.process_accumulated, s.reactive_stmt), (Duration::zero(), Duration::zero()));
}

#[test]
fn takes_add_up_to_all_that_was_recorded() {
    let mut rec = Recorders::new();
    let outer = EntryGuard::new(&on(), &mut rec);
    let inner = EntryGuard::new(&on(), &mut rec);
    let first = take_script_text_breakdown(&mut rec);
    assert_eq!((first.nested_entries, first.entries_outside_parent), (1, 2));
    assert_eq!(take_timer_starts(&mut rec), 2);
    assert!(inner.close(&on(), &mut rec));
    let again = EntryGuard::new(&on(), &mut rec);
    timer_start(&on(), &mut rec);
    let second = take_script_text_breakdown(&mut rec);
    assert_eq!((second.nested_entries, second.entries_outside_parent), (1, 1));
    assert_eq!(take_timer_starts(&mut rec), 2);
    assert!(again.close(&on(), &mut rec));
    assert!(outer.close(&on(), &mut rec));
    assert_eq!(take_script_text_breakdown(&mut rec).nested_entries, 0);
}
