use rsvelte_profile::measure_ast_state::{
    record_reparse, record_retained_use, reset, snapshot, times_needed, ReuseCounters, ReuseTotals,
};

#[test]
fn the_two_counts_stay_apart() {
    let mut counters = ReuseCounters::new();
    assert_eq!(snapshot(&counters), (0, 0));
    record_retained_use(&mut counters);
    record_retained_use(&mut counters);
    record_reparse(&mut counters);
    assert_eq!(snapshot(&counters), (2, 1));
    assert_eq!(snapshot(&counters), (2, 1));
    reset(&mut counters);
    assert_eq!(snapshot(&counters), (0, 0));
}

#[test]
fn roots_add_up() {
    let mut totals = ReuseTotals::new();
    totals.add_root(3, (4, 2));
    totals.add_root(1, (0, 5));
    assert_eq!(totals, ReuseTotals { files: 4, uses: 4, reparses: 7 });
    assert_eq!(times_needed(totals.uses, totals.reparses), Some(11));
}

#[test]
fn no_share_where_nothing_was_needed() {
    assert_eq!(times_needed(0, 0), None);
    assert_eq!(times_needed(0, 1), Some(1));
}
