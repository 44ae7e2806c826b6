use rsvelte_profile::duration::Duration;
use rsvelte_profile::profile::{
    record_assembly_after_fragment, record_codegen, record_css_render, record_direct_parse,
    record_esrap_client_map, record_esrap_client_plain, record_esrap_client_split,
    record_esrap_normalize, record_esrap_pipe, record_esrap_server, record_parent_site,
    record_pipeline_analyze, record_pipeline_ensure_script, record_pipeline_line_offsets,
    record_pipeline_options_merge, record_pipeline_parse, record_pipeline_total,
    record_pipeline_transform, record_pipeline_ts_removal, record_reparse, record_script_text,
    record_st_ast_transforms, record_st_collect_vars, record_st_entry, record_st_line_loop,
    record_st_post_passes, record_st_prenormalize, record_st_runes, record_template_fragment,
    record_visit_program, set_timers_enabled, take_breakdown, take_esrap_breakdown,
    take_pipeline_breakdown, take_reparse_breakdown, take_script_text_breakdown,
    take_timer_starts, timer_elapsed, timer_start, timers_enabled, Build, PipelineBreakdown,
    Recorders, Slot, TimerSwitch,
};

const SHIPPED: Build = Build { has_clock: true, no_timers: false, counts_starts: false };

fn on() -> TimerSwitch {
    let mut switch = TimerSwitch::new(SHIPPED);
    set_timers_enabled(&mut switch, true);
    switch
}

fn ns(n: u32) -> Duration {
    Duration::new(0, n)
}

/// Calls every recorder that takes a time, with times that tell them apart.
fn record_everything(switch: &TimerSwitch, rec: &mut Recorders) {
    record_visit_program(switch, rec, ns(1));
    record_script_text(switch, rec, ns(2));
    record_template_fragment(switch, rec, ns(3));
    record_assembly_after_fragment(switch, rec, ns(4));
    record_css_render(switch, rec, ns(5));
    record_codegen(switch, rec, ns(6));
    record_st_prenormalize(switch, rec, ns(7));
    record_st_collect_vars(switch, rec, ns(8));
    record_st_line_loop(switch, rec, ns(9));
    record_st_runes(switch, rec, ns(10));
    record_st_ast_transforms(switch, rec, ns(11));
    record_st_post_passes(switch, rec, ns(12));
    record_st_entry(switch, rec);
    record_parent_site(switch, rec, true);
    record_parent_site(switch, rec, false);
    record_parent_site(switch, rec, false);
    record_reparse(switch, rec, ns(13), ns(14), 150);
    record_direct_parse(switch, rec, ns(15), 160);
    record_esrap_client_split(switch, rec, ns(16));
    record_esrap_client_map(switch, rec, ns(17));
    record_esrap_client_plain(switch, rec, ns(18));
    record_esrap_server(switch, rec, ns(19));
    record_esrap_pipe(switch, rec, ns(20), ns(21));
    record_esrap_normalize(switch, rec, ns(22));
    record_pipeline_parse(switch, rec, ns(23));
    record_pipeline_line_offsets(switch, rec, ns(24));
    record_pipeline_ensure_script(switch, rec, ns(25));
    record_pipeline_ts_removal(switch, rec, ns(26));
    record_pipeline_options_merge(switch, rec, ns(27));
    record_pipeline_analyze(switch, rec, ns(28));
    record_pipeline_transform(switch, rec, ns(29));
    record_pipeline_total(switch, rec, ns(1000));
}

fn nothing_recorded(rec: &mut Recorders) {
    let zero = Duration::zero();
    let p = take_breakdown(rec);
    for d in [
        p.visit_program,
        p.script_text_transform,
        p.template_fragment,
        p.assembly_after_fragment,
        p.css_render,
        p.codegen,
    ] {
        assert_eq!(d, zero);
    }
    let s = take_script_text_breakdown(rec);
    for d in [
        s.prenormalize,
        s.collect_vars,
        s.line_loop,
        s.process_accumulated,
        s.runes,
        s.reactive_stmt,
        s.ast_transforms,
        s.post_passes,
        s.in_function,
    ] {
        assert_eq!(d, zero);
    }
    for n in [
        s.statements,
        s.reactive_calls,
        s.calls,
        s.entries,
        s.parent_calls,
        s.nested_entries,
        s.parent_site_main,
        s.parent_site_pub,
        s.entries_outside_parent,
    ] {
        assert_eq!(n, 0);
    }
    let r = take_reparse_breakdown(rec);
    assert_eq!((r.parse, r.visit, r.direct_parse), (zero, zero, zero));
    assert_eq!((r.calls, r.bytes, r.direct_calls, r.direct_bytes), (0, 0, 0, 0));
    let e = take_esrap_breakdown(rec);
    for d in [
        e.client_split,
        e.client_map,
        e.client_plain,
        e.server_print,
        e.server_pipe_print,
        e.server_pipe_reparse,
        e.normalize_print,
    ] {
        assert_eq!(d, zero);
    }
    for n in [
        e.client_split_calls,
        e.client_map_calls,
        e.client_plain_calls,
        e.server_print_calls,
        e.server_pipe_calls,
        e.normalize_calls,
    ] {
        assert_eq!(n, 0);
    }
    let b = take_pipeline_breakdown(rec);
    for d in [
        b.parse,
        b.line_offsets,
        b.ensure_script,
        b.ts_removal,
        b.options_merge,
        b.analyze,
        b.transform,
        b.total,
    ] {
        assert_eq!(d, zero);
    }
    assert_eq!(b.compiles, 0);
    assert_eq!(take_timer_starts(rec), 0);
}

#[test]
fn timers_start_off_and_stand_as_last_set() {
    let mut switch = TimerSwitch::new(SHIPPED);
    assert!(!timers_enabled(&switch));
    set_timers_enabled(&mut switch, true);
    assert!(timers_enabled(&switch));
    set_timers_enabled(&mut switch, false);
    assert!(!timers_enabled(&switch));
}

#[test]
fn nothing_accumulates_while_off() {
    let switch = TimerSwitch::new(SHIPPED);
    let mut rec = Recorders::new();
    record_everything(&switch, &mut rec);
    nothing_recorded(&mut rec);
}

#[test]
fn nothing_accumulates_in_a_build_without_timers() {
    let mut switch =
        TimerSwitch::new(Build { has_clock: true, no_timers: true, counts_starts: true });
    set_timers_enabled(&mut switch, true);
    let mut rec = Recorders::new();
    record_everything(&switch, &mut rec);
    assert!(timer_start(&switch, &mut rec).is_none());
    nothing_recorded(&mut rec);
}

#[test]
fn every_recorder_lands_in_its_field() {
    let mut rec = Recorders::new();
    record_everything(&on(), &mut rec);
    record_everything(&on(), &mut rec);

    let p = take_breakdown(&mut rec);
    assert_eq!(p.visit_program, ns(2));
    assert_eq!(p.script_text_transform, ns(4));
    assert_eq!(p.template_fragment, ns(6));
    assert_eq!(p.assembly_after_fragment, ns(8));
    assert_eq!(p.css_render, ns(10));
    assert_eq!(p.codegen, ns(12));

    let s = take_script_text_breakdown(&mut rec);
    assert_eq!(s.prenormalize, ns(14));
    assert_eq!(s.collect_vars, ns(16));
    assert_eq!(s.line_loop, ns(18));
    assert_eq!(s.runes, ns(20));
    assert_eq!(s.ast_transforms, ns(22));
    assert_eq!(s.post_passes, ns(24));
    assert_eq!(s.calls, 2);
    assert_eq!(s.entries, 2);
    assert_eq!(s.parent_calls, 2);
    assert_eq!(s.parent_site_pub, 2);
    assert_eq!(s.parent_site_main, 4);
    assert_eq!(s.statements, 0);
    assert_eq!(s.nested_entries, 0);

    let r = take_reparse_breakdown(&mut rec);
    assert_eq!((r.parse, r.visit, r.calls, r.bytes), (ns(26), ns(28), 2, 300));
    assert_eq!((r.direct_parse, r.direct_calls, r.direct_bytes), (ns(30), 2, 320));

    let e = take_esrap_breakdown(&mut rec);
    assert_eq!((e.client_split, e.client_split_calls), (ns(32), 2));
    assert_eq!((e.client_map, e.client_map_calls), (ns(34), 2));
    assert_eq!((e.client_plain, e.client_plain_calls), (ns(36), 2));
    assert_eq!((e.server_print, e.server_print_calls), (ns(38), 2));
    assert_eq!((e.server_pipe_print, e.server_pipe_reparse), (ns(40), ns(42)));
    assert_eq!(e.server_pipe_calls, 2);
    assert_eq!((e.normalize_print, e.normalize_calls), (ns(44), 2));

    let b = take_pipeline_breakdown(&mut rec);
    assert_eq!(b.parse, ns(46));
    assert_eq!(b.line_offsets, ns(48));
    assert_eq!(b.ensure_script, ns(50));
    assert_eq!(b.ts_removal, ns(52));
    assert_eq!(b.options_merge, ns(54));
    assert_eq!(b.analyze, ns(56));
    assert_eq!(b.transform, ns(58));
    assert_eq!(b.total, ns(2000));
    assert_eq!(b.compiles, 2);
    assert_eq!(b.unattributed(), ns(2000 - 364));

    nothing_recorded(&mut rec);
}

#[test]
fn taking_one_breakdown_leaves_the_others() {
    let mut rec = Recorders::new();
    record_everything(&on(), &mut rec);
    take_pipeline_breakdown(&mut rec);
    assert_eq!(take_breakdown(&mut rec).codegen, ns(6));
    assert_eq!(take_pipeline_breakdown(&mut rec).compiles, 0);
    assert_eq!(take_script_text_breakdown(&mut rec).parent_calls, 1);
}

#[test]
fn unattributed_is_what_no_bucket_claims() {
    let mut b = PipelineBreakdown::default();
    assert_eq!(b.unattributed(), Duration::zero());
    b.total = Duration::new(10, 0);
    b.parse = Duration::new(3, 250_000_000);
    b.transform = Duration::new(4, 0);
    assert_eq!(b.unattributed(), Duration::new(2, 750_000_000));
    b.analyze = Duration::new(9, 0);
    assert_eq!(b.unattributed(), Duration::zero());
}

#[test]
fn a_timer_that_starts_off_reads_no_clock() {
    let switch = TimerSwitch::new(SHIPPED);
    let mut rec = Recorders::new();
    let start = timer_start(&switch, &mut rec);
    assert!(start.is_none());
    assert_eq!(timer_elapsed(start), Duration::zero());
}

#[test]
fn a_target_without_a_clock_reads_none_but_records() {
    let mut switch =
        TimerSwitch::new(Build { has_clock: false, no_timers: false, counts_starts: true });
    set_timers_enabled(&mut switch, true);
    let mut rec = Recorders::new();
    let start = timer_start(&switch, &mut rec);
    assert!(start.is_none());
    record_pipeline_total(&switch, &mut rec, timer_elapsed(start));
    let b = take_pipeline_breakdown(&mut rec);
    assert_eq!((b.total, b.compiles), (Duration::zero(), 1));
    assert_eq!(take_timer_starts(&mut rec), 0);
}

#[test]
fn a_running_timer_sees_time_pass() {
    let mut rec = Recorders::new();
    let start = timer_start(&on(), &mut rec);
    assert!(start.is_some());
    let before = std::time::Instant::now();
    while before.elapsed() < std::time::Duration::from_millis(2) {}
    let d = timer_elapsed(start);
    assert!(d.as_secs() > 0 || d.subsec_nanos() >= 2_000_000);
    assert!(d.as_secs() < 20);
}

#[test]
fn starts_are_counted_only_where_the_build_counts_them() {
    let mut rec = Recorders::new();
    timer_start(&on(), &mut rec);
    assert_eq!(take_timer_starts(&mut rec), 0);

    let mut switch =
        TimerSwitch::new(Build { has_clock: true, no_timers: false, counts_starts: true });
    timer_start(&switch, &mut rec);
    set_timers_enabled(&mut switch, true);
    timer_start(&switch, &mut rec);
    timer_start(&switch, &mut rec);
    assert_eq!(take_timer_starts(&mut rec), 2);
    assert_eq!(take_timer_starts(&mut rec), 0);
}

#[test]
fn room_is_judged_by_what_is_recorded() {
    let mut rec = Recorders::new();
    let longest = Duration::new(u64::MAX, 999_999_999);
    assert!(rec.has_room_for_time(Slot::Parse, longest));
    record_pipeline_parse(&on(), &mut rec, ns(1));
    assert!(!rec.has_room_for_time(Slot::Parse, longest));
    assert!(rec.has_room_for_time(Slot::Analyze, longest));
    assert!(rec.has_room_for_count(Slot::Compiles, u64::MAX));
    record_pipeline_total(&on(), &mut rec, ns(1));
    assert!(!rec.has_room_for_count(Slot::Compiles, u64::MAX));
    assert!(rec.has_room_for_count(Slot::Compiles, u64::MAX - 1));
}
