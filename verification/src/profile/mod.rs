//! Timers and counters that split a compile into its phases.

mod breakdown;
mod clock;
mod guard;
pub mod laws;
mod record;
mod recorders;
mod slot;
mod switch;

pub use breakdown::{
    EsrapBreakdown, Phase3Breakdown, PipelineBreakdown, ReparseBreakdown, ScriptTextBreakdown,
};
pub use clock::{clock_reading, elapsed_reading, timer_elapsed, timer_start, TimerStart};
pub use guard::{
    in_function_posting, leave_entry, posted_if_room, reactive_posting, record_reactive_stmt,
    record_statement, statement_posting, EntryGuard, ParentScope, ProcessAccumulatedGuard,
    ReactiveStmtGuard,
};
pub use record::{
    parent_site, record_assembly_after_fragment, record_codegen, record_css_render,
    record_direct_parse, record_esrap_client_map, record_esrap_client_plain,
    record_esrap_client_split, record_esrap_normalize, record_esrap_pipe, record_esrap_server,
    record_parent_site, record_pipeline_analyze, record_pipeline_ensure_script,
    record_pipeline_line_offsets, record_pipeline_options_merge, record_pipeline_parse,
    record_pipeline_total, record_pipeline_transform, record_pipeline_ts_removal,
    record_reparse, record_script_text, record_st_ast_transforms, record_st_collect_vars,
    record_st_entry, record_st_line_loop, record_st_post_passes, record_st_prenormalize,
    record_st_runes, record_template_fragment, record_visit_program,
};
pub use recorders::{
    amount_in, take_breakdown, take_esrap_breakdown, take_pipeline_breakdown,
    take_reparse_breakdown, take_script_text_breakdown, take_timer_starts, RecorderState,
    Recorders,
};
pub use slot::{Group, Slot};
pub use switch::{set_timers_enabled, timers_enabled, Build, TimerSwitch};
