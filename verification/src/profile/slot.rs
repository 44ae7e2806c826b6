//! The slots that a thread's recorders keep.

use vstd::prelude::*;

use crate::duration::max_nanos;

verus! {

/// The breakdown that a slot is reported in.
#[derive(Clone, Copy, Debug, PartialEq, Eq, Structural)]
pub enum Group {
    Phase3,
    ScriptText,
    Reparse,
    Esrap,
    Pipeline,
    TimerStarts,
}

/// One recorded quantity: a time in nanoseconds or a count.
#[derive(Clone, Copy, Debug, PartialEq, Eq, Structural)]
pub enum Slot {
    /// [`Phase3Breakdown::visit_program`](super::Phase3Breakdown::visit_program)
    VisitProgram,
    /// [`Phase3Breakdown::script_text_transform`](super::Phase3Breakdown::script_text_transform)
    ScriptTextTransform,
    /// [`Phase3Breakdown::template_fragment`](super::Phase3Breakdown::template_fragment)
    TemplateFragment,
    /// [`Phase3Breakdown::assembly_after_fragment`](super::Phase3Breakdown::assembly_after_fragment)
    AssemblyAfterFragment,
    /// [`Phase3Breakdown::css_render`](super::Phase3Breakdown::css_render)
    CssRender,
    /// [`Phase3Breakdown::codegen`](super::Phase3Breakdown::codegen)
    Codegen,
    /// [`ScriptTextBreakdown::prenormalize`](super::ScriptTextBreakdown::prenormalize)
    Prenormalize,
    /// [`ScriptTextBreakdown::collect_vars`](super::ScriptTextBreakdown::collect_vars)
    CollectVars,
    /// [`ScriptTextBreakdown::line_loop`](super::ScriptTextBreakdown::line_loop)
    LineLoop,
    /// [`ScriptTextBreakdown::process_accumulated`](super::ScriptTextBreakdown::process_accumulated)
    ProcessAccumulated,
    /// [`ScriptTextBreakdown::statements`](super::ScriptTextBreakdown::statements)
    Statements,
    /// [`ScriptTextBreakdown::runes`](super::ScriptTextBreakdown::runes)
    Runes,
    /// [`ScriptTextBreakdown::reactive_stmt`](super::ScriptTextBreakdown::reactive_stmt)
    ReactiveStmt,
    /// [`ScriptTextBreakdown::reactive_calls`](super::ScriptTextBreakdown::reactive_calls)
    ReactiveCalls,
    /// [`ScriptTextBreakdown::ast_transforms`](super::ScriptTextBreakdown::ast_transforms)
    AstTransforms,
    /// [`ScriptTextBreakdown::post_passes`](super::ScriptTextBreakdown::post_passes)
    PostPasses,
    /// [`ScriptTextBreakdown::calls`](super::ScriptTextBreakdown::calls)
    StagedCalls,
    /// [`ScriptTextBreakdown::entries`](super::ScriptTextBreakdown::entries)
    Entries,
    /// [`ScriptTextBreakdown::parent_calls`](super::ScriptTextBreakdown::parent_calls)
    ParentCalls,
    /// [`ScriptTextBreakdown::nested_entries`](super::ScriptTextBreakdown::nested_entries)
    NestedEntries,
    /// [`ScriptTextBreakdown::parent_site_main`](super::ScriptTextBreakdown::parent_site_main)
    ParentSiteMain,
    /// [`ScriptTextBreakdown::parent_site_pub`](super::ScriptTextBreakdown::parent_site_pub)
    ParentSitePub,
    /// [`ScriptTextBreakdown::in_function`](super::ScriptTextBreakdown::in_function)
    InFunction,
    /// [`ScriptTextBreakdown::entries_outside_parent`](super::ScriptTextBreakdown::entries_outside_parent)
    EntriesOutsideParent,
    /// [`ReparseBreakdown::parse`](super::ReparseBreakdown::parse)
    ReparseParse,
    /// [`ReparseBreakdown::visit`](super::ReparseBreakdown::visit)
    ReparseVisit,
    /// [`ReparseBreakdown::calls`](super::ReparseBreakdown::calls)
    ReparseCalls,
    /// [`ReparseBreakdown::bytes`](super::ReparseBreakdown::bytes)
    ReparseBytes,
    /// [`ReparseBreakdown::direct_parse`](super::ReparseBreakdown::direct_parse)
    DirectParse,
    /// [`ReparseBreakdown::direct_calls`](super::ReparseBreakdown::direct_calls)
    DirectCalls,
    /// [`ReparseBreakdown::direct_bytes`](super::ReparseBreakdown::direct_bytes)
    DirectBytes,
    /// [`EsrapBreakdown::client_split`](super::EsrapBreakdown::client_split)
    ClientSplit,
    /// [`EsrapBreakdown::client_split_calls`](super::EsrapBreakdown::client_split_calls)
    ClientSplitCalls,
    /// [`EsrapBreakdown::client_map`](super::EsrapBreakdown::client_map)
    ClientMap,
    /// [`EsrapBreakdown::client_map_calls`](super::EsrapBreakdown::client_map_calls)
    ClientMapCalls,
    /// [`EsrapBreakdown::client_plain`](super::EsrapBreakdown::client_plain)
    ClientPlain,
    /// [`EsrapBreakdown::client_plain_calls`](super::EsrapBreakdown::client_plain_calls)
    ClientPlainCalls,
    /// [`EsrapBreakdown::server_print`](super::EsrapBreakdown::server_print)
    ServerPrint,
    /// [`EsrapBreakdown::server_print_calls`](super::EsrapBreakdown::server_print_calls)
    ServerPrintCalls,
    /// [`EsrapBreakdown::server_pipe_print`](super::EsrapBreakdown::server_pipe_print)
    ServerPipePrint,
    /// [`EsrapBreakdown::server_pipe_reparse`](super::EsrapBreakdown::server_pipe_reparse)
    ServerPipeReparse,
    /// [`EsrapBreakdown::server_pipe_calls`](super::EsrapBreakdown::server_pipe_calls)
    ServerPipeCalls,
    /// [`EsrapBreakdown::normalize_print`](super::EsrapBreakdown::normalize_print)
    NormalizePrint,
    /// [`EsrapBreakdown::normalize_calls`](super::EsrapBreakdown::normalize_calls)
    NormalizeCalls,
    /// [`PipelineBreakdown::parse`](super::PipelineBreakdown::parse)
    Parse,
    /// [`PipelineBreakdown::line_offsets`](super::PipelineBreakdown::line_offsets)
    LineOffsets,
    /// [`PipelineBreakdown::ensure_script`](super::PipelineBreakdown::ensure_script)
    EnsureScript,
    /// [`PipelineBreakdown::ts_removal`](super::PipelineBreakdown::ts_removal)
    TsRemoval,
    /// [`PipelineBreakdown::options_merge`](super::PipelineBreakdown::options_merge)
    OptionsMerge,
    /// [`PipelineBreakdown::analyze`](super::PipelineBreakdown::analyze)
    Analyze,
    /// [`PipelineBreakdown::transform`](super::PipelineBreakdown::transform)
    Transform,
    /// [`PipelineBreakdown::total`](super::PipelineBreakdown::total)
    Total,
    /// [`PipelineBreakdown::compiles`](super::PipelineBreakdown::compiles)
    Compiles,
    /// Timers started while starts are counted.
    TimerStarts,
}

impl Slot {
    /// The breakdown that this slot belongs to.
    pub open spec fn group(self) -> Group {
        match self {
            Slot::VisitProgram
            | Slot::ScriptTextTransform
            | Slot::TemplateFragment
            | Slot::AssemblyAfterFragment
            | Slot::CssRender
            | Slot::Codegen => Group::Phase3,
            Slot::Prenormalize
            | Slot::CollectVars
            | Slot::LineLoop
            | Slot::ProcessAccumulated
            | Slot::Statements
            | Slot::Runes
            | Slot::ReactiveStmt
            | Slot::ReactiveCalls
            | Slot::AstTransforms
            | Slot::PostPasses
            | Slot::StagedCalls
            | Slot::Entries
            | Slot::ParentCalls
            | Slot::NestedEntries
            | Slot::ParentSiteMain
            | Slot::ParentSitePub
            | Slot::InFunction
            | Slot::EntriesOutsideParent => Group::ScriptText,
            Slot::ReparseParse
            | Slot::ReparseVisit
            | Slot::ReparseCalls
            | Slot::ReparseBytes
            | Slot::DirectParse
            | Slot::DirectCalls
            | Slot::DirectBytes => Group::Reparse,
            Slot::ClientSplit
            | Slot::ClientSplitCalls
            | Slot::ClientMap
            | Slot::ClientMapCalls
            | Slot::ClientPlain
            | Slot::ClientPlainCalls
            | Slot::ServerPrint
            | Slot::ServerPrintCalls
            | Slot::ServerPipePrint
            | Slot::ServerPipeReparse
            | Slot::ServerPipeCalls
            | Slot::NormalizePrint
            | Slot::NormalizeCalls => Group::Esrap,
            Slot::Parse
            | Slot::LineOffsets
            | Slot::EnsureScript
            | Slot::TsRemoval
            | Slot::OptionsMerge
            | Slot::Analyze
            | Slot::Transform
            | Slot::Total
            | Slot::Compiles => Group::Pipeline,
            Slot::TimerStarts => Group::TimerStarts,
        }
    }

    /// Whether this slot holds a time rather than a count.
    pub open spec fn is_time(self) -> bool {
        match self {
            Slot::VisitProgram
            | Slot::ScriptTextTransform
            | Slot::TemplateFragment
            | Slot::AssemblyAfterFragment
            | Slot::CssRender
            | Slot::Codegen
            | Slot::Prenormalize
            | Slot::CollectVars
            | Slot::LineLoop
            | Slot::ProcessAccumulated
            | Slot::Runes
            | Slot::ReactiveStmt
            | Slot::AstTransforms
            | Slot::PostPasses
            | Slot::InFunction
            | Slot::ReparseParse
            | Slot::ReparseVisit
            | Slot::DirectParse
            | Slot::ClientSplit
            | Slot::ClientMap
            | Slot::ClientPlain
            | Slot::ServerPrint
            | Slot::ServerPipePrint
            | Slot::ServerPipeReparse
            | Slot::NormalizePrint
            | Slot::Parse
            | Slot::LineOffsets
            | Slot::EnsureScript
            | Slot::TsRemoval
            | Slot::OptionsMerge
            | Slot::Analyze
            | Slot::Transform
            | Slot::Total => true,
            _ => false,
        }
    }

    /// The largest amount that this slot can hold.
    pub open spec fn capacity(self) -> nat {
        if self.is_time() {
            max_nanos()
        } else {
            u64::MAX as nat
        }
    }
}

} // verus!
