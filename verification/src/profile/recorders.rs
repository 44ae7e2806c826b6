//! What one thread has recorded.

use vstd::prelude::*;

use super::breakdown::{
    EsrapBreakdown, Phase3Breakdown, PipelineBreakdown, ReparseBreakdown, ScriptTextBreakdown,
};
use super::slot::{Group, Slot};
use super::switch::TimerSwitch;
use crate::duration::{max_nanos, Duration};

verus! {

/// The mathematical content of a thread's [`Recorders`].
#[verifier::ext_equal]
pub struct RecorderState {
    /// What every slot has accumulated.
    pub totals: spec_fn(Slot) -> nat,
    /// How many entries into the staged function are on the stack.
    pub depth: nat,
    /// How many parent intervals are open.
    pub parents_open: nat,
}

/// What a posting adds to `slot`.
pub open spec fn amount_in(posting: Map<Slot, nat>, slot: Slot) -> nat {
    if posting.dom().contains(slot) {
        posting[slot]
    } else {
        0
    }
}

impl RecorderState {
    /// Nothing recorded and nothing open.
    pub open spec fn empty() -> RecorderState {
        RecorderState { totals: |slot: Slot| 0, depth: 0, parents_open: 0 }
    }

    /// What `slot` has accumulated.
    pub open spec fn total(self, slot: Slot) -> nat {
        (self.totals)(slot)
    }

    /// The state after every slot has taken what `posting` gives it.
    pub open spec fn plus(self, posting: Map<Slot, nat>) -> RecorderState {
        RecorderState {
            totals: |slot: Slot| self.total(slot) + amount_in(posting, slot),
            ..self
        }
    }

    /// Whether every slot has room for what `posting` gives it.
    pub open spec fn has_room(self, posting: Map<Slot, nat>) -> bool {
        forall|slot: Slot| #[trigger]
            posting.dom().contains(slot) ==> self.total(slot) + posting[slot] <= slot.capacity()
    }

    /// The state after a recorder posts: the posting lands while the switch lets recorders run, and
    /// nothing changes otherwise.
    pub open spec fn post(self, switch: TimerSwitch, posting: Map<Slot, nat>) -> RecorderState {
        if switch.recording() {
            self.plus(posting)
        } else {
            self
        }
    }

    /// Whether a recorder can post: there is room, or the switch drops the posting.
    pub open spec fn admits(self, switch: TimerSwitch, posting: Map<Slot, nat>) -> bool {
        switch.recording() ==> self.has_room(posting)
    }

    /// The state after a timer starts: the start is counted where the build counts starts and the
    /// timer reads the clock.
    pub open spec fn started(self, switch: TimerSwitch) -> RecorderState {
        if switch.counting() {
            self.plus(map![Slot::TimerStarts => 1])
        } else {
            self
        }
    }

    /// The state after every slot of `group` is set back to nothing.
    pub open spec fn cleared(self, group: Group) -> RecorderState {
        RecorderState {
            totals: |slot: Slot|
                if slot.group() == group {
                    0
                } else {
                    self.total(slot)
                },
            ..self
        }
    }
}

/// The recorders of one thread.
#[derive(Debug)]
pub struct Recorders {
    phase3: Phase3Breakdown,
    script_text: ScriptTextBreakdown,
    reparse: ReparseBreakdown,
    esrap: EsrapBreakdown,
    pipeline: PipelineBreakdown,
    timer_starts: u64,
    depth: u64,
    parents_open: u64,
}

impl View for Recorders {
    type V = RecorderState;

    closed spec fn view(&self) -> RecorderState {
        RecorderState {
            totals: |slot: Slot| self.amount(slot),
            depth: self.depth as nat,
            parents_open: self.parents_open as nat,
        }
    }
}

impl Recorders {
    /// What `slot` holds.
    closed spec fn amount(self, slot: Slot) -> nat {
        match slot.group() {
            Group::Phase3 => self.phase3.amount(slot),
            Group::ScriptText => self.script_text.amount(slot),
            Group::Reparse => self.reparse.amount(slot),
            Group::Esrap => self.esrap.amount(slot),
            Group::Pipeline => self.pipeline.amount(slot),
            Group::TimerStarts => self.timer_starts as nat,
        }
    }

    /// The recorders of a thread that has recorded nothing.
    pub fn new() -> (r: Recorders)
        ensures
            r@ == RecorderState::empty(),
            forall|slot: Slot| #[trigger] r@.total(slot) == 0,
            r@.depth == 0,
            r@.parents_open == 0,
    {
        Recorders {
            phase3: Phase3Breakdown::default(),
            script_text: ScriptTextBreakdown::default(),
            reparse: ReparseBreakdown::default(),
            esrap: EsrapBreakdown::default(),
            pipeline: PipelineBreakdown::default(),
            timer_starts: 0,
            depth: 0,
            parents_open: 0,
        }
    }

    /// The time in `slot`.
    fn time(&self, slot: Slot) -> (r: Duration)
        requires
            slot.is_time(),
        ensures
            r@ == self@.total(slot),
    {
        match slot {
            Slot::VisitProgram => self.phase3.visit_program,
            Slot::ScriptTextTransform => self.phase3.script_text_transform,
            Slot::TemplateFragment => self.phase3.template_fragment,
            Slot::AssemblyAfterFragment => self.phase3.assembly_after_fragment,
            Slot::CssRender => self.phase3.css_render,
            Slot::Codegen => self.phase3.codegen,
            Slot::Prenormalize => self.script_text.prenormalize,
            Slot::CollectVars => self.script_text.collect_vars,
            Slot::LineLoop => self.script_text.line_loop,
            Slot::ProcessAccumulated => self.script_text.process_accumulated,
            Slot::Runes => self.script_text.runes,
            Slot::ReactiveStmt => self.script_text.reactive_stmt,
            Slot::AstTransforms => self.script_text.ast_transforms,
            Slot::PostPasses => self.script_text.post_passes,
            Slot::InFunction => self.script_text.in_function,
            Slot::ReparseParse => self.reparse.parse,
            Slot::ReparseVisit => self.reparse.visit,
            Slot::DirectParse => self.reparse.direct_parse,
            Slot::ClientSplit => self.esrap.client_split,
            Slot::ClientMap => self.esrap.client_map,
            Slot::ClientPlain => self.esrap.client_plain,
            Slot::ServerPrint => self.esrap.server_print,
            Slot::ServerPipePrint => self.esrap.server_pipe_print,
            Slot::ServerPipeReparse => self.esrap.server_pipe_reparse,
            Slot::NormalizePrint => self.esrap.normalize_print,
            Slot::Parse => self.pipeline.parse,
            Slot::LineOffsets => self.pipeline.line_offsets,
            Slot::EnsureScript => self.pipeline.ensure_script,
            Slot::TsRemoval => self.pipeline.ts_removal,
            Slot::OptionsMerge => self.pipeline.options_merge,
            Slot::Analyze => self.pipeline.analyze,
            Slot::Transform => self.pipeline.transform,
            Slot::Total => self.pipeline.total,
            _ => Duration::zero(),
        }
    }

    /// The count in `slot`.
    fn count(&self, slot: Slot) -> (r: u64)
        requires
            !slot.is_time(),
        ensures
            r == self@.total(slot),
    {
        match slot {
            Slot::Statements => self.script_text.statements,
            Slot::ReactiveCalls => self.script_text.reactive_calls,
            Slot::StagedCalls => self.script_text.calls,
            Slot::Entries => self.script_text.entries,
            Slot::ParentCalls => self.script_text.parent_calls,
            Slot::NestedEntries => self.script_text.nested_entries,
            Slot::ParentSiteMain => self.script_text.parent_site_main,
            Slot::ParentSitePub => self.script_text.parent_site_pub,
            Slot::EntriesOutsideParent => self.script_text.entries_outside_parent,
            Slot::ReparseCalls => self.reparse.calls,
            Slot::ReparseBytes => self.reparse.bytes,
            Slot::DirectCalls => self.reparse.direct_calls,
            Slot::DirectBytes => self.reparse.direct_bytes,
            Slot::ClientSplitCalls => self.esrap.client_split_calls,
            Slot::ClientMapCalls => self.esrap.client_map_calls,
            Slot::ClientPlainCalls => self.esrap.client_plain_calls,
            Slot::ServerPrintCalls => self.esrap.server_print_calls,
            Slot::ServerPipeCalls => self.esrap.server_pipe_calls,
            Slot::NormalizeCalls => self.esrap.normalize_calls,
            Slot::Compiles => self.pipeline.compiles,
            Slot::TimerStarts => self.timer_starts,
            _ => 0,
        }
    }

    /// Whether the time in `slot` can grow by `d`.
    pub fn has_room_for_time(&self, slot: Slot, d: Duration) -> (r: bool)
        requires
            slot.is_time(),
        ensures
            r == (self@.total(slot) + d@ <= max_nanos()),
            r == (self@.total(slot) + d@ <= u64::MAX * 1_000_000_000 + 999_999_999),
            d@ == 0 ==> r,
    {
        let now = self.time(slot);
        proof {
            use_type_invariant(&now);
            now.lemma_bounded();
        }
        now.checked_add(d).is_some()
    }

    /// Whether the count in `slot` can grow by `n`.
    pub fn has_room_for_count(&self, slot: Slot, n: u64) -> (r: bool)
        requires
            !slot.is_time(),
        ensures
            r == (self@.total(slot) + n <= u64::MAX),
    {
        self.count(slot) <= u64::MAX - n
    }

    /// How many entries into the staged function are on the stack.
    pub fn depth(&self) -> (r: u64)
        ensures
            r == self@.depth,
    {
        self.depth
    }

    /// How many parent intervals are open.
    pub fn parents_open(&self) -> (r: u64)
        ensures
            r == self@.parents_open,
    {
        self.parents_open
    }

    /// Sets how many entries into the staged function are on the stack.
    pub(super) fn set_depth(&mut self, depth: u64)
        ensures
            final(self)@ == (RecorderState { depth: depth as nat, ..old(self)@ }),
    {
        self.depth = depth;
    }

    /// Sets how many parent intervals are open.
    pub(super) fn set_parents_open(&mut self, parents_open: u64)
        ensures
            final(self)@ == (RecorderState { parents_open: parents_open as nat, ..old(self)@ }),
    {
        self.parents_open = parents_open;
    }

    /// Adds `d` to the time in `slot`.
    #[verifier::rlimit(40)]
    pub(super) fn add_time(&mut self, slot: Slot, d: Duration)
        requires
            slot.is_time(),
            old(self)@.total(slot) + d@ <= max_nanos(),
        ensures
            final(self)@ == old(self)@.plus(map![slot => d@]),
            forall|other: Slot| #[trigger]
                final(self)@.total(other) == old(self)@.total(other) + if other == slot {
                    d@
                } else {
                    0nat
                },
            final(self)@.depth == old(self)@.depth,
            final(self)@.parents_open == old(self)@.parents_open,
    {
        match slot {
            Slot::VisitProgram => self.phase3.visit_program = self.phase3.visit_program.plus(d),
            Slot::ScriptTextTransform => self.phase3.script_text_transform = self.phase3.script_text_transform.plus(d),
            Slot::TemplateFragment => self.phase3.template_fragment = self.phase3.template_fragment.plus(d),
            Slot::AssemblyAfterFragment => self.phase3.assembly_after_fragment = self.phase3.assembly_after_fragment.plus(d),
            Slot::CssRender => self.phase3.css_render = self.phase3.css_render.plus(d),
            Slot::Codegen => self.phase3.codegen = self.phase3.codegen.plus(d),
            Slot::Prenormalize => self.script_text.prenormalize = self.script_text.prenormalize.plus(d),
            Slot::CollectVars => self.script_text.collect_vars = self.script_text.collect_vars.plus(d),
            Slot::LineLoop => self.script_text.line_loop = self.script_text.line_loop.plus(d),
            Slot::ProcessAccumulated => self.script_text.process_accumulated = self.script_text.process_accumulated.plus(d),
            Slot::Runes => self.script_text.runes = self.script_text.runes.plus(d),
            Slot::ReactiveStmt => self.script_text.reactive_stmt = self.script_text.reactive_stmt.plus(d),
            Slot::AstTransforms => self.script_text.ast_transforms = self.script_text.ast_transforms.plus(d),
            Slot::PostPasses => self.script_text.post_passes = self.script_text.post_passes.plus(d),
            Slot::InFunction => self.script_text.in_function = self.script_text.in_function.plus(d),
            Slot::ReparseParse => self.reparse.parse = self.reparse.parse.plus(d),
            Slot::ReparseVisit => self.reparse.visit = self.reparse.visit.plus(d),
            Slot::DirectParse => self.reparse.direct_parse = self.reparse.direct_parse.plus(d),
            Slot::ClientSplit => self.esrap.client_split = self.esrap.client_split.plus(d),
            Slot::ClientMap => self.esrap.client_map = self.esrap.client_map.plus(d),
            Slot::ClientPlain => self.esrap.client_plain = self.esrap.client_plain.plus(d),
            Slot::ServerPrint => self.esrap.server_print = self.esrap.server_print.plus(d),
            Slot::ServerPipePrint => self.esrap.server_pipe_print = self.esrap.server_pipe_print.plus(d),
            Slot::ServerPipeReparse => self.esrap.server_pipe_reparse = self.esrap.server_pipe_reparse.plus(d),
            Slot::NormalizePrint => self.esrap.normalize_print = self.esrap.normalize_print.plus(d),
            Slot::Parse => self.pipeline.parse = self.pipeline.parse.plus(d),
            Slot::LineOffsets => self.pipeline.line_offsets = self.pipeline.line_offsets.plus(d),
            Slot::EnsureScript => self.pipeline.ensure_script = self.pipeline.ensure_script.plus(d),
            Slot::TsRemoval => self.pipeline.ts_removal = self.pipeline.ts_removal.plus(d),
            Slot::OptionsMerge => self.pipeline.options_merge = self.pipeline.options_merge.plus(d),
            Slot::Analyze => self.pipeline.analyze = self.pipeline.analyze.plus(d),
            Slot::Transform => self.pipeline.transform = self.pipeline.transform.plus(d),
            Slot::Total => self.pipeline.total = self.pipeline.total.plus(d),
            _ => {},
        }
    }

    /// Adds `n` to the count in `slot`.
    #[verifier::rlimit(40)]
    pub(super) fn add_count(&mut self, slot: Slot, n: u64)
        requires
            !slot.is_time(),
            old(self)@.total(slot) + n <= u64::MAX,
        ensures
            final(self)@ == old(self)@.plus(map![slot => n as nat]),
            forall|other: Slot| #[trigger]
                final(self)@.total(other) == old(self)@.total(other) + if other == slot {
                    n as nat
                } else {
                    0nat
                },
            final(self)@.depth == old(self)@.depth,
            final(self)@.parents_open == old(self)@.parents_open,
    {
        match slot {
            Slot::Statements => self.script_text.statements = self.script_text.statements + n,
            Slot::ReactiveCalls => self.script_text.reactive_calls = self.script_text.reactive_calls + n,
            Slot::StagedCalls => self.script_text.calls = self.script_text.calls + n,
            Slot::Entries => self.script_text.entries = self.script_text.entries + n,
            Slot::ParentCalls => self.script_text.parent_calls = self.script_text.parent_calls + n,
            Slot::NestedEntries => self.script_text.nested_entries = self.script_text.nested_entries + n,
            Slot::ParentSiteMain => self.script_text.parent_site_main = self.script_text.parent_site_main + n,
            Slot::ParentSitePub => self.script_text.parent_site_pub = self.script_text.parent_site_pub + n,
            Slot::EntriesOutsideParent => self.script_text.entries_outside_parent = self.script_text.entries_outside_parent + n,
            Slot::ReparseCalls => self.reparse.calls = self.reparse.calls + n,
            Slot::ReparseBytes => self.reparse.bytes = self.reparse.bytes + n,
            Slot::DirectCalls => self.reparse.direct_calls = self.reparse.direct_calls + n,
            Slot::DirectBytes => self.reparse.direct_bytes = self.reparse.direct_bytes + n,
            Slot::ClientSplitCalls => self.esrap.client_split_calls = self.esrap.client_split_calls + n,
            Slot::ClientMapCalls => self.esrap.client_map_calls = self.esrap.client_map_calls + n,
            Slot::ClientPlainCalls => self.esrap.client_plain_calls = self.esrap.client_plain_calls + n,
            Slot::ServerPrintCalls => self.esrap.server_print_calls = self.esrap.server_print_calls + n,
            Slot::ServerPipeCalls => self.esrap.server_pipe_calls = self.esrap.server_pipe_calls + n,
            Slot::NormalizeCalls => self.esrap.normalize_calls = self.esrap.normalize_calls + n,
            Slot::Compiles => self.pipeline.compiles = self.pipeline.compiles + n,
            Slot::TimerStarts => self.timer_starts = self.timer_starts + n,
            _ => {},
        }
    }
}

/// Takes what re-parsing cost, as recorded since it was last taken, and sets it back to nothing.
pub fn take_reparse_breakdown(rec: &mut Recorders) -> (r: ReparseBreakdown)
    ensures
        r.reports(old(rec)@),
        final(rec)@ == old(rec)@.cleared(Group::Reparse),
        r.parse@ == old(rec)@.total(Slot::ReparseParse),
        r.visit@ == old(rec)@.total(Slot::ReparseVisit),
        r.calls == old(rec)@.total(Slot::ReparseCalls),
        r.bytes == old(rec)@.total(Slot::ReparseBytes),
        r.direct_parse@ == old(rec)@.total(Slot::DirectParse),
        r.direct_calls == old(rec)@.total(Slot::DirectCalls),
        r.direct_bytes == old(rec)@.total(Slot::DirectBytes),
        forall|slot: Slot| #[trigger]
            final(rec)@.total(slot) == match slot {
                Slot::ReparseParse
                | Slot::ReparseVisit
                | Slot::ReparseCalls
                | Slot::ReparseBytes
                | Slot::DirectParse
                | Slot::DirectCalls
                | Slot::DirectBytes => 0,
                _ => old(rec)@.total(slot),
            },
        final(rec)@.depth == old(rec)@.depth,
        final(rec)@.parents_open == old(rec)@.parents_open,
{
    let taken = rec.reparse;
    rec.reparse = ReparseBreakdown::default();
    taken
}

/// Takes what the printer cost, as recorded since it was last taken, and sets it back to nothing.
pub fn take_esrap_breakdown(rec: &mut Recorders) -> (r: EsrapBreakdown)
    ensures
        r.reports(old(rec)@),
        final(rec)@ == old(rec)@.cleared(Group::Esrap),
        r.client_split@ == old(rec)@.total(Slot::ClientSplit),
        r.client_split_calls == old(rec)@.total(Slot::ClientSplitCalls),
        r.client_map@ == old(rec)@.total(Slot::ClientMap),
        r.client_map_calls == old(rec)@.total(Slot::ClientMapCalls),
        r.client_plain@ == old(rec)@.total(Slot::ClientPlain),
        r.client_plain_calls == old(rec)@.total(Slot::ClientPlainCalls),
        r.server_print@ == old(rec)@.total(Slot::ServerPrint),
        r.server_print_calls == old(rec)@.total(Slot::ServerPrintCalls),
        r.server_pipe_print@ == old(rec)@.total(Slot::ServerPipePrint),
        r.server_pipe_reparse@ == old(rec)@.total(Slot::ServerPipeReparse),
        r.server_pipe_calls == old(rec)@.total(Slot::ServerPipeCalls),
        r.normalize_print@ == old(rec)@.total(Slot::NormalizePrint),
        r.normalize_calls == old(rec)@.total(Slot::NormalizeCalls),
        forall|slot: Slot| #[trigger]
            final(rec)@.total(slot) == match slot {
                Slot::ClientSplit
                | Slot::ClientSplitCalls
                | Slot::ClientMap
                | Slot::ClientMapCalls
                | Slot::ClientPlain
                | Slot::ClientPlainCalls
                | Slot::ServerPrint
                | Slot::ServerPrintCalls
                | Slot::ServerPipePrint
                | Slot::ServerPipeReparse
                | Slot::ServerPipeCalls
                | Slot::NormalizePrint
                | Slot::NormalizeCalls => 0,
                _ => old(rec)@.total(slot),
            },
        final(rec)@.depth == old(rec)@.depth,
        final(rec)@.parents_open == old(rec)@.parents_open,
{
    let taken = rec.esrap;
    rec.esrap = EsrapBreakdown::default();
    taken
}

/// Takes the split of the script text transform, as recorded since it was last taken, and sets it back to nothing.
pub fn take_script_text_breakdown(rec: &mut Recorders) -> (r: ScriptTextBreakdown)
    ensures
        r.reports(old(rec)@),
        final(rec)@ == old(rec)@.cleared(Group::ScriptText),
        r.prenormalize@ == old(rec)@.total(Slot::Prenormalize),
        r.collect_vars@ == old(rec)@.total(Slot::CollectVars),
        r.line_loop@ == old(rec)@.total(Slot::LineLoop),
        r.process_accumulated@ == old(rec)@.total(Slot::ProcessAccumulated),
        r.statements == old(rec)@.total(Slot::Statements),
        r.runes@ == old(rec)@.total(Slot::Runes),
        r.reactive_stmt@ == old(rec)@.total(Slot::ReactiveStmt),
        r.reactive_calls == old(rec)@.total(Slot::ReactiveCalls),
        r.ast_transforms@ == old(rec)@.total(Slot::AstTransforms),
        r.post_passes@ == old(rec)@.total(Slot::PostPasses),
        r.calls == old(rec)@.total(Slot::StagedCalls),
        r.entries == old(rec)@.total(Slot::Entries),
        r.parent_calls == old(rec)@.total(Slot::ParentCalls),
        r.nested_entries == old(rec)@.total(Slot::NestedEntries),
        r.parent_site_main == old(rec)@.total(Slot::ParentSiteMain),
        r.parent_site_pub == old(rec)@.total(Slot::ParentSitePub),
        r.in_function@ == old(rec)@.total(Slot::InFunction),
        r.entries_outside_parent == old(rec)@.total(Slot::EntriesOutsideParent),
        forall|slot: Slot| #[trigger]
            final(rec)@.total(slot) == match slot {
                Slot::Prenormalize
                | Slot::CollectVars
                | Slot::LineLoop
                | Slot::ProcessAccumulated
                | Slot::Statements
                | Slot::Runes
                | Slot::ReactiveStmt
                | Slot::ReactiveCalls
                | Slot::AstTransforms
                | Slot::PostPasses
                | Slot::StagedCalls
                | Slot::Entries
                | Slot::ParentCalls
                | Slot::NestedEntries
                | Slot::ParentSiteMain
                | Slot::ParentSitePub
                | Slot::InFunction
                | Slot::EntriesOutsideParent => 0,
                _ => old(rec)@.total(slot),
            },
        final(rec)@.depth == old(rec)@.depth,
        final(rec)@.parents_open == old(rec)@.parents_open,
{
    let taken = rec.script_text;
    rec.script_text = ScriptTextBreakdown::default();
    taken
}

/// Takes the split of the compiles, as recorded since it was last taken, and sets it back to nothing.
pub fn take_pipeline_breakdown(rec: &mut Recorders) -> (r: PipelineBreakdown)
    ensures
        r.reports(old(rec)@),
        final(rec)@ == old(rec)@.cleared(Group::Pipeline),
        r.parse@ == old(rec)@.total(Slot::Parse),
        r.line_offsets@ == old(rec)@.total(Slot::LineOffsets),
        r.ensure_script@ == old(rec)@.total(Slot::EnsureScript),
        r.ts_removal@ == old(rec)@.total(Slot::TsRemoval),
        r.options_merge@ == old(rec)@.total(Slot::OptionsMerge),
        r.analyze@ == old(rec)@.total(Slot::Analyze),
        r.transform@ == old(rec)@.total(Slot::Transform),
        r.total@ == old(rec)@.total(Slot::Total),
        r.compiles == old(rec)@.total(Slot::Compiles),
        forall|slot: Slot| #[trigger]
            final(rec)@.total(slot) == match slot {
                Slot::Parse
                | Slot::LineOffsets
                | Slot::EnsureScript
                | Slot::TsRemoval
                | Slot::OptionsMerge
                | Slot::Analyze
                | Slot::Transform
                | Slot::Total
                | Slot::Compiles => 0,
                _ => old(rec)@.total(slot),
            },
        final(rec)@.depth == old(rec)@.depth,
        final(rec)@.parents_open == old(rec)@.parents_open,
{
    let taken = rec.pipeline;
    rec.pipeline = PipelineBreakdown::default();
    taken
}

/// Takes the split of the transform phase, as recorded since it was last taken, and sets it back to nothing.
pub fn take_breakdown(rec: &mut Recorders) -> (r: Phase3Breakdown)
    ensures
        r.reports(old(rec)@),
        final(rec)@ == old(rec)@.cleared(Group::Phase3),
        r.visit_program@ == old(rec)@.total(Slot::VisitProgram),
        r.script_text_transform@ == old(rec)@.total(Slot::ScriptTextTransform),
        r.template_fragment@ == old(rec)@.total(Slot::TemplateFragment),
        r.assembly_after_fragment@ == old(rec)@.total(Slot::AssemblyAfterFragment),
        r.css_render@ == old(rec)@.total(Slot::CssRender),
        r.codegen@ == old(rec)@.total(Slot::Codegen),
        forall|slot: Slot| #[trigger]
            final(rec)@.total(slot) == match slot {
                Slot::VisitProgram
                | Slot::ScriptTextTransform
                | Slot::TemplateFragment
                | Slot::AssemblyAfterFragment
                | Slot::CssRender
                | Slot::Codegen => 0,
                _ => old(rec)@.total(slot),
            },
        final(rec)@.depth == old(rec)@.depth,
        final(rec)@.parents_open == old(rec)@.parents_open,
{
    let taken = rec.phase3;
    rec.phase3 = Phase3Breakdown::default();
    taken
}

/// The number of timers started since the last call, which is then set back to zero.
pub fn take_timer_starts(rec: &mut Recorders) -> (r: u64)
    ensures
        r == old(rec)@.total(Slot::TimerStarts),
        final(rec)@ == old(rec)@.cleared(Group::TimerStarts),
        forall|slot: Slot| #[trigger]
            final(rec)@.total(slot) == match slot {
                Slot::TimerStarts => 0,
                _ => old(rec)@.total(slot),
            },
        final(rec)@.depth == old(rec)@.depth,
        final(rec)@.parents_open == old(rec)@.parents_open,
{
    let starts: u64 = rec.timer_starts;
    rec.timer_starts = 0;
    starts
}

} // verus!
