//! What the recorders report: one breakdown per area of the compiler.

use vstd::prelude::*;

use super::recorders::RecorderState;
use super::slot::Slot;
use crate::duration::{max_nanos, Duration};

verus! {

/// How the transform phase of a compile splits into its parts.
#[derive(Clone, Copy, Debug)]
pub struct Phase3Breakdown {
    /// Walking the parsed program.
    pub visit_program: Duration,
    /// Transforming the text of the instance script. [`ScriptTextBreakdown`] splits it further.
    pub script_text_transform: Duration,
    /// Walking the template fragment.
    pub template_fragment: Duration,
    /// Assembling the output once the fragment is done.
    pub assembly_after_fragment: Duration,
    /// Rendering the style sheet.
    pub css_render: Duration,
    /// Generating the script text.
    pub codegen: Duration,
}

impl Phase3Breakdown {
    /// What this breakdown holds in `slot`, and nothing for a slot of another breakdown.
    pub open spec fn amount(self, slot: Slot) -> nat {
        match slot {
            Slot::VisitProgram => self.visit_program@,
            Slot::ScriptTextTransform => self.script_text_transform@,
            Slot::TemplateFragment => self.template_fragment@,
            Slot::AssemblyAfterFragment => self.assembly_after_fragment@,
            Slot::CssRender => self.css_render@,
            Slot::Codegen => self.codegen@,
            _ => 0,
        }
    }

    /// Whether this breakdown reports what `state` holds in its slots.
    pub open spec fn reports(self, state: RecorderState) -> bool {
        &&& self.visit_program@ == state.total(Slot::VisitProgram)
        &&& self.script_text_transform@ == state.total(Slot::ScriptTextTransform)
        &&& self.template_fragment@ == state.total(Slot::TemplateFragment)
        &&& self.assembly_after_fragment@ == state.total(Slot::AssemblyAfterFragment)
        &&& self.css_render@ == state.total(Slot::CssRender)
        &&& self.codegen@ == state.total(Slot::Codegen)
    }
}

impl Default for Phase3Breakdown {
    /// Nothing recorded.
    fn default() -> (r: Self)
        ensures
            r.reports(RecorderState::empty()),
            r.visit_program@ == 0,
            r.script_text_transform@ == 0,
            r.template_fragment@ == 0,
            r.assembly_after_fragment@ == 0,
            r.css_render@ == 0,
            r.codegen@ == 0,
    {
        Phase3Breakdown {
            visit_program: Duration::zero(),
            script_text_transform: Duration::zero(),
            template_fragment: Duration::zero(),
            assembly_after_fragment: Duration::zero(),
            css_render: Duration::zero(),
            codegen: Duration::zero(),
        }
    }
}

/// One level below [`Phase3Breakdown::script_text_transform`].
///
/// The stages are timed on their own and so is their parent: their sum is not promised to equal
/// the parent's time.
#[derive(Clone, Copy, Debug)]
pub struct ScriptTextBreakdown {
    /// Stripping comments and parentheses, class fields, comma splits.
    pub prenormalize: Duration,
    /// Gathering the variable sets from the script text.
    pub collect_vars: Duration,
    /// The line-by-line loop, `process_accumulated` included.
    pub line_loop: Duration,
    /// The part of `line_loop` spent on completed statements.
    pub process_accumulated: Duration,
    /// Completed statements handed to the processor.
    pub statements: u64,
    /// Rewriting runes, statement by statement.
    pub runes: Duration,
    /// The branch for legacy reactive statements.
    pub reactive_stmt: Duration,
    /// Times the legacy reactive branch was taken.
    pub reactive_calls: u64,
    /// Appending reactive statements and transforming the tree.
    pub ast_transforms: Duration,
    /// The passes after the transforms.
    pub post_passes: Duration,
    /// Calls that reached the staged region.
    pub calls: u64,
    /// Every entry into the staged function, early exits included.
    pub entries: u64,
    /// Every recording of the parent timer. Differs from `entries` where staged work ran outside
    /// the parent timer.
    pub parent_calls: u64,
    /// Entries that happened while an outer entry was still on the stack. Where it is not zero, no
    /// share taken from the script text split can be trusted.
    pub nested_entries: u64,
    /// Parent recordings made from the main call site.
    pub parent_site_main: u64,
    /// Parent recordings made from the public call site.
    pub parent_site_pub: u64,
    /// Time inside the staged function, as its entry guard sees it.
    pub in_function: Duration,
    /// Entries that ran while no parent interval was open.
    pub entries_outside_parent: u64,
}

impl ScriptTextBreakdown {
    /// What this breakdown holds in `slot`, and nothing for a slot of another breakdown.
    pub open spec fn amount(self, slot: Slot) -> nat {
        match slot {
            Slot::Prenormalize => self.prenormalize@,
            Slot::CollectVars => self.collect_vars@,
            Slot::LineLoop => self.line_loop@,
            Slot::ProcessAccumulated => self.process_accumulated@,
            Slot::Statements => self.statements as nat,
            Slot::Runes => self.runes@,
            Slot::ReactiveStmt => self.reactive_stmt@,
            Slot::ReactiveCalls => self.reactive_calls as nat,
            Slot::AstTransforms => self.ast_transforms@,
            Slot::PostPasses => self.post_passes@,
            Slot::StagedCalls => self.calls as nat,
            Slot::Entries => self.entries as nat,
            Slot::ParentCalls => self.parent_calls as nat,
            Slot::NestedEntries => self.nested_entries as nat,
            Slot::ParentSiteMain => self.parent_site_main as nat,
            Slot::ParentSitePub => self.parent_site_pub as nat,
            Slot::InFunction => self.in_function@,
            Slot::EntriesOutsideParent => self.entries_outside_parent as nat,
            _ => 0,
        }
    }

    /// Whether this breakdown reports what `state` holds in its slots.
    pub open spec fn reports(self, state: RecorderState) -> bool {
        &&& self.prenormalize@ == state.total(Slot::Prenormalize)
        &&& self.collect_vars@ == state.total(Slot::CollectVars)
        &&& self.line_loop@ == state.total(Slot::LineLoop)
        &&& self.process_accumulated@ == state.total(Slot::ProcessAccumulated)
        &&& self.statements == state.total(Slot::Statements)
        &&& self.runes@ == state.total(Slot::Runes)
        &&& self.reactive_stmt@ == state.total(Slot::ReactiveStmt)
        &&& self.reactive_calls == state.total(Slot::ReactiveCalls)
        &&& self.ast_transforms@ == state.total(Slot::AstTransforms)
        &&& self.post_passes@ == state.total(Slot::PostPasses)
        &&& self.calls == state.total(Slot::StagedCalls)
        &&& self.entries == state.total(Slot::Entries)
        &&& self.parent_calls == state.total(Slot::ParentCalls)
        &&& self.nested_entries == state.total(Slot::NestedEntries)
        &&& self.parent_site_main == state.total(Slot::ParentSiteMain)
        &&& self.parent_site_pub == state.total(Slot::ParentSitePub)
        &&& self.in_function@ == state.total(Slot::InFunction)
        &&& self.entries_outside_parent == state.total(Slot::EntriesOutsideParent)
    }
}

impl Default for ScriptTextBreakdown {
    /// Nothing recorded.
    fn default() -> (r: Self)
        ensures
            r.reports(RecorderState::empty()),
            r.prenormalize@ == 0,
            r.collect_vars@ == 0,
            r.line_loop@ == 0,
            r.process_accumulated@ == 0,
            r.statements == 0,
            r.runes@ == 0,
            r.reactive_stmt@ == 0,
            r.reactive_calls == 0,
            r.ast_transforms@ == 0,
            r.post_passes@ == 0,
            r.calls == 0,
            r.entries == 0,
            r.parent_calls == 0,
            r.nested_entries == 0,
            r.parent_site_main == 0,
            r.parent_site_pub == 0,
            r.in_function@ == 0,
            r.entries_outside_parent == 0,
    {
        ScriptTextBreakdown {
            prenormalize: Duration::zero(),
            collect_vars: Duration::zero(),
            line_loop: Duration::zero(),
            process_accumulated: Duration::zero(),
            statements: 0,
            runes: Duration::zero(),
            reactive_stmt: Duration::zero(),
            reactive_calls: 0,
            ast_transforms: Duration::zero(),
            post_passes: Duration::zero(),
            calls: 0,
            entries: 0,
            parent_calls: 0,
            nested_entries: 0,
            parent_site_main: 0,
            parent_site_pub: 0,
            in_function: Duration::zero(),
            entries_outside_parent: 0,
        }
    }
}

/// What re-parsing the script costs across the rewrite passes.
///
/// `bytes` over the length of the file says how often the pipeline reads the same script again.
#[derive(Clone, Copy, Debug)]
pub struct ReparseBreakdown {
    /// Time inside the parser.
    pub parse: Duration,
    /// Time a pass spends on the program once it is parsed.
    pub visit: Duration,
    /// Parses made through the shared driver.
    pub calls: u64,
    /// Source length over all those parses.
    pub bytes: u64,
    /// Time inside parsers that a pass builds itself, outside the shared driver.
    pub direct_parse: Duration,
    /// Parses made outside the shared driver.
    pub direct_calls: u64,
    /// Source length over the parses outside the shared driver.
    pub direct_bytes: u64,
}

impl ReparseBreakdown {
    /// What this breakdown holds in `slot`, and nothing for a slot of another breakdown.
    pub open spec fn amount(self, slot: Slot) -> nat {
        match slot {
            Slot::ReparseParse => self.parse@,
            Slot::ReparseVisit => self.visit@,
            Slot::ReparseCalls => self.calls as nat,
            Slot::ReparseBytes => self.bytes as nat,
            Slot::DirectParse => self.direct_parse@,
            Slot::DirectCalls => self.direct_calls as nat,
            Slot::DirectBytes => self.direct_bytes as nat,
            _ => 0,
        }
    }

    /// Whether this breakdown reports what `state` holds in its slots.
    pub open spec fn reports(self, state: RecorderState) -> bool {
        &&& self.parse@ == state.total(Slot::ReparseParse)
        &&& self.visit@ == state.total(Slot::ReparseVisit)
        &&& self.calls == state.total(Slot::ReparseCalls)
        &&& self.bytes == state.total(Slot::ReparseBytes)
        &&& self.direct_parse@ == state.total(Slot::DirectParse)
        &&& self.direct_calls == state.total(Slot::DirectCalls)
        &&& self.direct_bytes == state.total(Slot::DirectBytes)
    }
}

impl Default for ReparseBreakdown {
    /// Nothing recorded.
    fn default() -> (r: Self)
        ensures
            r.reports(RecorderState::empty()),
            r.parse@ == 0,
            r.visit@ == 0,
            r.calls == 0,
            r.bytes == 0,
            r.direct_parse@ == 0,
            r.direct_calls == 0,
            r.direct_bytes == 0,
    {
        ReparseBreakdown {
            parse: Duration::zero(),
            visit: Duration::zero(),
            calls: 0,
            bytes: 0,
            direct_parse: Duration::zero(),
            direct_calls: 0,
            direct_bytes: 0,
        }
    }
}

/// What the printer costs, by call site.
///
/// The sites stay apart because they reach different entry points of the printer.
#[derive(Clone, Copy, Debug)]
pub struct EsrapBreakdown {
    /// Client print of a program with comments.
    pub client_split: Duration,
    /// Number of those prints.
    pub client_split_calls: u64,
    /// Client print with a source map.
    pub client_map: Duration,
    /// Number of those prints.
    pub client_map_calls: u64,
    /// Plain client print.
    pub client_plain: Duration,
    /// Number of those prints.
    pub client_plain_calls: u64,
    /// Server print of the whole program.
    pub server_print: Duration,
    /// Number of those prints.
    pub server_print_calls: u64,
    /// Server round trip of an async body: the print.
    pub server_pipe_print: Duration,
    /// Server round trip of an async body: the parse that follows the print.
    pub server_pipe_reparse: Duration,
    /// Number of those round trips.
    pub server_pipe_calls: u64,
    /// Normalising a script by parse and print: the print.
    pub normalize_print: Duration,
    /// Number of those prints.
    pub normalize_calls: u64,
}

impl EsrapBreakdown {
    /// What this breakdown holds in `slot`, and nothing for a slot of another breakdown.
    pub open spec fn amount(self, slot: Slot) -> nat {
        match slot {
            Slot::ClientSplit => self.client_split@,
            Slot::ClientSplitCalls => self.client_split_calls as nat,
            Slot::ClientMap => self.client_map@,
            Slot::ClientMapCalls => self.client_map_calls as nat,
            Slot::ClientPlain => self.client_plain@,
            Slot::ClientPlainCalls => self.client_plain_calls as nat,
            Slot::ServerPrint => self.server_print@,
            Slot::ServerPrintCalls => self.server_print_calls as nat,
            Slot::ServerPipePrint => self.server_pipe_print@,
            Slot::ServerPipeReparse => self.server_pipe_reparse@,
            Slot::ServerPipeCalls => self.server_pipe_calls as nat,
            Slot::NormalizePrint => self.normalize_print@,
            Slot::NormalizeCalls => self.normalize_calls as nat,
            _ => 0,
        }
    }

    /// Whether this breakdown reports what `state` holds in its slots.
    pub open spec fn reports(self, state: RecorderState) -> bool {
        &&& self.client_split@ == state.total(Slot::ClientSplit)
        &&& self.client_split_calls == state.total(Slot::ClientSplitCalls)
        &&& self.client_map@ == state.total(Slot::ClientMap)
        &&& self.client_map_calls == state.total(Slot::ClientMapCalls)
        &&& self.client_plain@ == state.total(Slot::ClientPlain)
        &&& self.client_plain_calls == state.total(Slot::ClientPlainCalls)
        &&& self.server_print@ == state.total(Slot::ServerPrint)
        &&& self.server_print_calls == state.total(Slot::ServerPrintCalls)
        &&& self.server_pipe_print@ == state.total(Slot::ServerPipePrint)
        &&& self.server_pipe_reparse@ == state.total(Slot::ServerPipeReparse)
        &&& self.server_pipe_calls == state.total(Slot::ServerPipeCalls)
        &&& self.normalize_print@ == state.total(Slot::NormalizePrint)
        &&& self.normalize_calls == state.total(Slot::NormalizeCalls)
    }
}

impl Default for EsrapBreakdown {
    /// Nothing recorded.
    fn default() -> (r: Self)
        ensures
            r.reports(RecorderState::empty()),
            r.client_split@ == 0,
            r.client_split_calls == 0,
            r.client_map@ == 0,
            r.client_map_calls == 0,
            r.client_plain@ == 0,
            r.client_plain_calls == 0,
            r.server_print@ == 0,
            r.server_print_calls == 0,
            r.server_pipe_print@ == 0,
            r.server_pipe_reparse@ == 0,
            r.server_pipe_calls == 0,
            r.normalize_print@ == 0,
            r.normalize_calls == 0,
    {
        EsrapBreakdown {
            client_split: Duration::zero(),
            client_split_calls: 0,
            client_map: Duration::zero(),
            client_map_calls: 0,
            client_plain: Duration::zero(),
            client_plain_calls: 0,
            server_print: Duration::zero(),
            server_print_calls: 0,
            server_pipe_print: Duration::zero(),
            server_pipe_reparse: Duration::zero(),
            server_pipe_calls: 0,
            normalize_print: Duration::zero(),
            normalize_calls: 0,
        }
    }
}

/// A whole compile, split where the pipeline has its boundaries.
///
/// `total` is timed around the whole compile and not derived from the buckets, so time that no
/// bucket claims shows in [`PipelineBreakdown::unattributed`].
#[derive(Clone, Copy, Debug)]
pub struct PipelineBreakdown {
    /// Parsing the template.
    pub parse: Duration,
    /// Scanning the source for line offsets.
    pub line_offsets: Duration,
    /// Parsing the instance and module scripts.
    pub ensure_script: Duration,
    /// Removing type annotations.
    pub ts_removal: Duration,
    /// Merging the options that the component sets itself.
    pub options_merge: Duration,
    /// The analysis phase.
    pub analyze: Duration,
    /// The transform phase. [`Phase3Breakdown`] splits it further.
    pub transform: Duration,
    /// The whole compile.
    pub total: Duration,
    /// Number of compiles.
    pub compiles: u64,
}

impl PipelineBreakdown {
    /// What this breakdown holds in `slot`, and nothing for a slot of another breakdown.
    pub open spec fn amount(self, slot: Slot) -> nat {
        match slot {
            Slot::Parse => self.parse@,
            Slot::LineOffsets => self.line_offsets@,
            Slot::EnsureScript => self.ensure_script@,
            Slot::TsRemoval => self.ts_removal@,
            Slot::OptionsMerge => self.options_merge@,
            Slot::Analyze => self.analyze@,
            Slot::Transform => self.transform@,
            Slot::Total => self.total@,
            Slot::Compiles => self.compiles as nat,
            _ => 0,
        }
    }

    /// Whether this breakdown reports what `state` holds in its slots.
    pub open spec fn reports(self, state: RecorderState) -> bool {
        &&& self.parse@ == state.total(Slot::Parse)
        &&& self.line_offsets@ == state.total(Slot::LineOffsets)
        &&& self.ensure_script@ == state.total(Slot::EnsureScript)
        &&& self.ts_removal@ == state.total(Slot::TsRemoval)
        &&& self.options_merge@ == state.total(Slot::OptionsMerge)
        &&& self.analyze@ == state.total(Slot::Analyze)
        &&& self.transform@ == state.total(Slot::Transform)
        &&& self.total@ == state.total(Slot::Total)
        &&& self.compiles == state.total(Slot::Compiles)
    }
}

impl Default for PipelineBreakdown {
    /// Nothing recorded.
    fn default() -> (r: Self)
        ensures
            r.reports(RecorderState::empty()),
            r.parse@ == 0,
            r.line_offsets@ == 0,
            r.ensure_script@ == 0,
            r.ts_removal@ == 0,
            r.options_merge@ == 0,
            r.analyze@ == 0,
            r.transform@ == 0,
            r.total@ == 0,
            r.compiles == 0,
    {
        PipelineBreakdown {
            parse: Duration::zero(),
            line_offsets: Duration::zero(),
            ensure_script: Duration::zero(),
            ts_removal: Duration::zero(),
            options_merge: Duration::zero(),
            analyze: Duration::zero(),
            transform: Duration::zero(),
            total: Duration::zero(),
            compiles: 0,
        }
    }
}

impl PipelineBreakdown {
    /// The time that the buckets claim together.
    pub open spec fn attributed(self) -> nat {
        self.parse@ + self.line_offsets@ + self.ensure_script@ + self.ts_removal@
            + self.options_merge@ + self.analyze@ + self.transform@
    }

    /// The time inside `total` that no bucket claims, and nothing where the buckets claim more.
    pub open spec fn residual(self) -> nat {
        if self.total@ >= self.attributed() {
            (self.total@ - self.attributed()) as nat
        } else {
            0
        }
    }

    /// Time inside `total` that no bucket claims.
    pub fn unattributed(&self) -> (r: Duration)
        requires
            self.attributed() <= max_nanos(),
        ensures
            r@ == self.residual(),
            self.parse@ + self.line_offsets@ + self.ensure_script@ + self.ts_removal@
                + self.options_merge@ + self.analyze@ + self.transform@ <= self.total@ ==> r@
                + self.parse@ + self.line_offsets@ + self.ensure_script@ + self.ts_removal@
                + self.options_merge@ + self.analyze@ + self.transform@ == self.total@,
            self.parse@ + self.line_offsets@ + self.ensure_script@ + self.ts_removal@
                + self.options_merge@ + self.analyze@ + self.transform@ >= self.total@ ==> r@ == 0,
    {
        let buckets = self.parse
            .plus(self.line_offsets)
            .plus(self.ensure_script)
            .plus(self.ts_removal)
            .plus(self.options_merge)
            .plus(self.analyze)
            .plus(self.transform);
        self.total.saturating_sub(buckets)
    }
}

} // verus!
