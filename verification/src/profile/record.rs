//! The recorders: each adds what one site of the compiler measured to its slots.
//!
//! A recorder does nothing while the switch is off.

use vstd::prelude::*;

use super::recorders::Recorders;
use super::slot::Slot;
use super::switch::TimerSwitch;
use crate::duration::Duration;

verus! {

/// Posts a time.
fn post_time(switch: &TimerSwitch, rec: &mut Recorders, slot: Slot, d: Duration)
    requires
        slot.is_time(),
        old(rec)@.admits(*switch, map![slot => d@]),
    ensures
        final(rec)@ == old(rec)@.post(*switch, map![slot => d@]),
{
    if !switch.is_recording() {
        return;
    }
    assert(map![slot => d@].dom().contains(slot));
    rec.add_time(slot, d);
}

/// Posts one more of a count.
fn post_count(switch: &TimerSwitch, rec: &mut Recorders, slot: Slot)
    requires
        !slot.is_time(),
        old(rec)@.admits(*switch, map![slot => 1nat]),
    ensures
        final(rec)@ == old(rec)@.post(*switch, map![slot => 1nat]),
{
    if !switch.is_recording() {
        return;
    }
    assert(map![slot => 1nat].dom().contains(slot));
    rec.add_count(slot, 1);
}

/// Posts a time and one more of a count.
pub(super) fn post_time_and_count(
    switch: &TimerSwitch,
    rec: &mut Recorders,
    time: Slot,
    d: Duration,
    count: Slot,
)
    requires
        time.is_time(),
        !count.is_time(),
        old(rec)@.admits(*switch, map![time => d@, count => 1nat]),
    ensures
        final(rec)@ == old(rec)@.post(*switch, map![time => d@, count => 1nat]),
{
    if !switch.is_recording() {
        return;
    }
    let ghost posting = map![time => d@, count => 1nat];
    assert(posting.dom().contains(time) && posting.dom().contains(count));
    rec.add_time(time, d);
    rec.add_count(count, 1);
}

/// Records one parse made through the shared driver: the time in the parser, the time the pass
/// spent on the program, and the length of the source.
pub fn record_reparse(
    switch: &TimerSwitch,
    rec: &mut Recorders,
    parse: Duration,
    visit: Duration,
    bytes: usize,
)
    requires
        old(rec)@.admits(*switch, map![
            Slot::ReparseParse => parse@,
            Slot::ReparseVisit => visit@,
            Slot::ReparseCalls => 1nat,
            Slot::ReparseBytes => bytes as nat,
        ]),
    ensures
        final(rec)@ == old(rec)@.post(*switch, map![
            Slot::ReparseParse => parse@,
            Slot::ReparseVisit => visit@,
            Slot::ReparseCalls => 1nat,
            Slot::ReparseBytes => bytes as nat,
        ]),
        forall|slot: Slot| #[trigger]
            final(rec)@.total(slot) == old(rec)@.total(slot) + if !switch.enabled
                || switch.build.no_timers {
                0nat
            } else {
                match slot {
                    Slot::ReparseParse => parse@,
                    Slot::ReparseVisit => visit@,
                    Slot::ReparseCalls => 1nat,
                    Slot::ReparseBytes => bytes as nat,
                    _ => 0nat,
                }
            },
        final(rec)@.depth == old(rec)@.depth,
        final(rec)@.parents_open == old(rec)@.parents_open,
{
    if !switch.is_recording() {
        return;
    }
    let ghost posting = map![
        Slot::ReparseParse => parse@,
        Slot::ReparseVisit => visit@,
        Slot::ReparseCalls => 1nat,
        Slot::ReparseBytes => bytes as nat,
    ];
    assert(posting.dom().contains(Slot::ReparseParse));
    assert(posting.dom().contains(Slot::ReparseVisit));
    assert(posting.dom().contains(Slot::ReparseCalls));
    assert(posting.dom().contains(Slot::ReparseBytes));
    rec.add_time(Slot::ReparseParse, parse);
    rec.add_time(Slot::ReparseVisit, visit);
    rec.add_count(Slot::ReparseCalls, 1);
    rec.add_count(Slot::ReparseBytes, bytes as u64);
}

/// Records one parse made outside the shared driver: the time in the parser and the length of the
/// source.
pub fn record_direct_parse(switch: &TimerSwitch, rec: &mut Recorders, parse: Duration, bytes: usize)
    requires
        old(rec)@.admits(*switch, map![
            Slot::DirectParse => parse@,
            Slot::DirectCalls => 1nat,
            Slot::DirectBytes => bytes as nat,
        ]),
    ensures
        final(rec)@ == old(rec)@.post(*switch, map![
            Slot::DirectParse => parse@,
            Slot::DirectCalls => 1nat,
            Slot::DirectBytes => bytes as nat,
        ]),
        forall|slot: Slot| #[trigger]
            final(rec)@.total(slot) == old(rec)@.total(slot) + if !switch.enabled
                || switch.build.no_timers {
                0nat
            } else {
                match slot {
                    Slot::DirectParse => parse@,
                    Slot::DirectCalls => 1nat,
                    Slot::DirectBytes => bytes as nat,
                    _ => 0nat,
                }
            },
        final(rec)@.depth == old(rec)@.depth,
        final(rec)@.parents_open == old(rec)@.parents_open,
{
    if !switch.is_recording() {
        return;
    }
    let ghost posting = map![
        Slot::DirectParse => parse@,
        Slot::DirectCalls => 1nat,
        Slot::DirectBytes => bytes as nat,
    ];
    assert(posting.dom().contains(Slot::DirectParse));
    assert(posting.dom().contains(Slot::DirectCalls));
    assert(posting.dom().contains(Slot::DirectBytes));
    rec.add_time(Slot::DirectParse, parse);
    rec.add_count(Slot::DirectCalls, 1);
    rec.add_count(Slot::DirectBytes, bytes as u64);
}

/// Records one server round trip of an async body: the print and the parse that follows it.
pub fn record_esrap_pipe(
    switch: &TimerSwitch,
    rec: &mut Recorders,
    print: Duration,
    reparse: Duration,
)
    requires
        old(rec)@.admits(*switch, map![
            Slot::ServerPipePrint => print@,
            Slot::ServerPipeReparse => reparse@,
            Slot::ServerPipeCalls => 1nat,
        ]),
    ensures
        final(rec)@ == old(rec)@.post(*switch, map![
            Slot::ServerPipePrint => print@,
            Slot::ServerPipeReparse => reparse@,
            Slot::ServerPipeCalls => 1nat,
        ]),
        forall|slot: Slot| #[trigger]
            final(rec)@.total(slot) == old(rec)@.total(slot) + if !switch.enabled
                || switch.build.no_timers {
                0nat
            } else {
                match slot {
                    Slot::ServerPipePrint => print@,
                    Slot::ServerPipeReparse => reparse@,
                    Slot::ServerPipeCalls => 1nat,
                    _ => 0nat,
                }
            },
        final(rec)@.depth == old(rec)@.depth,
        final(rec)@.parents_open == old(rec)@.parents_open,
{
    if !switch.is_recording() {
        return;
    }
    let ghost posting = map![
        Slot::ServerPipePrint => print@,
        Slot::ServerPipeReparse => reparse@,
        Slot::ServerPipeCalls => 1nat,
    ];
    assert(posting.dom().contains(Slot::ServerPipePrint));
    assert(posting.dom().contains(Slot::ServerPipeReparse));
    assert(posting.dom().contains(Slot::ServerPipeCalls));
    rec.add_time(Slot::ServerPipePrint, print);
    rec.add_time(Slot::ServerPipeReparse, reparse);
    rec.add_count(Slot::ServerPipeCalls, 1);
}

/// Records one client print of a program with comments.
pub fn record_esrap_client_split(switch: &TimerSwitch, rec: &mut Recorders, d: Duration)
    requires
        old(rec)@.admits(*switch, map![Slot::ClientSplit => d@, Slot::ClientSplitCalls => 1nat]),
    ensures
        final(rec)@ == old(rec)@.post(
            *switch,
            map![Slot::ClientSplit => d@, Slot::ClientSplitCalls => 1nat],
        ),
        forall|slot: Slot| #[trigger]
            final(rec)@.total(slot) == old(rec)@.total(slot) + if !switch.enabled
                || switch.build.no_timers {
                0nat
            } else {
                match slot {
                    Slot::ClientSplit => d@,
                    Slot::ClientSplitCalls => 1nat,
                    _ => 0nat,
                }
            },
        final(rec)@.depth == old(rec)@.depth,
        final(rec)@.parents_open == old(rec)@.parents_open,
{
    post_time_and_count(switch, rec, Slot::ClientSplit, d, Slot::ClientSplitCalls);
}

/// Records one client print with a source map.
pub fn record_esrap_client_map(switch: &TimerSwitch, rec: &mut Recorders, d: Duration)
    requires
        old(rec)@.admits(*switch, map![Slot::ClientMap => d@, Slot::ClientMapCalls => 1nat]),
    ensures
        final(rec)@ == old(rec)@.post(
            *switch,
            map![Slot::ClientMap => d@, Slot::ClientMapCalls => 1nat],
        ),
        forall|slot: Slot| #[trigger]
            final(rec)@.total(slot) == old(rec)@.total(slot) + if !switch.enabled
                || switch.build.no_timers {
                0nat
            } else {
                match slot {
                    Slot::ClientMap => d@,
                    Slot::ClientMapCalls => 1nat,
                    _ => 0nat,
                }
            },
        final(rec)@.depth == old(rec)@.depth,
        final(rec)@.parents_open == old(rec)@.parents_open,
{
    post_time_and_count(switch, rec, Slot::ClientMap, d, Slot::ClientMapCalls);
}

/// Records one plain client print.
pub fn record_esrap_client_plain(switch: &TimerSwitch, rec: &mut Recorders, d: Duration)
    requires
        old(rec)@.admits(*switch, map![Slot::ClientPlain => d@, Slot::ClientPlainCalls => 1nat]),
    ensures
        final(rec)@ == old(rec)@.post(
            *switch,
            map![Slot::ClientPlain => d@, Slot::ClientPlainCalls => 1nat],
        ),
        forall|slot: Slot| #[trigger]
            final(rec)@.total(slot) == old(rec)@.total(slot) + if !switch.enabled
                || switch.build.no_timers {
                0nat
            } else {
                match slot {
                    Slot::ClientPlain => d@,
                    Slot::ClientPlainCalls => 1nat,
                    _ => 0nat,
                }
            },
        final(rec)@.depth == old(rec)@.depth,
        final(rec)@.parents_open == old(rec)@.parents_open,
{
    post_time_and_count(switch, rec, Slot::ClientPlain, d, Slot::ClientPlainCalls);
}

/// Records one server print of a whole program.
pub fn record_esrap_server(switch: &TimerSwitch, rec: &mut Recorders, d: Duration)
    requires
        old(rec)@.admits(*switch, map![Slot::ServerPrint => d@, Slot::ServerPrintCalls => 1nat]),
    ensures
        final(rec)@ == old(rec)@.post(
            *switch,
            map![Slot::ServerPrint => d@, Slot::ServerPrintCalls => 1nat],
        ),
        forall|slot: Slot| #[trigger]
            final(rec)@.total(slot) == old(rec)@.total(slot) + if !switch.enabled
                || switch.build.no_timers {
                0nat
            } else {
                match slot {
                    Slot::ServerPrint => d@,
                    Slot::ServerPrintCalls => 1nat,
                    _ => 0nat,
                }
            },
        final(rec)@.depth == old(rec)@.depth,
        final(rec)@.parents_open == old(rec)@.parents_open,
{
    post_time_and_count(switch, rec, Slot::ServerPrint, d, Slot::ServerPrintCalls);
}

/// Records one print made to normalise a script.
pub fn record_esrap_normalize(switch: &TimerSwitch, rec: &mut Recorders, d: Duration)
    requires
        old(rec)@.admits(*switch, map![Slot::NormalizePrint => d@, Slot::NormalizeCalls => 1nat]),
    ensures
        final(rec)@ == old(rec)@.post(
            *switch,
            map![Slot::NormalizePrint => d@, Slot::NormalizeCalls => 1nat],
        ),
        forall|slot: Slot| #[trigger]
            final(rec)@.total(slot) == old(rec)@.total(slot) + if !switch.enabled
                || switch.build.no_timers {
                0nat
            } else {
                match slot {
                    Slot::NormalizePrint => d@,
                    Slot::NormalizeCalls => 1nat,
                    _ => 0nat,
                }
            },
        final(rec)@.depth == old(rec)@.depth,
        final(rec)@.parents_open == old(rec)@.parents_open,
{
    post_time_and_count(switch, rec, Slot::NormalizePrint, d, Slot::NormalizeCalls);
}

/// Records one transform of the text of an instance script: the parent of the staged timers.
pub fn record_script_text(switch: &TimerSwitch, rec: &mut Recorders, d: Duration)
    requires
        old(rec)@.admits(*switch, map![Slot::ScriptTextTransform => d@, Slot::ParentCalls => 1nat]),
    ensures
        final(rec)@ == old(rec)@.post(
            *switch,
            map![Slot::ScriptTextTransform => d@, Slot::ParentCalls => 1nat],
        ),
        forall|slot: Slot| #[trigger]
            final(rec)@.total(slot) == old(rec)@.total(slot) + if !switch.enabled
                || switch.build.no_timers {
                0nat
            } else {
                match slot {
                    Slot::ScriptTextTransform => d@,
                    Slot::ParentCalls => 1nat,
                    _ => 0nat,
                }
            },
        final(rec)@.depth == old(rec)@.depth,
        final(rec)@.parents_open == old(rec)@.parents_open,
{
    post_time_and_count(switch, rec, Slot::ScriptTextTransform, d, Slot::ParentCalls);
}

/// Records the first stage of the script text transform, which also counts the call as staged.
pub fn record_st_prenormalize(switch: &TimerSwitch, rec: &mut Recorders, d: Duration)
    requires
        old(rec)@.admits(*switch, map![Slot::Prenormalize => d@, Slot::StagedCalls => 1nat]),
    ensures
        final(rec)@ == old(rec)@.post(
            *switch,
            map![Slot::Prenormalize => d@, Slot::StagedCalls => 1nat],
        ),
        forall|slot: Slot| #[trigger]
            final(rec)@.total(slot) == old(rec)@.total(slot) + if !switch.enabled
                || switch.build.no_timers {
                0nat
            } else {
                match slot {
                    Slot::Prenormalize => d@,
                    Slot::StagedCalls => 1nat,
                    _ => 0nat,
                }
            },
        final(rec)@.depth == old(rec)@.depth,
        final(rec)@.parents_open == old(rec)@.parents_open,
{
    post_time_and_count(switch, rec, Slot::Prenormalize, d, Slot::StagedCalls);
}

/// Records one whole compile, timed apart from its buckets.
pub fn record_pipeline_total(switch: &TimerSwitch, rec: &mut Recorders, d: Duration)
    requires
        old(rec)@.admits(*switch, map![Slot::Total => d@, Slot::Compiles => 1nat]),
    ensures
        final(rec)@ == old(rec)@.post(
            *switch,
            map![Slot::Total => d@, Slot::Compiles => 1nat],
        ),
        forall|slot: Slot| #[trigger]
            final(rec)@.total(slot) == old(rec)@.total(slot) + if !switch.enabled
                || switch.build.no_timers {
                0nat
            } else {
                match slot {
                    Slot::Total => d@,
                    Slot::Compiles => 1nat,
                    _ => 0nat,
                }
            },
        final(rec)@.depth == old(rec)@.depth,
        final(rec)@.parents_open == old(rec)@.parents_open,
{
    post_time_and_count(switch, rec, Slot::Total, d, Slot::Compiles);
}

/// Records a walk of the parsed program.
pub fn record_visit_program(switch: &TimerSwitch, rec: &mut Recorders, d: Duration)
    requires
        old(rec)@.admits(*switch, map![Slot::VisitProgram => d@]),
    ensures
        final(rec)@ == old(rec)@.post(*switch, map![Slot::VisitProgram => d@]),
        forall|slot: Slot| #[trigger]
            final(rec)@.total(slot) == old(rec)@.total(slot) + if !switch.enabled
                || switch.build.no_timers {
                0nat
            } else {
                match slot {
                    Slot::VisitProgram => d@,
                    _ => 0nat,
                }
            },
        final(rec)@.depth == old(rec)@.depth,
        final(rec)@.parents_open == old(rec)@.parents_open,
{
    post_time(switch, rec, Slot::VisitProgram, d);
}

/// Records a walk of the template fragment.
pub fn record_template_fragment(switch: &TimerSwitch, rec: &mut Recorders, d: Duration)
    requires
        old(rec)@.admits(*switch, map![Slot::TemplateFragment => d@]),
    ensures
        final(rec)@ == old(rec)@.post(*switch, map![Slot::TemplateFragment => d@]),
        forall|slot: Slot| #[trigger]
            final(rec)@.total(slot) == old(rec)@.total(slot) + if !switch.enabled
                || switch.build.no_timers {
                0nat
            } else {
                match slot {
                    Slot::TemplateFragment => d@,
                    _ => 0nat,
                }
            },
        final(rec)@.depth == old(rec)@.depth,
        final(rec)@.parents_open == old(rec)@.parents_open,
{
    post_time(switch, rec, Slot::TemplateFragment, d);
}

/// Records the assembly after the fragment.
pub fn record_assembly_after_fragment(switch: &TimerSwitch, rec: &mut Recorders, d: Duration)
    requires
        old(rec)@.admits(*switch, map![Slot::AssemblyAfterFragment => d@]),
    ensures
        final(rec)@ == old(rec)@.post(*switch, map![Slot::AssemblyAfterFragment => d@]),
        forall|slot: Slot| #[trigger]
            final(rec)@.total(slot) == old(rec)@.total(slot) + if !switch.enabled
                || switch.build.no_timers {
                0nat
            } else {
                match slot {
                    Slot::AssemblyAfterFragment => d@,
                    _ => 0nat,
                }
            },
        final(rec)@.depth == old(rec)@.depth,
        final(rec)@.parents_open == old(rec)@.parents_open,
{
    post_time(switch, rec, Slot::AssemblyAfterFragment, d);
}

/// Records the rendering of a style sheet.
pub fn record_css_render(switch: &TimerSwitch, rec: &mut Recorders, d: Duration)
    requires
        old(rec)@.admits(*switch, map![Slot::CssRender => d@]),
    ensures
        final(rec)@ == old(rec)@.post(*switch, map![Slot::CssRender => d@]),
        forall|slot: Slot| #[trigger]
            final(rec)@.total(slot) == old(rec)@.total(slot) + if !switch.enabled
                || switch.build.no_timers {
                0nat
            } else {
                match slot {
                    Slot::CssRender => d@,
                    _ => 0nat,
                }
            },
        final(rec)@.depth == old(rec)@.depth,
        final(rec)@.parents_open == old(rec)@.parents_open,
{
    post_time(switch, rec, Slot::CssRender, d);
}

/// Records the generation of script text.
pub fn record_codegen(switch: &TimerSwitch, rec: &mut Recorders, d: Duration)
    requires
        old(rec)@.admits(*switch, map![Slot::Codegen => d@]),
    ensures
        final(rec)@ == old(rec)@.post(*switch, map![Slot::Codegen => d@]),
        forall|slot: Slot| #[trigger]
            final(rec)@.total(slot) == old(rec)@.total(slot) + if !switch.enabled
                || switch.build.no_timers {
                0nat
            } else {
                match slot {
                    Slot::Codegen => d@,
                    _ => 0nat,
                }
            },
        final(rec)@.depth == old(rec)@.depth,
        final(rec)@.parents_open == old(rec)@.parents_open,
{
    post_time(switch, rec, Slot::Codegen, d);
}

/// Records a rewrite of runes.
pub fn record_st_runes(switch: &TimerSwitch, rec: &mut Recorders, d: Duration)
    requires
        old(rec)@.admits(*switch, map![Slot::Runes => d@]),
    ensures
        final(rec)@ == old(rec)@.post(*switch, map![Slot::Runes => d@]),
        forall|slot: Slot| #[trigger]
            final(rec)@.total(slot) == old(rec)@.total(slot) + if !switch.enabled
                || switch.build.no_timers {
                0nat
            } else {
                match slot {
                    Slot::Runes => d@,
                    _ => 0nat,
                }
            },
        final(rec)@.depth == old(rec)@.depth,
        final(rec)@.parents_open == old(rec)@.parents_open,
{
    post_time(switch, rec, Slot::Runes, d);
}

/// Records the stage that gathers variables.
pub fn record_st_collect_vars(switch: &TimerSwitch, rec: &mut Recorders, d: Duration)
    requires
        old(rec)@.admits(*switch, map![Slot::CollectVars => d@]),
    ensures
        final(rec)@ == old(rec)@.post(*switch, map![Slot::CollectVars => d@]),
        forall|slot: Slot| #[trigger]
            final(rec)@.total(slot) == old(rec)@.total(slot) + if !switch.enabled
                || switch.build.no_timers {
                0nat
            } else {
                match slot {
                    Slot::CollectVars => d@,
                    _ => 0nat,
                }
            },
        final(rec)@.depth == old(rec)@.depth,
        final(rec)@.parents_open == old(rec)@.parents_open,
{
    post_time(switch, rec, Slot::CollectVars, d);
}

/// Records the line-by-line stage.
pub fn record_st_line_loop(switch: &TimerSwitch, rec: &mut Recorders, d: Duration)
    requires
        old(rec)@.admits(*switch, map![Slot::LineLoop => d@]),
    ensures
        final(rec)@ == old(rec)@.post(*switch, map![Slot::LineLoop => d@]),
        forall|slot: Slot| #[trigger]
            final(rec)@.total(slot) == old(rec)@.total(slot) + if !switch.enabled
                || switch.build.no_timers {
                0nat
            } else {
                match slot {
                    Slot::LineLoop => d@,
                    _ => 0nat,
                }
            },
        final(rec)@.depth == old(rec)@.depth,
        final(rec)@.parents_open == old(rec)@.parents_open,
{
    post_time(switch, rec, Slot::LineLoop, d);
}

/// Records the stage that transforms the tree.
pub fn record_st_ast_transforms(switch: &TimerSwitch, rec: &mut Recorders, d: Duration)
    requires
        old(rec)@.admits(*switch, map![Slot::AstTransforms => d@]),
    ensures
        final(rec)@ == old(rec)@.post(*switch, map![Slot::AstTransforms => d@]),
        forall|slot: Slot| #[trigger]
            final(rec)@.total(slot) == old(rec)@.total(slot) + if !switch.enabled
                || switch.build.no_timers {
                0nat
            } else {
                match slot {
                    Slot::AstTransforms => d@,
                    _ => 0nat,
                }
            },
        final(rec)@.depth == old(rec)@.depth,
        final(rec)@.parents_open == old(rec)@.parents_open,
{
    post_time(switch, rec, Slot::AstTransforms, d);
}

/// Records the passes after the transforms.
pub fn record_st_post_passes(switch: &TimerSwitch, rec: &mut Recorders, d: Duration)
    requires
        old(rec)@.admits(*switch, map![Slot::PostPasses => d@]),
    ensures
        final(rec)@ == old(rec)@.post(*switch, map![Slot::PostPasses => d@]),
        forall|slot: Slot| #[trigger]
            final(rec)@.total(slot) == old(rec)@.total(slot) + if !switch.enabled
                || switch.build.no_timers {
                0nat
            } else {
                match slot {
                    Slot::PostPasses => d@,
                    _ => 0nat,
                }
            },
        final(rec)@.depth == old(rec)@.depth,
        final(rec)@.parents_open == old(rec)@.parents_open,
{
    post_time(switch, rec, Slot::PostPasses, d);
}

/// Records a parse of the template.
pub fn record_pipeline_parse(switch: &TimerSwitch, rec: &mut Recorders, d: Duration)
    requires
        old(rec)@.admits(*switch, map![Slot::Parse => d@]),
    ensures
        final(rec)@ == old(rec)@.post(*switch, map![Slot::Parse => d@]),
        forall|slot: Slot| #[trigger]
            final(rec)@.total(slot) == old(rec)@.total(slot) + if !switch.enabled
                || switch.build.no_timers {
                0nat
            } else {
                match slot {
                    Slot::Parse => d@,
                    _ => 0nat,
                }
            },
        final(rec)@.depth == old(rec)@.depth,
        final(rec)@.parents_open == old(rec)@.parents_open,
{
    post_time(switch, rec, Slot::Parse, d);
}

/// Records a scan for line offsets.
pub fn record_pipeline_line_offsets(switch: &TimerSwitch, rec: &mut Recorders, d: Duration)
    requires
        old(rec)@.admits(*switch, map![Slot::LineOffsets => d@]),
    ensures
        final(rec)@ == old(rec)@.post(*switch, map![Slot::LineOffsets => d@]),
        forall|slot: Slot| #[trigger]
            final(rec)@.total(slot) == old(rec)@.total(slot) + if !switch.enabled
                || switch.build.no_timers {
                0nat
            } else {
                match slot {
                    Slot::LineOffsets => d@,
                    _ => 0nat,
                }
            },
        final(rec)@.depth == old(rec)@.depth,
        final(rec)@.parents_open == old(rec)@.parents_open,
{
    post_time(switch, rec, Slot::LineOffsets, d);
}

/// Records a parse of the scripts.
pub fn record_pipeline_ensure_script(switch: &TimerSwitch, rec: &mut Recorders, d: Duration)
    requires
        old(rec)@.admits(*switch, map![Slot::EnsureScript => d@]),
    ensures
        final(rec)@ == old(rec)@.post(*switch, map![Slot::EnsureScript => d@]),
        forall|slot: Slot| #[trigger]
            final(rec)@.total(slot) == old(rec)@.total(slot) + if !switch.enabled
                || switch.build.no_timers {
                0nat
            } else {
                match slot {
                    Slot::EnsureScript => d@,
                    _ => 0nat,
                }
            },
        final(rec)@.depth == old(rec)@.depth,
        final(rec)@.parents_open == old(rec)@.parents_open,
{
    post_time(switch, rec, Slot::EnsureScript, d);
}

/// Records a removal of type annotations.
pub fn record_pipeline_ts_removal(switch: &TimerSwitch, rec: &mut Recorders, d: Duration)
    requires
        old(rec)@.admits(*switch, map![Slot::TsRemoval => d@]),
    ensures
        final(rec)@ == old(rec)@.post(*switch, map![Slot::TsRemoval => d@]),
        forall|slot: Slot| #[trigger]
            final(rec)@.total(slot) == old(rec)@.total(slot) + if !switch.enabled
                || switch.build.no_timers {
                0nat
            } else {
                match slot {
                    Slot::TsRemoval => d@,
                    _ => 0nat,
                }
            },
        final(rec)@.depth == old(rec)@.depth,
        final(rec)@.parents_open == old(rec)@.parents_open,
{
    post_time(switch, rec, Slot::TsRemoval, d);
}

/// Records a merge of options.
pub fn record_pipeline_options_merge(switch: &TimerSwitch, rec: &mut Recorders, d: Duration)
    requires
        old(rec)@.admits(*switch, map![Slot::OptionsMerge => d@]),
    ensures
        final(rec)@ == old(rec)@.post(*switch, map![Slot::OptionsMerge => d@]),
        forall|slot: Slot| #[trigger]
            final(rec)@.total(slot) == old(rec)@.total(slot) + if !switch.enabled
                || switch.build.no_timers {
                0nat
            } else {
                match slot {
                    Slot::OptionsMerge => d@,
                    _ => 0nat,
                }
            },
        final(rec)@.depth == old(rec)@.depth,
        final(rec)@.parents_open == old(rec)@.parents_open,
{
    post_time(switch, rec, Slot::OptionsMerge, d);
}

/// Records an analysis phase.
pub fn record_pipeline_analyze(switch: &TimerSwitch, rec: &mut Recorders, d: Duration)
    requires
        old(rec)@.admits(*switch, map![Slot::Analyze => d@]),
    ensures
        final(rec)@ == old(rec)@.post(*switch, map![Slot::Analyze => d@]),
        forall|slot: Slot| #[trigger]
            final(rec)@.total(slot) == old(rec)@.total(slot) + if !switch.enabled
                || switch.build.no_timers {
                0nat
            } else {
                match slot {
                    Slot::Analyze => d@,
                    _ => 0nat,
                }
            },
        final(rec)@.depth == old(rec)@.depth,
        final(rec)@.parents_open == old(rec)@.parents_open,
{
    post_time(switch, rec, Slot::Analyze, d);
}

/// Records a transform phase.
pub fn record_pipeline_transform(switch: &TimerSwitch, rec: &mut Recorders, d: Duration)
    requires
        old(rec)@.admits(*switch, map![Slot::Transform => d@]),
    ensures
        final(rec)@ == old(rec)@.post(*switch, map![Slot::Transform => d@]),
        forall|slot: Slot| #[trigger]
            final(rec)@.total(slot) == old(rec)@.total(slot) + if !switch.enabled
                || switch.build.no_timers {
                0nat
            } else {
                match slot {
                    Slot::Transform => d@,
                    _ => 0nat,
                }
            },
        final(rec)@.depth == old(rec)@.depth,
        final(rec)@.parents_open == old(rec)@.parents_open,
{
    post_time(switch, rec, Slot::Transform, d);
}

/// The slot that counts parent recordings of one call site: the public one or the main one.
pub open spec fn parent_site(is_pub: bool) -> Slot {
    if is_pub {
        Slot::ParentSitePub
    } else {
        Slot::ParentSiteMain
    }
}

/// Records which call site made a parent recording.
pub fn record_parent_site(switch: &TimerSwitch, rec: &mut Recorders, is_pub: bool)
    requires
        old(rec)@.admits(*switch, map![parent_site(is_pub) => 1nat]),
    ensures
        final(rec)@ == old(rec)@.post(*switch, map![parent_site(is_pub) => 1nat]),
        forall|slot: Slot| #[trigger]
            final(rec)@.total(slot) == old(rec)@.total(slot) + if !switch.enabled
                || switch.build.no_timers {
                0nat
            } else {
                match slot {
                    Slot::ParentSitePub if is_pub => 1nat,
                    Slot::ParentSiteMain if !is_pub => 1nat,
                    _ => 0nat,
                }
            },
        final(rec)@.depth == old(rec)@.depth,
        final(rec)@.parents_open == old(rec)@.parents_open,
{
    if is_pub {
        post_count(switch, rec, Slot::ParentSitePub);
    } else {
        post_count(switch, rec, Slot::ParentSiteMain);
    }
}

/// Records one entry into the staged function.
pub fn record_st_entry(switch: &TimerSwitch, rec: &mut Recorders)
    requires
        old(rec)@.admits(*switch, map![Slot::Entries => 1nat]),
    ensures
        final(rec)@ == old(rec)@.post(*switch, map![Slot::Entries => 1nat]),
        forall|slot: Slot| #[trigger]
            final(rec)@.total(slot) == old(rec)@.total(slot) + if !switch.enabled
                || switch.build.no_timers {
                0nat
            } else {
                match slot {
                    Slot::Entries => 1nat,
                    _ => 0nat,
                }
            },
        final(rec)@.depth == old(rec)@.depth,
        final(rec)@.parents_open == old(rec)@.parents_open,
{
    post_count(switch, rec, Slot::Entries);
}

} // verus!
