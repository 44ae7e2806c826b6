//! How often a transform reuses the program that is already parsed, and how often it parses the
//! script again.
//!
//! That a program was passed does not mean that it was used, so the two are counted apart.

use vstd::prelude::*;

verus! {

/// The counts of one thread.
#[derive(Debug)]
pub struct ReuseCounters {
    retained_uses: u64,
    reparses: u64,
}

impl View for ReuseCounters {
    /// Retained uses and re-parses.
    type V = (nat, nat);

    closed spec fn view(&self) -> (nat, nat) {
        (self.retained_uses as nat, self.reparses as nat)
    }
}

impl ReuseCounters {
    /// The counts of a thread on which neither has happened.
    pub fn new() -> (r: ReuseCounters)
        ensures
            r@ == (0nat, 0nat),
    {
        ReuseCounters { retained_uses: 0, reparses: 0 }
    }
}

/// The retained program was usable and was read in place.
pub fn record_retained_use(counters: &mut ReuseCounters)
    requires
        old(counters)@.0 < u64::MAX,
    ensures
        final(counters)@ == (old(counters)@.0 + 1, old(counters)@.1),
{
    counters.retained_uses = counters.retained_uses + 1;
}

/// The retained program was absent or unusable, and the script was parsed again.
pub fn record_reparse(counters: &mut ReuseCounters)
    requires
        old(counters)@.1 < u64::MAX,
    ensures
        final(counters)@ == (old(counters)@.0, old(counters)@.1 + 1),
{
    counters.reparses = counters.reparses + 1;
}

/// Retained uses and re-parses, as counted since the last [`reset`].
pub fn snapshot(counters: &ReuseCounters) -> (r: (u64, u64))
    ensures
        r.0 == counters@.0,
        r.1 == counters@.1,
{
    (counters.retained_uses, counters.reparses)
}

/// Sets both counts back to zero.
pub fn reset(counters: &mut ReuseCounters)
    ensures
        final(counters)@ == (0nat, 0nat),
{
    counters.retained_uses = 0;
    counters.reparses = 0;
}

/// What happened each time the transform needed the program.
pub enum Need {
    /// The retained program was used.
    Retained,
    /// The script was parsed again.
    Reparsed,
}

/// The counts after one more need.
pub open spec fn count_need(counts: (nat, nat), need: Need) -> (nat, nat) {
    match need {
        Need::Retained => (counts.0 + 1, counts.1),
        Need::Reparsed => (counts.0, counts.1 + 1),
    }
}

/// The counts after `needs`, from first to last.
pub open spec fn count_needs(counts: (nat, nat), needs: Seq<Need>) -> (nat, nat)
    decreases needs.len(),
{
    if needs.len() == 0 {
        counts
    } else {
        count_need(count_needs(counts, needs.drop_last()), needs.last())
    }
}

/// Nothing is missed and nothing counts twice: between two snapshots the counts grow together by
/// the number of times the program was needed, each by its own share.
pub proof fn law_needs_are_counted(counts: (nat, nat), needs: Seq<Need>)
    ensures
        count_needs(counts, needs).0 == counts.0 + needs.filter(
            |need: Need| need is Retained,
        ).len(),
        count_needs(counts, needs).1 == counts.1 + needs.filter(
            |need: Need| need is Reparsed,
        ).len(),
        count_needs(counts, needs).0 + count_needs(counts, needs).1 == counts.0 + counts.1
            + needs.len(),
    decreases needs.len(),
{
    reveal(Seq::filter);
    if needs.len() > 0 {
        law_needs_are_counted(counts, needs.drop_last());
    }
}

/// Counts gathered over several roots.
#[derive(Clone, Copy, Debug, PartialEq, Eq, Structural)]
pub struct ReuseTotals {
    /// Files found.
    pub files: usize,
    /// Retained programs used.
    pub uses: u64,
    /// Scripts parsed again.
    pub reparses: u64,
}

impl ReuseTotals {
    /// No root yet.
    pub fn new() -> (r: ReuseTotals)
        ensures
            r == (ReuseTotals { files: 0, uses: 0, reparses: 0 }),
    {
        ReuseTotals { files: 0, uses: 0, reparses: 0 }
    }

    /// Adds the files of one root and what was counted while they were compiled.
    pub fn add_root(&mut self, files: usize, counted: (u64, u64))
        requires
            old(self).files + files <= usize::MAX,
            old(self).uses + counted.0 <= u64::MAX,
            old(self).reparses + counted.1 <= u64::MAX,
        ensures
            final(self).files == old(self).files + files,
            final(self).uses == old(self).uses + counted.0,
            final(self).reparses == old(self).reparses + counted.1,
    {
        self.files = self.files + files;
        self.uses = self.uses + counted.0;
        self.reparses = self.reparses + counted.1;
    }
}

/// How often the program was needed, or `None` where it never was: the share of reuses then says
/// nothing.
pub fn times_needed(uses: u64, reparses: u64) -> (r: Option<u64>)
    requires
        uses + reparses <= u64::MAX,
    ensures
        r is None <==> uses == 0 && reparses == 0,
        r matches Some(total) ==> total == uses + reparses,
{
    let total: u64 = uses + reparses;
    if total == 0 {
        None
    } else {
        Some(total)
    }
}

} // verus!
