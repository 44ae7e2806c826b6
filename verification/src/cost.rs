//! The cost of one timer, estimated from batches of samples.

use vstd::prelude::*;
use vstd::relations::sorted_by;
use vstd::seq_lib::lemma_sorted_unique;

verus! {

/// The order of samples.
pub open spec fn in_order() -> spec_fn(u128, u128) -> bool {
    |a: u128, b: u128| a <= b
}

/// The sample that stands at place `k` when the samples are put in order.
pub open spec fn sample_at(samples: Seq<u128>, k: int) -> u128 {
    samples.sort_by(in_order())[k]
}

/// What the batches of one loop took.
#[derive(Clone, Copy, Debug, PartialEq, Eq, Structural)]
pub struct Summary {
    /// The least of the samples. Contention only ever adds time, so this is the estimate.
    pub min: u128,
    /// The sample in the middle.
    pub median: u128,
    /// The greatest of the samples.
    pub max: u128,
}

/// The estimate is one of the samples and no sample is below it; likewise the greatest, and the
/// middle one lies between them.
pub proof fn law_summary_bounds_samples(samples: Seq<u128>)
    requires
        samples.len() > 0,
    ensures
        samples.contains(sample_at(samples, 0)),
        samples.contains(sample_at(samples, samples.len() as int / 2)),
        samples.contains(sample_at(samples, samples.len() - 1)),
        forall|i: int|
            0 <= i < samples.len() ==> sample_at(samples, 0) <= #[trigger] samples[i] <= sample_at(
                samples,
                samples.len() - 1,
            ),
{
    broadcast use vstd::seq_lib::group_to_multiset_ensures;

    let leq = in_order();
    let ordered = samples.sort_by(leq);
    samples.lemma_sort_by_ensures(leq);
    assert(ordered.len() == samples.len()) by {
        samples.to_multiset_ensures();
        ordered.to_multiset_ensures();
    }
    assert forall|k: int| 0 <= k < ordered.len() implies samples.contains(
        #[trigger] ordered[k],
    ) by {
        assert(ordered.to_multiset().count(ordered[k]) > 0);
    }
    assert forall|i: int| 0 <= i < samples.len() implies ordered[0] <= #[trigger] samples[i]
        <= ordered[samples.len() - 1] by {
        assert(samples.to_multiset().count(samples[i]) > 0);
        let k = choose|k: int| 0 <= k < ordered.len() && ordered[k] == samples[i];
        if k > 0 {
            assert(leq(ordered[0], ordered[k]));
        }
        if k < ordered.len() - 1 {
            assert(leq(ordered[k], ordered[samples.len() - 1]));
        }
    }
}

/// The sample at place `k` is one of the samples; no more than `k` samples are below it, and no more
/// than there are places behind `k` are above it.
pub proof fn law_place_counts_samples(samples: Seq<u128>, k: int)
    requires
        0 <= k < samples.len(),
    ensures
        samples.contains(sample_at(samples, k)),
        samples.filter(|sample: u128| sample < sample_at(samples, k)).len() <= k,
        samples.filter(|sample: u128| sample > sample_at(samples, k)).len() <= samples.len() - 1
            - k,
{
    let leq = in_order();
    let ordered = samples.sort_by(leq);
    let place = sample_at(samples, k);
    let below = |sample: u128| sample < place;
    let above = |sample: u128| sample > place;
    samples.lemma_sort_by_ensures(leq);
    samples.to_multiset_ensures();
    ordered.to_multiset_ensures();
    assert(ordered.to_multiset().count(ordered[k]) > 0);
    lemma_count_ignores_order(samples, ordered, below);
    lemma_count_ignores_order(samples, ordered, above);
    assert forall|i: int| k <= i < ordered.len() implies !below(#[trigger] ordered[i]) by {
        if k < i {
            assert(leq(ordered[k], ordered[i]));
        }
    }
    assert forall|i: int| 0 <= i < k + 1 implies !above(#[trigger] ordered[i]) by {
        if i < k {
            assert(leq(ordered[i], ordered[k]));
        }
    }
    lemma_count_in_front(ordered, below, k);
    lemma_count_behind(ordered, above, k + 1);
}

/// Filtering commutes with forgetting the order.
proof fn lemma_filter_to_multiset(samples: Seq<u128>, chosen: spec_fn(u128) -> bool)
    ensures
        samples.filter(chosen).to_multiset() =~= samples.to_multiset().filter(chosen),
    decreases samples.len(),
{
    reveal(Seq::filter);
    broadcast use vstd::seq_lib::group_to_multiset_ensures;
    broadcast use vstd::multiset::group_multiset_axioms;

    if samples.len() > 0 {
        lemma_filter_to_multiset(samples.drop_last(), chosen);
        assert(samples =~= samples.drop_last().push(samples.last()));
    }
}

/// How many samples are chosen does not depend on their order.
proof fn lemma_count_ignores_order(
    samples: Seq<u128>,
    others: Seq<u128>,
    chosen: spec_fn(u128) -> bool,
)
    requires
        samples.to_multiset() == others.to_multiset(),
    ensures
        samples.filter(chosen).len() == others.filter(chosen).len(),
{
    lemma_filter_to_multiset(samples, chosen);
    lemma_filter_to_multiset(others, chosen);
    samples.filter(chosen).to_multiset_ensures();
    others.filter(chosen).to_multiset_ensures();
}

/// Where only the first `k` samples can be chosen, no more than `k` are.
proof fn lemma_count_in_front(samples: Seq<u128>, chosen: spec_fn(u128) -> bool, k: int)
    requires
        0 <= k,
        forall|i: int| k <= i < samples.len() ==> !chosen(#[trigger] samples[i]),
    ensures
        samples.filter(chosen).len() <= k,
    decreases samples.len(),
{
    reveal(Seq::filter);
    if samples.len() > 0 {
        let rest = samples.drop_last();
        if k > rest.len() {
            assert(rest.filter(chosen).len() <= rest.len()) by {
                lemma_count_in_front(rest, chosen, rest.len() as int);
            }
        } else {
            lemma_count_in_front(rest, chosen, k);
        }
    }
}

/// Where none of the first `k` samples is chosen, no more are than stand behind them.
proof fn lemma_count_behind(samples: Seq<u128>, chosen: spec_fn(u128) -> bool, k: int)
    requires
        0 <= k <= samples.len(),
        forall|i: int| 0 <= i < k ==> !chosen(#[trigger] samples[i]),
    ensures
        samples.filter(chosen).len() <= samples.len() - k,
    decreases samples.len(),
{
    reveal(Seq::filter);
    if samples.len() > 0 {
        let rest = samples.drop_last();
        if k == samples.len() {
            assert(!chosen(samples[k - 1]));
            lemma_count_behind(rest, chosen, k - 1);
        } else {
            lemma_count_behind(rest, chosen, k);
        }
    }
}

/// A sample goes in behind those that are no greater and before those that are greater.
proof fn lemma_insert_in_order(ordered: Seq<u128>, k: int, sample: u128)
    requires
        sorted_by(ordered, in_order()),
        0 <= k <= ordered.len(),
        k > 0 ==> ordered[k - 1] <= sample,
        forall|j: int| k <= j < ordered.len() ==> sample < ordered[j],
    ensures
        sorted_by(ordered.insert(k, sample), in_order()),
        ordered.insert(k, sample).to_multiset() == ordered.to_multiset().insert(sample),
{
    broadcast use vstd::seq_lib::group_to_multiset_ensures;

    let leq = in_order();
    let longer = ordered.insert(k, sample);
    assert forall|i: int, j: int| 0 <= i < j < longer.len() implies #[trigger] leq(
        longer[i],
        longer[j],
    ) by {
        let i0 = if i < k { i } else { i - 1 };
        let j0 = if j < k { j } else { j - 1 };
        if i != k && j != k {
            assert(leq(ordered[i0], ordered[j0]));
        }
        if j == k && i < k - 1 {
            assert(leq(ordered[i], ordered[k - 1]));
        }
    }
}

/// Puts samples in order.
fn sorted(samples: &Vec<u128>) -> (r: Vec<u128>)
    ensures
        r@ == samples@.sort_by(in_order()),
{
    let mut r: Vec<u128> = Vec::new();
    let mut i: usize = 0;
    assert(samples@.take(0) =~= r@);
    while i < samples.len()
        invariant
            i <= samples@.len(),
            sorted_by(r@, in_order()),
            r@.to_multiset() == samples@.take(i as int).to_multiset(),
            r@.len() == i,
        decreases samples@.len() - i,
    {
        let sample: u128 = samples[i];
        let mut k: usize = r.len();
        while k > 0 && r[k - 1] > sample
            invariant
                k <= r@.len(),
                forall|j: int| k <= j < r@.len() ==> sample < r@[j],
            decreases k,
        {
            k = k - 1;
        }
        let ghost before = r@;
        r.insert(k, sample);
        proof {
            assert(samples@.take(i + 1) =~= samples@.take(i as int).push(sample));
            samples@.take(i as int).to_multiset_ensures();
            lemma_insert_in_order(before, k as int, sample);
        }
        i = i + 1;
    }
    proof {
        assert(samples@.take(i as int) =~= samples@);
        samples@.lemma_sort_by_ensures(in_order());
        lemma_sorted_unique(r@, samples@.sort_by(in_order()), in_order());
    }
    r
}

/// The least, the middle and the greatest of the samples.
pub fn summarize(samples: &Vec<u128>) -> (r: Summary)
    requires
        samples@.len() > 0,
    ensures
        r.min == sample_at(samples@, 0),
        r.median == sample_at(samples@, samples@.len() as int / 2),
        r.max == sample_at(samples@, samples@.len() - 1),
        samples@.contains(r.min) && samples@.contains(r.median) && samples@.contains(r.max),
        forall|i: int| 0 <= i < samples@.len() ==> r.min <= #[trigger] samples@[i] <= r.max,
        samples@.filter(|sample: u128| sample < r.median).len() <= samples@.len() / 2,
        samples@.filter(|sample: u128| sample > r.median).len() <= samples@.len() - 1
            - samples@.len() as int / 2,
{
    let sorted = sorted(samples);
    proof {
        samples@.lemma_sort_by_ensures(in_order());
        samples@.to_multiset_ensures();
        sorted@.to_multiset_ensures();
        law_summary_bounds_samples(samples@);
        law_place_counts_samples(samples@, samples@.len() as int / 2);
    }
    Summary { min: sorted[0], median: sorted[sorted.len() / 2], max: sorted[sorted.len() - 1] }
}

/// Whether a round runs the timed loop before the control loop. Rounds alternate, so that a machine
/// that drifts does not favour one of the two.
pub fn timed_first(round: usize) -> (r: bool)
    ensures
        r == (round % 2 == 0),
{
    round % 2 == 0
}

} // verus!
