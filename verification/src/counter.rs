//! Bookkeeping of the shared success counter. The counter's whole contract
//! is: exactly one increment per `Swept` outcome, no increment for any
//! other outcome, so its final value is the number of sweeps that
//! succeeded across all workers — in whatever order their cycles finished.

use vstd::prelude::*;
use vstd::multiset::Multiset;

use crate::cycle::CycleError;
use crate::cycle::CycleEvent;
use crate::cycle::CycleState;
use crate::cycle::SweepOutcome;
use crate::cycle::spec_step;

verus! {

/// Whether an outcome is a successful sweep.
pub open spec fn is_swept(outcome: SweepOutcome) -> bool {
    outcome matches SweepOutcome::Swept { .. }
}

/// One counter step: up by one on a successful sweep, unchanged otherwise.
pub open spec fn spec_record(counter: nat, outcome: SweepOutcome) -> nat {
    if is_swept(outcome) {
        counter + 1
    } else {
        counter
    }
}

/// Applies one outcome to the counter: exactly one increment per `Swept`
/// outcome, nothing for any other. The caller supplies the atomicity of
/// the underlying cell; this step defines what each update must do.
pub fn record_outcome(counter: u64, outcome: &SweepOutcome) -> (r: u64)
    requires
        counter < u64::MAX,
    ensures
        r as nat == spec_record(counter as nat, *outcome),
{
    match outcome {
        SweepOutcome::Swept { .. } => counter + 1,
        _ => counter,
    }
}

/// The counter after replaying a trace of outcomes, oldest first, starting
/// from `start`.
pub open spec fn replay(start: nat, trace: Seq<SweepOutcome>) -> nat
    decreases trace.len(),
{
    if trace.len() == 0 {
        start
    } else {
        spec_record(replay(start, trace.drop_last()), trace.last())
    }
}

/// How many outcomes of a trace are successful sweeps.
pub open spec fn swept_total(trace: Seq<SweepOutcome>) -> nat {
    trace.filter(|o: SweepOutcome| is_swept(o)).len()
}

/// How many outcomes in an unordered bag are successful sweeps.
pub open spec fn swept_in_bag(bag: Multiset<SweepOutcome>) -> nat {
    bag.filter(|o: SweepOutcome| is_swept(o)).len()
}

/// Law: replaying a trace adds exactly its number of `Swept` outcomes to
/// the counter — one increment per success, none lost, none spurious.
pub proof fn lemma_replay_counts_sweeps(start: nat, trace: Seq<SweepOutcome>)
    ensures
        replay(start, trace) == start + swept_total(trace),
    decreases trace.len(),
{
    reveal(Seq::filter);
    if trace.len() == 0 {
    } else {
        lemma_replay_counts_sweeps(start, trace.drop_last());
    }
}

/// Law: the sweep count of a trace depends only on which outcomes it
/// holds, not on the order the workers happened to finish them in.
pub proof fn lemma_swept_total_is_bag_count(trace: Seq<SweepOutcome>)
    ensures
        swept_total(trace) == swept_in_bag(trace.to_multiset()),
    decreases trace.len(),
{
    broadcast use vstd::multiset::group_multiset_axioms;
    broadcast use vstd::multiset::group_multiset_properties;
    broadcast use vstd::seq_lib::group_to_multiset_ensures;
    reveal(Seq::filter);
    let pred = |o: SweepOutcome| is_swept(o);
    if trace.len() == 0 {
        assert(trace.to_multiset().filter(pred) =~= Multiset::empty());
    } else {
        let prefix = trace.drop_last();
        let last = trace.last();
        lemma_swept_total_is_bag_count(prefix);
        assert(trace =~= prefix.push(last));
        assert(trace.to_multiset() =~= prefix.to_multiset().insert(last));
        if pred(last) {
            assert(trace.to_multiset().filter(pred) =~= prefix.to_multiset().filter(
                pred,
            ).insert(last));
        } else {
            assert(trace.to_multiset().filter(pred) =~= prefix.to_multiset().filter(pred));
        }
    }
}

/// Law: sweep counts add up over a union of bags.
pub proof fn lemma_swept_in_bag_add(a: Multiset<SweepOutcome>, b: Multiset<SweepOutcome>)
    ensures
        swept_in_bag(a.add(b)) == swept_in_bag(a) + swept_in_bag(b),
{
    broadcast use vstd::multiset::group_multiset_axioms;

    let pred = |o: SweepOutcome| is_swept(o);
    assert(a.add(b).filter(pred) =~= a.filter(pred).add(b.filter(pred)));
}

/// Everything a pool of workers reported, thrown into one unordered bag.
pub open spec fn pool_bag(histories: Seq<Seq<SweepOutcome>>) -> Multiset<SweepOutcome>
    decreases histories.len(),
{
    if histories.len() == 0 {
        Multiset::empty()
    } else {
        pool_bag(histories.drop_last()).add(histories.last().to_multiset())
    }
}

/// Law: if every one of the pool's workers swept exactly `k` times, the
/// pool's bag holds exactly `workers * k` sweeps.
pub proof fn lemma_pool_bag_swept(histories: Seq<Seq<SweepOutcome>>, k: nat)
    requires
        forall|i: int|
            0 <= i < histories.len() ==> swept_total(#[trigger] histories[i]) == k,
    ensures
        swept_in_bag(pool_bag(histories)) == histories.len() * k,
    decreases histories.len(),
{
    broadcast use vstd::multiset::group_multiset_axioms;

    let pred = |o: SweepOutcome| is_swept(o);
    if histories.len() == 0 {
        assert(Multiset::<SweepOutcome>::empty().filter(pred) =~= Multiset::empty());
    } else {
        let prefix = histories.drop_last();
        lemma_pool_bag_swept(prefix, k);
        lemma_swept_in_bag_add(pool_bag(prefix), histories.last().to_multiset());
        lemma_swept_total_is_bag_count(histories.last());
        assert(swept_total(histories.last()) == k);
        assert((histories.len() - 1) * k + k == histories.len() * k) by (nonlinear_arith);
    }
}

/// Law (concurrent counting): however the workers' cycles interleave into
/// one shared trace, a counter that starts at zero and takes exactly one
/// increment per `Swept` outcome ends at the pool's total sweep count —
/// with `n` workers each completing exactly `k` successful sweeps, at
/// exactly `n * k`. No update is lost to reordering.
pub proof fn lemma_pool_counter_total(
    histories: Seq<Seq<SweepOutcome>>,
    trace: Seq<SweepOutcome>,
    k: nat,
)
    requires
        trace.to_multiset() == pool_bag(histories),
        forall|i: int|
            0 <= i < histories.len() ==> swept_total(#[trigger] histories[i]) == k,
    ensures
        replay(0, trace) == histories.len() * k,
{
    lemma_replay_counts_sweeps(0, trace);
    lemma_swept_total_is_bag_count(trace);
    lemma_pool_bag_swept(histories, k);
}

/// Law: a cycle whose balance query fails ends as `Failed` and leaves the
/// shared counter exactly where it was.
pub proof fn lemma_failed_query_leaves_counter(counter: nat)
    ensures
        spec_step(CycleState::AwaitingBalance, CycleEvent::BalanceQueryFailed)
            == (CycleState::Done {
            outcome: SweepOutcome::Failed { error: CycleError::Query },
        }),
        spec_record(counter, SweepOutcome::Failed { error: CycleError::Query }) == counter,
{
}

} // verus!
