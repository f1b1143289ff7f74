//! Candidate operations and the order in which a cycle considers them.

use crate::address::Address;
use crate::chain::ChainSpec;
use crate::gas::OperationShape;
use vstd::prelude::*;

verus! {

/// A pending operation in the pool.
#[derive(Clone, Debug)]
pub struct CandidateOperation {
    /// Unique identifier of the operation.
    pub id: u64,
    /// What the gas of the operation depends on.
    pub shape: OperationShape,
    /// The fee the operation declares it will pay.
    pub fee_bid: u128,
    /// When the operation was accepted into the pool.
    pub arrival_millis: u64,
    /// The signature aggregator the operation relies on, if any.
    pub aggregator: Option<Address>,
    /// The submission proxy needed to include the operation, if any.
    pub proxy: Option<Address>,
}

/// What becomes of a candidate that an earlier cycle found oversized.
#[derive(Clone, Copy, Debug, PartialEq, Eq, Structural)]
pub enum OversizedVerdict {
    /// Its shape has changed: it is considered again.
    Retry,
    /// Its shape is the same: it is dropped and reported as oversized.
    Drop,
}

/// What a cycle collected from the pool.
pub struct Collected {
    /// The eligible candidates, highest priority first.
    pub candidates: Vec<CandidateOperation>,
    /// Identifiers of the candidates left out because they name an unknown capability, in
    /// pool order.
    pub skipped: Vec<u64>,
}

/// Whether `first` has strictly higher priority than `second`: a higher fee bid, or the same
/// bid and an earlier arrival.
pub open spec fn precedes(first: CandidateOperation, second: CandidateOperation) -> bool {
    first.fee_bid > second.fee_bid || (first.fee_bid == second.fee_bid && first.arrival_millis
        < second.arrival_millis)
}

/// Whether every capability that the candidate names is registered on the chain.
pub open spec fn eligible(candidate: CandidateOperation, chain_spec: &ChainSpec) -> bool {
    &&& candidate.aggregator matches Some(address)
        ==> chain_spec.signature_aggregators@.contains_key(address@)
    &&& candidate.proxy matches Some(address) ==> chain_spec.submission_proxies@.contains_key(
        address@,
    )
}

/// No candidate stands behind one of strictly lower priority.
pub open spec fn in_priority_order(candidates: Seq<CandidateOperation>) -> bool {
    forall|i: int, j: int|
        0 <= i < j < candidates.len() ==> !precedes(
            #[trigger] candidates[j],
            #[trigger] candidates[i],
        )
}

/// `ordered` with `candidate` placed behind every candidate of strictly higher priority at
/// its front, and before all others.
pub open spec fn placed(ordered: Seq<CandidateOperation>, candidate: CandidateOperation) -> Seq<
    CandidateOperation,
>
    decreases ordered.len(),
{
    if ordered.len() == 0 {
        seq![candidate]
    } else if precedes(ordered[0], candidate) {
        seq![ordered[0]] + placed(ordered.drop_first(), candidate)
    } else {
        seq![candidate] + ordered
    }
}

/// The eligible candidates of the pool in priority order; among candidates of equal priority
/// the pool's order is kept.
pub open spec fn collected(pool: Seq<CandidateOperation>, chain_spec: &ChainSpec) -> Seq<
    CandidateOperation,
>
    decreases pool.len(),
{
    if pool.len() == 0 {
        Seq::empty()
    } else if eligible(pool[0], chain_spec) {
        placed(collected(pool.drop_first(), chain_spec), pool[0])
    } else {
        collected(pool.drop_first(), chain_spec)
    }
}

/// The identifiers of the candidates of the pool that are not eligible, in pool order.
pub open spec fn skipped(pool: Seq<CandidateOperation>, chain_spec: &ChainSpec) -> Seq<u64>
    decreases pool.len(),
{
    if pool.len() == 0 {
        Seq::empty()
    } else if eligible(pool[0], chain_spec) {
        skipped(pool.drop_first(), chain_spec)
    } else {
        seq![pool[0].id] + skipped(pool.drop_first(), chain_spec)
    }
}

/// Where [`placed`] puts a candidate: behind the leading run of candidates that strictly
/// precede it.
pub proof fn lemma_placed_is_insertion(
    ordered: Seq<CandidateOperation>,
    candidate: CandidateOperation,
    slot: int,
)
    requires
        0 <= slot <= ordered.len(),
        forall|i: int| 0 <= i < slot ==> precedes(#[trigger] ordered[i], candidate),
        slot < ordered.len() ==> !precedes(ordered[slot], candidate),
    ensures
        placed(ordered, candidate) == ordered.insert(slot, candidate),
    decreases ordered.len(),
{
    if ordered.len() > 0 && precedes(ordered[0], candidate) {
        let rest = ordered.drop_first();
        lemma_placed_is_insertion(rest, candidate, slot - 1);
        assert(seq![ordered[0]] + rest.insert(slot - 1, candidate) =~= ordered.insert(
            slot,
            candidate,
        ));
    }
}

/// The slot at which [`placed`] puts a candidate.
pub open spec fn slot_of(ordered: Seq<CandidateOperation>, candidate: CandidateOperation) -> int
    decreases ordered.len(),
{
    if ordered.len() == 0 || !precedes(ordered[0], candidate) {
        0
    } else {
        1 + slot_of(ordered.drop_first(), candidate)
    }
}

proof fn lemma_slot_of(ordered: Seq<CandidateOperation>, candidate: CandidateOperation)
    ensures
        0 <= slot_of(ordered, candidate) <= ordered.len(),
        forall|i: int|
            0 <= i < slot_of(ordered, candidate) ==> precedes(#[trigger] ordered[i], candidate),
        slot_of(ordered, candidate) < ordered.len() ==> !precedes(
            ordered[slot_of(ordered, candidate)],
            candidate,
        ),
        placed(ordered, candidate) == ordered.insert(slot_of(ordered, candidate), candidate),
    decreases ordered.len(),
{
    if ordered.len() > 0 && precedes(ordered[0], candidate) {
        let rest = ordered.drop_first();
        lemma_slot_of(rest, candidate);
        assert forall|i: int| 0 <= i < slot_of(ordered, candidate) implies precedes(
            #[trigger] ordered[i],
            candidate,
        ) by {
            if i > 0 {
                assert(ordered[i] == rest[i - 1]);
            }
        }
    }
    lemma_placed_is_insertion(ordered, candidate, slot_of(ordered, candidate));
}

/// Placing a candidate keeps the priority order, and adds the candidate and nothing else.
pub proof fn lemma_placed_keeps_order(
    ordered: Seq<CandidateOperation>,
    candidate: CandidateOperation,
)
    requires
        in_priority_order(ordered),
    ensures
        in_priority_order(placed(ordered, candidate)),
        placed(ordered, candidate).len() == ordered.len() + 1,
        forall|other: CandidateOperation|
            placed(ordered, candidate).contains(other) <==> other == candidate
                || ordered.contains(other),
{
    lemma_slot_of(ordered, candidate);
    let slot = slot_of(ordered, candidate);
    let after = ordered.insert(slot, candidate);
    assert forall|i: int, j: int| 0 <= i < j < after.len() implies !precedes(
        #[trigger] after[j],
        #[trigger] after[i],
    ) by {}
    assert forall|other: CandidateOperation| after.contains(other) <==> other == candidate
        || ordered.contains(other) by {
        if other == candidate {
            assert(after[slot] == other);
        }
        if ordered.contains(other) {
            let k = choose|k: int| 0 <= k < ordered.len() && ordered[k] == other;
            if k < slot {
                assert(after[k] == other);
            } else {
                assert(after[k + 1] == other);
            }
        }
    }
}

/// What a cycle collects is in priority order and holds exactly the eligible candidates of
/// the pool; every other candidate is reported as skipped.
pub proof fn lemma_collected_is_ordered(pool: Seq<CandidateOperation>, chain_spec: &ChainSpec)
    ensures
        in_priority_order(collected(pool, chain_spec)),
        collected(pool, chain_spec).len() + skipped(pool, chain_spec).len() == pool.len(),
        forall|candidate: CandidateOperation|
            collected(pool, chain_spec).contains(candidate) <==> pool.contains(candidate)
                && eligible(candidate, chain_spec),
        forall|i: int|
            0 <= i < pool.len() && !eligible(#[trigger] pool[i], chain_spec) ==> skipped(
                pool,
                chain_spec,
            ).contains(pool[i].id),
    decreases pool.len(),
{
    if pool.len() > 0 {
        let rest = pool.drop_first();
        lemma_collected_is_ordered(rest, chain_spec);
        let before = collected(rest, chain_spec);
        if eligible(pool[0], chain_spec) {
            lemma_placed_keeps_order(before, pool[0]);
        }
        assert forall|candidate: CandidateOperation|
            collected(pool, chain_spec).contains(candidate) <==> pool.contains(candidate)
                && eligible(candidate, chain_spec) by {
            if pool.contains(candidate) {
                let k = choose|k: int| 0 <= k < pool.len() && pool[k] == candidate;
                if k > 0 {
                    assert(rest[k - 1] == candidate);
                }
            }
            if rest.contains(candidate) {
                let k = choose|k: int| 0 <= k < rest.len() && rest[k] == candidate;
                assert(pool[k + 1] == candidate);
            }
        }
        assert forall|i: int|
            0 <= i < pool.len() && !eligible(#[trigger] pool[i], chain_spec) implies skipped(
            pool,
            chain_spec,
        ).contains(pool[i].id) by {
            let now = skipped(pool, chain_spec);
            let earlier = skipped(rest, chain_spec);
            if i == 0 {
                assert(now[0] == pool[0].id);
            } else {
                assert(rest[i - 1] == pool[i]);
                let k = choose|k: int| 0 <= k < earlier.len() && earlier[k] == pool[i].id;
                if !eligible(pool[0], chain_spec) {
                    assert(now[k + 1] == pool[i].id);
                }
            }
        }
    } else {
        assert forall|candidate: CandidateOperation|
            !collected(pool, chain_spec).contains(candidate) by {}
    }
}

/// Judges a candidate that was found oversized with the shape `rejected`: it gets another
/// cycle only if its shape has changed since.
pub fn judge_oversized(rejected: &OperationShape, current: &OperationShape) -> (verdict:
    OversizedVerdict)
    ensures
        verdict == if rejected.agrees_with(current) {
            OversizedVerdict::Drop
        } else {
            OversizedVerdict::Retry
        },
{
    if rejected.same_as(current) {
        OversizedVerdict::Drop
    } else {
        OversizedVerdict::Retry
    }
}

/// Decides whether `first` has strictly higher priority than `second`.
pub fn has_priority_over(first: &CandidateOperation, second: &CandidateOperation) -> (higher:
    bool)
    ensures
        higher == precedes(*first, *second),
{
    first.fee_bid > second.fee_bid || (first.fee_bid == second.fee_bid && first.arrival_millis
        < second.arrival_millis)
}

/// Decides whether every capability that the candidate names is registered on the chain.
pub fn is_eligible(candidate: &CandidateOperation, chain_spec: &ChainSpec) -> (known: bool)
    ensures
        known == eligible(*candidate, chain_spec),
{
    let aggregator_known = match &candidate.aggregator {
        Some(address) => chain_spec.get_signature_aggregator(address).is_some(),
        None => true,
    };
    let proxy_known = match &candidate.proxy {
        Some(address) => chain_spec.get_submission_proxy(address).is_some(),
        None => true,
    };
    aggregator_known && proxy_known
}

fn find_slot(ordered: &Vec<CandidateOperation>, candidate: &CandidateOperation) -> (slot: usize)
    ensures
        slot <= ordered@.len(),
        forall|i: int| 0 <= i < slot ==> precedes(#[trigger] ordered@[i], *candidate),
        slot < ordered@.len() ==> !precedes(ordered@[slot as int], *candidate),
{
    let mut slot: usize = 0;
    while slot < ordered.len() && has_priority_over(&ordered[slot], candidate)
        invariant
            slot <= ordered@.len(),
            forall|i: int| 0 <= i < slot ==> precedes(#[trigger] ordered@[i], *candidate),
        decreases ordered@.len() - slot,
    {
        slot += 1;
    }
    slot
}

/// Collects the eligible candidates of the pool in priority order: highest fee bid first,
/// on equal bids the earliest arrival first, and otherwise in the order of the pool.
/// Candidates that name a capability the chain does not know are left out and reported.
pub fn collect(pool: Vec<CandidateOperation>, chain_spec: &ChainSpec) -> (result: Collected)
    ensures
        result.candidates@ == collected(pool@, chain_spec),
        result.skipped@ == skipped(pool@, chain_spec),
        in_priority_order(result.candidates@),
{
    let ghost whole = pool@;
    let mut rest = pool;
    let mut candidates: Vec<CandidateOperation> = Vec::new();
    let mut left_out: Vec<u64> = Vec::new();
    while rest.len() > 0
        invariant
            rest@.len() <= whole.len(),
            rest@ == whole.take(rest@.len() as int),
            candidates@ == collected(whole.skip(rest@.len() as int), chain_spec),
            left_out@ == skipped(whole.skip(rest@.len() as int), chain_spec),
        decreases rest@.len(),
    {
        let ghost k = rest@.len() as int;
        let candidate = rest.pop().unwrap();
        proof {
            assert(whole.skip(k - 1).drop_first() =~= whole.skip(k));
        }
        if is_eligible(&candidate, chain_spec) {
            let slot = find_slot(&candidates, &candidate);
            proof {
                lemma_placed_is_insertion(candidates@, candidate, slot as int);
            }
            candidates.insert(slot, candidate);
        } else {
            left_out.insert(0, candidate.id);
        }
    }
    proof {
        lemma_collected_is_ordered(whole, chain_spec);
    }
    Collected { candidates, skipped: left_out }
}

} // verus!
