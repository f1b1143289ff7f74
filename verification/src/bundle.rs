//! Pricing the collected candidates and assembling them into a bundle.

use crate::chain::ChainSpec;
use crate::da::{da_charge, da_charged, DaError};
use crate::fee::FeeQuote;
use crate::gas::{gas_breakdown, GasBreakdown};
use crate::ids::copy_ids;
use crate::pool::{collected, CandidateOperation};
use crate::ratio::Ratio;
use vstd::prelude::*;

verus! {

/// A candidate with the gas it is charged.
#[derive(Clone, Copy, Debug, PartialEq, Eq, Structural)]
pub struct PricedCandidate {
    /// Identifier of the candidate.
    pub id: u64,
    /// The gas of the candidate.
    pub gas: GasBreakdown,
    /// Length in bytes that the candidate adds to the bundle transaction.
    pub encoded_len: usize,
}

/// The limits that a bundle has to respect.
#[derive(Clone, Copy, Debug, PartialEq, Eq, Structural)]
pub struct BundleLimits {
    /// Intrinsic gas that the bundle transaction pays once.
    pub intrinsic: u128,
    /// The most gas a bundle may use: the block gas limit times the margin.
    pub gas_budget: u128,
    /// The largest size of the bundle transaction in bytes.
    pub max_size: usize,
    /// Whether the data-availability charge counts towards the gas budget.
    pub include_da: bool,
}

/// An assembled batch of operations. Every bundle has at least one member and respects the
/// limits it was built under.
#[derive(Debug)]
pub struct Bundle {
    members: Vec<u64>,
    gas: u128,
    size: usize,
    fee: FeeQuote,
    submission_id: Option<u64>,
    limits: BundleLimits,
}

/// What a bundle holds.
pub struct BundleView {
    /// Identifiers of the member operations, in the order of inclusion.
    pub members: Seq<u64>,
    /// Aggregate gas that counts towards the gas budget: the intrinsic gas and what each
    /// member adds.
    pub gas: u128,
    /// Serialized size in bytes: the sum of the members' encoded lengths.
    pub size: usize,
    /// The fee quote that the bundle was built with.
    pub fee: FeeQuote,
    /// Identifier of the submission, once the bundle was dispatched.
    pub submission_id: Option<u64>,
    /// The limits that the bundle was built under.
    pub limits: BundleLimits,
}

/// The outcome of assembling.
pub struct Assembly {
    /// The bundle, if any candidate was accepted.
    pub bundle: Option<Bundle>,
    /// Identifiers of the candidates that exceed a limit even alone.
    pub oversized: Vec<u64>,
    /// Identifiers of the candidates that did not fit beside the accepted ones and stay in
    /// the pool.
    pub deferred: Vec<u64>,
}

/// What assembling selects, as a mathematical value.
pub struct Selection {
    /// Identifiers of the accepted candidates, in priority order.
    pub members: Seq<u64>,
    /// Identifiers of the candidates that exceed a limit even alone.
    pub oversized: Seq<u64>,
    /// Identifiers of the candidates that did not fit beside the accepted ones.
    pub deferred: Seq<u64>,
    /// What the accepted candidates add to the gas of the bundle.
    pub gas: int,
    /// Sum of the encoded lengths of the accepted candidates.
    pub size: int,
}

/// The oracle's answer for the candidate at `index`; a missing entry is no answer.
pub open spec fn answer_at(da_answers: Seq<Option<u128>>, index: int) -> Option<u128> {
    if 0 <= index < da_answers.len() {
        da_answers[index]
    } else {
        None
    }
}

/// The candidate with its gas for the given data-availability charge.
pub open spec fn priced_with(candidate: CandidateOperation, chain_spec: &ChainSpec, da_gas: u128)
    -> PricedCandidate {
    PricedCandidate {
        id: candidate.id,
        gas: gas_breakdown(candidate.shape, chain_spec, da_gas),
        encoded_len: candidate.shape.encoded_len,
    }
}

/// The candidates with their gas, or the error of the first candidate whose
/// data-availability charge is needed and missing.
pub open spec fn priced(
    candidates: Seq<CandidateOperation>,
    da_answers: Seq<Option<u128>>,
    chain_spec: &ChainSpec,
) -> Result<Seq<PricedCandidate>, DaError> {
    if forall|i: int|
        0 <= i < candidates.len() ==> da_charged(chain_spec, #[trigger] answer_at(da_answers, i))
            is Ok {
        Ok(
            Seq::new(
                candidates.len(),
                |i: int|
                    priced_with(
                        candidates[i],
                        chain_spec,
                        da_charged(chain_spec, answer_at(da_answers, i))->Ok_0,
                    ),
            ),
        )
    } else {
        Err(DaError::OracleUnavailable)
    }
}

/// The limits of a bundle on `chain_spec` with the given margin on the block gas limit.
pub open spec fn limits_of(chain_spec: &ChainSpec, margin: Ratio) -> BundleLimits {
    BundleLimits {
        intrinsic: chain_spec.transaction_intrinsic_gas as u128,
        gas_budget: margin.of(chain_spec.block_gas_limit as int) as u128,
        max_size: chain_spec.max_transaction_size_bytes,
        include_da: chain_spec.include_da_gas_in_gas_limit,
    }
}

/// Whether a candidate exceeds a limit even as the only member of a bundle.
pub open spec fn oversized_alone(candidate: PricedCandidate, limits: BundleLimits) -> bool {
    limits.intrinsic + candidate.gas.marginal(limits.include_da) > limits.gas_budget
        || candidate.encoded_len > limits.max_size
}

/// Whether a candidate fits beside the candidates already selected.
pub open spec fn fits(candidate: PricedCandidate, limits: BundleLimits, chosen: Selection)
    -> bool {
    limits.intrinsic + chosen.gas + candidate.gas.marginal(limits.include_da)
        <= limits.gas_budget && chosen.size + candidate.encoded_len <= limits.max_size
}

/// Greedy selection in the order given: a candidate that exceeds a limit alone is oversized;
/// one that fits beside those accepted before it is accepted; any other is deferred, and the
/// selection goes on with the next.
pub open spec fn selected(candidates: Seq<PricedCandidate>, limits: BundleLimits) -> Selection
    decreases candidates.len(),
{
    if candidates.len() == 0 {
        Selection {
            members: Seq::empty(),
            oversized: Seq::empty(),
            deferred: Seq::empty(),
            gas: 0,
            size: 0,
        }
    } else {
        let chosen = selected(candidates.drop_last(), limits);
        let candidate = candidates.last();
        if oversized_alone(candidate, limits) {
            Selection { oversized: chosen.oversized.push(candidate.id), ..chosen }
        } else if fits(candidate, limits, chosen) {
            Selection {
                members: chosen.members.push(candidate.id),
                gas: chosen.gas + candidate.gas.marginal(limits.include_da),
                size: chosen.size + candidate.encoded_len,
                ..chosen
            }
        } else {
            Selection { deferred: chosen.deferred.push(candidate.id), ..chosen }
        }
    }
}

impl BundleView {
    /// Whether the bundle respects its limits: its aggregate gas is within the gas budget and
    /// its serialized size within the largest transaction size.
    pub open spec fn within_limits(self) -> bool {
        self.gas <= self.limits.gas_budget && self.size <= self.limits.max_size
    }

    /// Whether the bundle is what the selection describes.
    pub open spec fn matches_selection(self, chosen: Selection, limits: BundleLimits, fee: FeeQuote)
        -> bool {
        &&& self.members == chosen.members
        &&& self.gas == limits.intrinsic + chosen.gas
        &&& self.size == chosen.size
        &&& self.fee == fee
        &&& self.submission_id is None
        &&& self.limits == limits
    }
}

impl View for Bundle {
    type V = BundleView;

    closed spec fn view(&self) -> BundleView {
        BundleView {
            members: self.members@,
            gas: self.gas,
            size: self.size,
            fee: self.fee,
            submission_id: self.submission_id,
            limits: self.limits,
        }
    }
}

impl Bundle {
    #[verifier::type_invariant]
    spec fn well_formed(&self) -> bool {
        &&& self.members@.len() > 0
        &&& self.gas <= self.limits.gas_budget
        &&& self.size <= self.limits.max_size
    }

    /// Identifiers of the member operations, in the order of inclusion; at least one.
    pub fn members(&self) -> (members: &Vec<u64>)
        ensures
            members@ == self@.members,
            members@.len() > 0,
    {
        proof {
            use_type_invariant(self);
        }
        &self.members
    }

    /// Aggregate gas of the bundle. It never exceeds the gas budget.
    pub fn gas(&self) -> (gas: u128)
        ensures
            gas == self@.gas,
            gas <= self@.limits.gas_budget,
    {
        proof {
            use_type_invariant(self);
        }
        self.gas
    }

    /// Serialized size of the bundle in bytes. It never exceeds the largest transaction size.
    pub fn size(&self) -> (size: usize)
        ensures
            size == self@.size,
            size <= self@.limits.max_size,
    {
        proof {
            use_type_invariant(self);
        }
        self.size
    }

    /// The fee quote that the bundle was built with.
    pub fn fee(&self) -> (fee: FeeQuote)
        ensures
            fee == self@.fee,
    {
        self.fee
    }

    /// Identifier of the submission, once the bundle was dispatched.
    pub fn submission_id(&self) -> (id: Option<u64>)
        ensures
            id == self@.submission_id,
    {
        self.submission_id
    }

    /// The limits that the bundle was built under.
    pub fn limits(&self) -> (limits: BundleLimits)
        ensures
            limits == self@.limits,
            self@.within_limits(),
    {
        proof {
            use_type_invariant(self);
        }
        self.limits
    }

    /// Records the identifier under which the bundle was dispatched.
    pub fn mark_dispatched(&mut self, submission_id: u64)
        ensures
            final(self)@ == (BundleView { submission_id: Some(submission_id), ..old(self)@ }),
    {
        proof {
            use_type_invariant(&*self);
        }
        self.submission_id = Some(submission_id);
    }
}

impl Clone for Bundle {
    fn clone(&self) -> (copy: Self)
        ensures
            copy@ == self@,
    {
        proof {
            use_type_invariant(self);
        }
        Bundle {
            members: copy_ids(&self.members),
            gas: self.gas,
            size: self.size,
            fee: self.fee,
            submission_id: self.submission_id,
            limits: self.limits,
        }
    }
}

impl Assembly {
    /// Whether the outcome is what the selection describes: a bundle exactly if a candidate
    /// was accepted.
    pub open spec fn matches_selection(&self, chosen: Selection, limits: BundleLimits, fee: FeeQuote)
        -> bool {
        &&& self.oversized@ == chosen.oversized
        &&& self.deferred@ == chosen.deferred
        &&& match self.bundle {
            Some(bundle) => chosen.members.len() > 0 && bundle@.matches_selection(
                chosen,
                limits,
                fee,
            ),
            None => chosen.members.len() == 0,
        }
    }
}

/// A selection never exceeds the limits: the gas of a bundle with at least one member stays
/// within the gas budget, and its size within the largest transaction size.
pub proof fn lemma_selection_within_limits(candidates: Seq<PricedCandidate>, limits: BundleLimits)
    ensures
        0 <= selected(candidates, limits).gas,
        0 <= selected(candidates, limits).size <= limits.max_size,
        selected(candidates, limits).members.len() > 0 ==> limits.intrinsic + selected(
            candidates,
            limits,
        ).gas <= limits.gas_budget,
        selected(candidates, limits).members.len() == 0 ==> selected(candidates, limits).gas == 0
            && selected(candidates, limits).size == 0,
        selected(candidates, limits).members.len() + selected(candidates, limits).oversized.len()
            + selected(candidates, limits).deferred.len() == candidates.len(),
    decreases candidates.len(),
{
    if candidates.len() > 0 {
        lemma_selection_within_limits(candidates.drop_last(), limits);
    }
}

/// Every candidate ends in exactly one of the three lists of a selection, under its own
/// identifier and in the order given.
pub proof fn lemma_selection_partitions(
    candidates: Seq<PricedCandidate>,
    limits: BundleLimits,
    id: u64,
)
    ensures
        (selected(candidates, limits).members.contains(id) || selected(
            candidates,
            limits,
        ).oversized.contains(id) || selected(candidates, limits).deferred.contains(id))
            <==> exists|i: int| 0 <= i < candidates.len() && (#[trigger] candidates[i]).id == id,
    decreases candidates.len(),
{
    let now = selected(candidates, limits);
    if candidates.len() > 0 {
        let front = candidates.drop_last();
        let before = selected(front, limits);
        let last = candidates.last();
        lemma_selection_partitions(front, limits, id);
        assert forall|s: Seq<u64>| #[trigger] s.push(last.id).contains(id) <==> s.contains(id)
            || last.id == id by {
            if s.contains(id) {
                let k = choose|k: int| 0 <= k < s.len() && s[k] == id;
                assert(s.push(last.id)[k] == id);
            }
            if last.id == id {
                assert(s.push(last.id)[s.len() as int] == id);
            }
        }
        if exists|i: int| 0 <= i < front.len() && (#[trigger] front[i]).id == id {
            let k = choose|i: int| 0 <= i < front.len() && (#[trigger] front[i]).id == id;
            assert(candidates[k].id == id);
        }
        if exists|i: int| 0 <= i < candidates.len() && (#[trigger] candidates[i]).id == id {
            let k = choose|i: int| 0 <= i < candidates.len() && (#[trigger] candidates[i]).id == id;
            if k < front.len() {
                assert(front[k].id == id);
            }
        }
        if last.id == id {
            assert(candidates[candidates.len() - 1].id == id);
        }
    }
}

/// A selection takes no candidate twice: where the candidates have distinct identifiers, so
/// have the members.
pub proof fn lemma_members_are_distinct(candidates: Seq<PricedCandidate>, limits: BundleLimits)
    requires
        forall|i: int, j: int|
            0 <= i < j < candidates.len() ==> (#[trigger] candidates[i]).id
                != (#[trigger] candidates[j]).id,
    ensures
        selected(candidates, limits).members.no_duplicates(),
    decreases candidates.len(),
{
    if candidates.len() > 0 {
        let front = candidates.drop_last();
        let last = candidates.last();
        assert forall|i: int, j: int| 0 <= i < j < front.len() implies (#[trigger] front[i]).id
            != (#[trigger] front[j]).id by {
            assert(front[i] == candidates[i] && front[j] == candidates[j]);
        }
        lemma_members_are_distinct(front, limits);
        lemma_selection_partitions(front, limits, last.id);
        if selected(front, limits).members.contains(last.id) {
            let k = choose|k: int| 0 <= k < front.len() && (#[trigger] front[k]).id == last.id;
            assert(candidates[k].id == candidates[candidates.len() - 1].id);
        }
    }
}

/// Computes the limits of a bundle on this chain.
pub fn bundle_limits(chain_spec: &ChainSpec, margin: Ratio) -> (limits: BundleLimits)
    ensures
        limits == limits_of(chain_spec, margin),
{
    BundleLimits {
        intrinsic: chain_spec.transaction_intrinsic_gas(),
        gas_budget: chain_spec.block_gas_limit_mult(margin),
        max_size: chain_spec.max_transaction_size_bytes,
        include_da: chain_spec.include_da_gas_in_gas_limit,
    }
}

/// Prices one candidate for the given data-availability charge.
pub fn price_candidate(candidate: &CandidateOperation, chain_spec: &ChainSpec, da_gas: u128)
    -> (result: PricedCandidate)
    ensures
        result == priced_with(*candidate, chain_spec, da_gas),
{
    PricedCandidate {
        id: candidate.id,
        gas: GasBreakdown::compute(&candidate.shape, chain_spec, da_gas),
        encoded_len: candidate.shape.encoded_len,
    }
}

/// Prices the candidates of a cycle. `da_answers` holds the oracle's answer for each
/// candidate, in the same order; it is read only on chains that price data availability.
pub fn price_candidates(
    candidates: &Vec<CandidateOperation>,
    da_answers: &Vec<Option<u128>>,
    chain_spec: &ChainSpec,
) -> (result: Result<Vec<PricedCandidate>, DaError>)
    ensures
        match result {
            Ok(list) => priced(candidates@, da_answers@, chain_spec) == Ok::<
                Seq<PricedCandidate>,
                DaError,
            >(list@),
            Err(error) => priced(candidates@, da_answers@, chain_spec) == Err::<
                Seq<PricedCandidate>,
                DaError,
            >(error),
        },
{
    let mut list: Vec<PricedCandidate> = Vec::new();
    let mut i: usize = 0;
    while i < candidates.len()
        invariant
            i <= candidates@.len(),
            list@.len() == i,
            forall|j: int|
                0 <= j < i ==> da_charged(chain_spec, #[trigger] answer_at(da_answers@, j)) is Ok,
            forall|j: int|
                0 <= j < i ==> #[trigger] list@[j] == priced_with(
                    candidates@[j],
                    chain_spec,
                    da_charged(chain_spec, answer_at(da_answers@, j))->Ok_0,
                ),
        decreases candidates@.len() - i,
    {
        let answer = if i < da_answers.len() {
            da_answers[i]
        } else {
            None
        };
        assert(answer == answer_at(da_answers@, i as int));
        match da_charge(chain_spec, answer) {
            Ok(da_gas) => {
                list.push(price_candidate(&candidates[i], chain_spec, da_gas));
            },
            Err(error) => {
                return Err(error);
            },
        }
        i += 1;
    }
    assert(list@ =~= priced(candidates@, da_answers@, chain_spec)->Ok_0);
    Ok(list)
}

/// Assembles a bundle from priced candidates given in priority order.
///
/// Candidates are accepted greedily while the aggregate gas stays within the gas budget and
/// the size within the largest transaction size. A candidate that exceeds a limit alone is
/// reported as oversized; one that only fails to fit beside the accepted ones is deferred.
/// No bundle comes back if no candidate was accepted.
pub fn assemble(candidates: &Vec<PricedCandidate>, limits: BundleLimits, fee: FeeQuote) -> (result:
    Assembly)
    ensures
        result.matches_selection(selected(candidates@, limits), limits, fee),
        result.bundle matches Some(bundle) ==> bundle@.within_limits(),
{
    let mut members: Vec<u64> = Vec::new();
    let mut oversized: Vec<u64> = Vec::new();
    let mut deferred: Vec<u64> = Vec::new();
    let mut gas: u128 = 0;
    let mut size: usize = 0;
    let mut i: usize = 0;
    assert(candidates@.take(0) =~= Seq::empty());
    while i < candidates.len()
        invariant
            i <= candidates@.len(),
            members@ == selected(candidates@.take(i as int), limits).members,
            oversized@ == selected(candidates@.take(i as int), limits).oversized,
            deferred@ == selected(candidates@.take(i as int), limits).deferred,
            gas == selected(candidates@.take(i as int), limits).gas,
            size == selected(candidates@.take(i as int), limits).size,
            size <= limits.max_size,
            members@.len() > 0 ==> limits.intrinsic + gas <= limits.gas_budget,
            members@.len() == 0 ==> gas == 0,
        decreases candidates@.len() - i,
    {
        let candidate = candidates[i];
        proof {
            assert(candidates@.take(i + 1).drop_last() =~= candidates@.take(i as int));
            assert(candidates@.take(i + 1).last() == candidate);
        }
        let alone: Option<u128> = match candidate.gas.checked_marginal(limits.include_da) {
            Some(marginal) => match limits.intrinsic.checked_add(marginal) {
                Some(total) => if total <= limits.gas_budget {
                    Some(marginal)
                } else {
                    None
                },
                None => None,
            },
            None => None,
        };
        match alone {
            Some(marginal) if candidate.encoded_len <= limits.max_size => {
                if marginal <= limits.gas_budget - limits.intrinsic - gas && candidate.encoded_len
                    <= limits.max_size - size {
                    members.push(candidate.id);
                    gas = gas + marginal;
                    size = size + candidate.encoded_len;
                } else {
                    deferred.push(candidate.id);
                }
            },
            _ => {
                oversized.push(candidate.id);
            },
        }
        i += 1;
    }
    assert(candidates@.take(i as int) =~= candidates@);
    let bundle = if members.len() > 0 {
        Some(Bundle { members, gas: limits.intrinsic + gas, size, fee, submission_id: None, limits })
    } else {
        None
    };
    Assembly { bundle, oversized, deferred }
}

/// What pricing and assembling make of the collected candidates.
pub open spec fn planned_from(
    candidates: Seq<CandidateOperation>,
    da_answers: Seq<Option<u128>>,
    chain_spec: &ChainSpec,
    margin: Ratio,
) -> Result<Selection, DaError> {
    match priced(candidates, da_answers, chain_spec) {
        Ok(list) => Ok(selected(list, limits_of(chain_spec, margin))),
        Err(error) => Err(error),
    }
}

/// Prices the collected candidates and assembles them into a bundle within the limits of
/// the chain. All candidates are priced under the same parameters and the bundle carries the
/// one fee quote of the cycle. A data-availability charge that is needed and missing ends the
/// cycle with its error.
pub fn plan_bundle(
    candidates: &Vec<CandidateOperation>,
    da_answers: &Vec<Option<u128>>,
    chain_spec: &ChainSpec,
    margin: Ratio,
    fee: FeeQuote,
) -> (result: Result<Assembly, DaError>)
    ensures
        match result {
            Ok(assembly) => planned_from(candidates@, da_answers@, chain_spec, margin) matches Ok(
                chosen,
            ) && assembly.matches_selection(chosen, limits_of(chain_spec, margin), fee) && (
            assembly.bundle matches Some(bundle) ==> bundle@.within_limits()),
            Err(error) => planned_from(candidates@, da_answers@, chain_spec, margin) == Err::<
                Selection,
                DaError,
            >(error),
        },
{
    match price_candidates(candidates, da_answers, chain_spec) {
        Ok(list) => Ok(assemble(&list, bundle_limits(chain_spec, margin), fee)),
        Err(error) => Err(error),
    }
}

/// What a cycle plans from a pool: the selection among the eligible candidates in priority
/// order, priced with the given answers, or the error that ends the cycle.
pub open spec fn planned(
    pool: Seq<CandidateOperation>,
    da_answers: Seq<Option<u128>>,
    chain_spec: &ChainSpec,
    margin: Ratio,
) -> Result<Selection, DaError> {
    planned_from(collected(pool, chain_spec), da_answers, chain_spec, margin)
}

/// Planning again from an unchanged pool under unchanged chain state gives the same bundle:
/// the same members in the same order, and the same gas and size.
pub proof fn lemma_planning_is_idempotent(
    pool: Seq<CandidateOperation>,
    pool_again: Seq<CandidateOperation>,
    da_answers: Seq<Option<u128>>,
    da_answers_again: Seq<Option<u128>>,
    chain_spec: &ChainSpec,
    chain_spec_again: &ChainSpec,
    margin: Ratio,
)
    requires
        pool_again == pool,
        da_answers_again == da_answers,
        chain_spec_again == chain_spec,
    ensures
        planned(pool_again, da_answers_again, chain_spec_again, margin) == planned(
            pool,
            da_answers,
            chain_spec,
            margin,
        ),
{
}

} // verus!
