//! Priority fee estimation: two strategies behind one quote.

use crate::chain::{ChainSpec, PriorityFeeOracleType};
use crate::ratio::{Ratio, RATIO_SCALE};
use vstd::prelude::*;

verus! {

/// Why no priority fee can be quoted.
#[derive(Clone, Copy, Debug, PartialEq, Eq, Structural)]
pub enum FeeError {
    /// The chain-state query behind the selected strategy gave no answer. Retryable.
    FeeUnavailable,
}

/// A recommended priority fee with the bounds it was clamped to.
#[derive(Clone, Copy, Debug, PartialEq, Eq, Structural)]
pub struct FeeQuote {
    /// The recommended max priority fee per gas.
    pub max_priority_fee_per_gas: u128,
    /// Lower bound of the clamp range.
    pub min_bound: u128,
    /// Upper bound of the clamp range.
    pub max_bound: u128,
    /// Height of the newest block when the quote was taken.
    pub block_height: u64,
    /// Time at which the quote was taken.
    pub taken_at_millis: u64,
}

/// `fee` limited from above by `max_bound` and then from below by `min_bound`.
pub open spec fn clamped(fee: int, min_bound: int, max_bound: int) -> int {
    let capped = if fee > max_bound {
        max_bound
    } else {
        fee
    };
    if capped < min_bound {
        min_bound
    } else {
        capped
    }
}

/// The fee that the usage-based strategy recommends before clamping.
///
/// Below the congestion threshold it is the lower bound. From the threshold on it rises
/// linearly with the usage, from the lower bound at the threshold to the upper bound at full
/// blocks, rounded down; at or above full usage it is the upper bound.
pub open spec fn escalated(usage: int, threshold: int, min_bound: int, max_bound: int) -> int {
    if usage < threshold || max_bound < min_bound {
        min_bound
    } else if usage >= RATIO_SCALE {
        max_bound
    } else {
        min_bound + ((max_bound - min_bound) * (usage - threshold)) / (RATIO_SCALE - threshold)
    }
}

/// The fee that the usage-based strategy recommends on `chain_spec` at the given usage.
pub open spec fn usage_based_fee(chain_spec: &ChainSpec, usage: Ratio) -> int {
    clamped(
        escalated(
            usage.parts_per_million as int,
            chain_spec.congestion_trigger_usage_ratio_threshold.parts_per_million as int,
            chain_spec.min_max_priority_fee_per_gas as int,
            chain_spec.max_max_priority_fee_per_gas as int,
        ),
        chain_spec.min_max_priority_fee_per_gas as int,
        chain_spec.max_max_priority_fee_per_gas as int,
    )
}

/// The quote for a fee on `chain_spec`, taken at the given block and time.
pub open spec fn quote_of(chain_spec: &ChainSpec, fee: int, block_height: u64, now_millis: u64)
    -> FeeQuote {
    FeeQuote {
        max_priority_fee_per_gas: fee as u128,
        min_bound: chain_spec.min_max_priority_fee_per_gas as u128,
        max_bound: chain_spec.max_max_priority_fee_per_gas as u128,
        block_height,
        taken_at_millis: now_millis,
    }
}

/// What the provider strategy quotes for the provider's answer.
pub open spec fn provider_quoted(
    chain_spec: &ChainSpec,
    answer: Option<u128>,
    block_height: u64,
    now_millis: u64,
) -> Result<FeeQuote, FeeError> {
    match answer {
        Some(fee) => Ok(
            quote_of(
                chain_spec,
                clamped(
                    fee as int,
                    chain_spec.min_max_priority_fee_per_gas as int,
                    chain_spec.max_max_priority_fee_per_gas as int,
                ),
                block_height,
                now_millis,
            ),
        ),
        None => Err(FeeError::FeeUnavailable),
    }
}

/// What the usage-based strategy quotes for the observed usage.
pub open spec fn usage_quoted(
    chain_spec: &ChainSpec,
    usage: Option<Ratio>,
    block_height: u64,
    now_millis: u64,
) -> Result<FeeQuote, FeeError> {
    match usage {
        Some(ratio) => Ok(
            quote_of(chain_spec, usage_based_fee(chain_spec, ratio), block_height, now_millis),
        ),
        None => Err(FeeError::FeeUnavailable),
    }
}

/// What the chain's selected strategy quotes.
pub open spec fn quoted(
    chain_spec: &ChainSpec,
    provider_answer: Option<u128>,
    usage: Option<Ratio>,
    block_height: u64,
    now_millis: u64,
) -> Result<FeeQuote, FeeError> {
    match chain_spec.priority_fee_oracle_type {
        PriorityFeeOracleType::Provider => provider_quoted(
            chain_spec,
            provider_answer,
            block_height,
            now_millis,
        ),
        PriorityFeeOracleType::UsageBased => usage_quoted(
            chain_spec,
            usage,
            block_height,
            now_millis,
        ),
    }
}

/// Limits `fee` to the priority fee bounds of the chain.
pub fn clamp_priority_fee(chain_spec: &ChainSpec, fee: u128) -> (bounded: u128)
    ensures
        bounded == clamped(
            fee as int,
            chain_spec.min_max_priority_fee_per_gas as int,
            chain_spec.max_max_priority_fee_per_gas as int,
        ),
{
    let min_bound = chain_spec.min_max_priority_fee_per_gas();
    let max_bound = chain_spec.max_max_priority_fee_per_gas();
    let capped = if fee > max_bound {
        max_bound
    } else {
        fee
    };
    if capped < min_bound {
        min_bound
    } else {
        capped
    }
}

/// The interpolation term of [`escalated`] never exceeds the span of the bounds.
pub proof fn lemma_escalation_within_span(span: int, excess: int, room: int)
    requires
        0 <= span,
        0 <= excess <= room,
        0 < room,
    ensures
        0 <= (span * excess) / room <= span,
{
    assert(0 <= span * excess <= span * room) by (nonlinear_arith)
        requires
            0 <= span,
            0 <= excess <= room,
    ;
    vstd::arithmetic::div_mod::lemma_div_is_ordered(span * excess, span * room, room);
    vstd::arithmetic::div_mod::lemma_div_multiples_vanish(span, room);
    vstd::arithmetic::div_mod::lemma_div_pos_is_pos(span * excess, room);
    assert(span * room == room * span) by (nonlinear_arith);
}

/// Recommends a fee from the recent block usage.
pub fn escalate_priority_fee(chain_spec: &ChainSpec, usage: Ratio) -> (fee: u128)
    ensures
        fee == usage_based_fee(chain_spec, usage),
{
    let min_bound = chain_spec.min_max_priority_fee_per_gas;
    let max_bound = chain_spec.max_max_priority_fee_per_gas;
    let threshold = chain_spec.congestion_trigger_usage_ratio_threshold.parts_per_million;
    let level = usage.parts_per_million;
    let raw: u128 = if level < threshold || max_bound < min_bound {
        min_bound as u128
    } else if level >= RATIO_SCALE {
        max_bound as u128
    } else {
        let span = max_bound - min_bound;
        let excess = level - threshold;
        let room = RATIO_SCALE - threshold;
        proof {
            lemma_escalation_within_span(span as int, excess as int, room as int);
            assert(span * excess <= u128::MAX) by (nonlinear_arith)
                requires
                    0 <= span <= u64::MAX,
                    0 <= excess <= u64::MAX,
            ;
        }
        (min_bound as u128) + (span as u128) * (excess as u128) / (room as u128)
    };
    clamp_priority_fee(chain_spec, raw)
}

/// Quotes with the provider strategy: the provider's suggestion, clamped to the bounds of the
/// chain. Without an answer no fee is available.
pub fn provider_quote(
    chain_spec: &ChainSpec,
    answer: Option<u128>,
    block_height: u64,
    now_millis: u64,
) -> (quote: Result<FeeQuote, FeeError>)
    ensures
        quote == provider_quoted(chain_spec, answer, block_height, now_millis),
{
    match answer {
        Some(fee) => Ok(
            FeeQuote {
                max_priority_fee_per_gas: clamp_priority_fee(chain_spec, fee),
                min_bound: chain_spec.min_max_priority_fee_per_gas(),
                max_bound: chain_spec.max_max_priority_fee_per_gas(),
                block_height,
                taken_at_millis: now_millis,
            },
        ),
        None => Err(FeeError::FeeUnavailable),
    }
}

/// Quotes with the usage-based strategy. Without a usage reading no fee is available.
pub fn usage_based_quote(
    chain_spec: &ChainSpec,
    usage: Option<Ratio>,
    block_height: u64,
    now_millis: u64,
) -> (quote: Result<FeeQuote, FeeError>)
    ensures
        quote == usage_quoted(chain_spec, usage, block_height, now_millis),
{
    match usage {
        Some(ratio) => Ok(
            FeeQuote {
                max_priority_fee_per_gas: escalate_priority_fee(chain_spec, ratio),
                min_bound: chain_spec.min_max_priority_fee_per_gas(),
                max_bound: chain_spec.max_max_priority_fee_per_gas(),
                block_height,
                taken_at_millis: now_millis,
            },
        ),
        None => Err(FeeError::FeeUnavailable),
    }
}

/// Quotes with the strategy that the chain selects. Only the answer that the selected
/// strategy needs is read.
pub fn quote_priority_fee(
    chain_spec: &ChainSpec,
    provider_answer: Option<u128>,
    usage: Option<Ratio>,
    block_height: u64,
    now_millis: u64,
) -> (quote: Result<FeeQuote, FeeError>)
    ensures
        quote == quoted(chain_spec, provider_answer, usage, block_height, now_millis),
{
    match chain_spec.priority_fee_oracle_type {
        PriorityFeeOracleType::Provider => provider_quote(
            chain_spec,
            provider_answer,
            block_height,
            now_millis,
        ),
        PriorityFeeOracleType::UsageBased => usage_based_quote(
            chain_spec,
            usage,
            block_height,
            now_millis,
        ),
    }
}

impl FeeQuote {
    /// Whether the quote may still be used: no newer block has been seen since it was taken,
    /// and it is no older than the chain's maximum send interval.
    pub open spec fn is_fresh(&self, chain_spec: &ChainSpec, head_height: u64, now_millis: u64)
        -> bool {
        &&& self.block_height == head_height
        &&& now_millis >= self.taken_at_millis
        &&& now_millis - self.taken_at_millis <= chain_spec.bundle_max_send_interval_millis
    }

    /// Decides whether the quote may still be used.
    pub fn fresh(&self, chain_spec: &ChainSpec, head_height: u64, now_millis: u64) -> (usable:
        bool)
        ensures
            usable == self.is_fresh(chain_spec, head_height, now_millis),
    {
        self.block_height == head_height && now_millis >= self.taken_at_millis && now_millis
            - self.taken_at_millis <= chain_spec.bundle_max_send_interval_millis
    }
}

/// The quote that a cycle works with: the new quote if there is one, else the last known
/// quote if it is still fresh, else none.
pub open spec fn settled_quote(
    attempt: Result<FeeQuote, FeeError>,
    last_known: Option<FeeQuote>,
    chain_spec: &ChainSpec,
    head_height: u64,
    now_millis: u64,
) -> Result<FeeQuote, FeeError> {
    match attempt {
        Ok(quote) => Ok(quote),
        Err(error) => match last_known {
            Some(quote) => if quote.is_fresh(chain_spec, head_height, now_millis) {
                Ok(quote)
            } else {
                Err(error)
            },
            None => Err(error),
        },
    }
}

/// Falls back to the last known quote when no new one is available.
pub fn settle_quote(
    attempt: Result<FeeQuote, FeeError>,
    last_known: Option<FeeQuote>,
    chain_spec: &ChainSpec,
    head_height: u64,
    now_millis: u64,
) -> (quote: Result<FeeQuote, FeeError>)
    ensures
        quote == settled_quote(attempt, last_known, chain_spec, head_height, now_millis),
{
    match attempt {
        Ok(quote) => Ok(quote),
        Err(error) => match last_known {
            Some(quote) => if quote.fresh(chain_spec, head_height, now_millis) {
                Ok(quote)
            } else {
                Err(error)
            },
            None => Err(error),
        },
    }
}

/// Both strategies quote the same bounds, and where the lower bound does not exceed the upper
/// one the fee lies between them.
pub proof fn lemma_quote_bounds(
    chain_spec: &ChainSpec,
    provider_answer: Option<u128>,
    usage: Option<Ratio>,
    block_height: u64,
    now_millis: u64,
)
    ensures
        provider_quoted(chain_spec, provider_answer, block_height, now_millis) matches Ok(quote)
            ==> quote.min_bound == chain_spec.min_max_priority_fee_per_gas && quote.max_bound
            == chain_spec.max_max_priority_fee_per_gas && (quote.min_bound <= quote.max_bound
            ==> quote.min_bound <= quote.max_priority_fee_per_gas <= quote.max_bound),
        usage_quoted(chain_spec, usage, block_height, now_millis) matches Ok(quote)
            ==> quote.min_bound == chain_spec.min_max_priority_fee_per_gas && quote.max_bound
            == chain_spec.max_max_priority_fee_per_gas && (quote.min_bound <= quote.max_bound
            ==> quote.min_bound <= quote.max_priority_fee_per_gas <= quote.max_bound),
{
}

/// The usage-based fee never falls when the usage rises, and below the congestion threshold
/// it is the lower bound.
pub proof fn lemma_usage_based_fee_is_monotonic(chain_spec: &ChainSpec, lower: Ratio, higher: Ratio)
    requires
        lower.parts_per_million <= higher.parts_per_million,
        chain_spec.min_max_priority_fee_per_gas <= chain_spec.max_max_priority_fee_per_gas,
    ensures
        usage_based_fee(chain_spec, lower) <= usage_based_fee(chain_spec, higher),
        lower.parts_per_million
            < chain_spec.congestion_trigger_usage_ratio_threshold.parts_per_million
            ==> usage_based_fee(chain_spec, lower) == chain_spec.min_max_priority_fee_per_gas,
{
    let threshold = chain_spec.congestion_trigger_usage_ratio_threshold.parts_per_million as int;
    let min_bound = chain_spec.min_max_priority_fee_per_gas as int;
    let max_bound = chain_spec.max_max_priority_fee_per_gas as int;
    let span = max_bound - min_bound;
    let low = lower.parts_per_million as int;
    let high = higher.parts_per_million as int;
    if threshold < RATIO_SCALE {
        let room = RATIO_SCALE - threshold;
        if threshold <= low && low < RATIO_SCALE {
            lemma_escalation_within_span(span, low - threshold, room);
        }
        if threshold <= high && high < RATIO_SCALE {
            lemma_escalation_within_span(span, high - threshold, room);
        }
        if threshold <= low && high < RATIO_SCALE {
            assert(span * (low - threshold) <= span * (high - threshold)) by (nonlinear_arith)
                requires
                    0 <= span,
                    low <= high,
            ;
            vstd::arithmetic::div_mod::lemma_div_is_ordered(
                span * (low - threshold),
                span * (high - threshold),
                room,
            );
        }
    }
}

} // verus!
