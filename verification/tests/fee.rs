use bundle_engine::chain::{ChainSpec, PriorityFeeOracleType};
use bundle_engine::fee::{clamp_priority_fee, escalate_priority_fee, provider_quote, quote_priority_fee, settle_quote, usage_based_quote, FeeError, FeeQuote};
use bundle_engine::ratio::Ratio;

fn bounded() -> ChainSpec {
    ChainSpec {
        min_max_priority_fee_per_gas: 100,
        max_max_priority_fee_per_gas: 1_100,
        ..ChainSpec::default()
    }
}

fn usage(parts: u64) -> Ratio {
    Ratio::from_parts_per_million(parts)
}

#[test]
fn provider_fee_is_clamped_to_the_bounds() {
    let spec = bounded();
    assert_eq!(clamp_priority_fee(&spec, 0), 100);
    assert_eq!(clamp_priority_fee(&spec, 100), 100);
    assert_eq!(clamp_priority_fee(&spec, 500), 500);
    assert_eq!(clamp_priority_fee(&spec, 1_100), 1_100);
    assert_eq!(clamp_priority_fee(&spec, u128::MAX), 1_100);
    let quote = provider_quote(&spec, Some(5_000), 12, 777).unwrap();
    assert_eq!(
        quote,
        FeeQuote {
            max_priority_fee_per_gas: 1_100,
            min_bound: 100,
            max_bound: 1_100,
            block_height: 12,
            taken_at_millis: 777,
        }
    );
    let open = ChainSpec::default();
    assert_eq!(clamp_priority_fee(&open, 7), 7);
    assert_eq!(clamp_priority_fee(&open, u128::MAX), u64::MAX as u128);
}

#[test]
fn no_answer_means_fee_unavailable() {
    let spec = bounded();
    assert_eq!(provider_quote(&spec, None, 1, 1), Err(FeeError::FeeUnavailable));
    assert_eq!(usage_based_quote(&spec, None, 1, 1), Err(FeeError::FeeUnavailable));
    assert_eq!(quote_priority_fee(&spec, None, Some(usage(900_000)), 1, 1), Err(FeeError::FeeUnavailable));
    let by_usage = ChainSpec { priority_fee_oracle_type: PriorityFeeOracleType::UsageBased, ..bounded() };
    assert_eq!(quote_priority_fee(&by_usage, Some(5), None, 1, 1), Err(FeeError::FeeUnavailable));
}

#[test]
fn usage_below_the_threshold_gives_the_floor() {
    let spec = bounded();
    assert_eq!(escalate_priority_fee(&spec, usage(0)), 100);
    assert_eq!(escalate_priority_fee(&spec, usage(500_000)), 100);
    assert_eq!(escalate_priority_fee(&spec, usage(749_999)), 100);
}

#[test]
fn usage_from_the_threshold_on_escalates_linearly() {
    let spec = bounded();
    assert_eq!(escalate_priority_fee(&spec, usage(750_000)), 100);
    assert_eq!(escalate_priority_fee(&spec, usage(750_250)), 101);
    assert_eq!(escalate_priority_fee(&spec, usage(875_000)), 600);
    assert_eq!(escalate_priority_fee(&spec, usage(999_999)), 1_099);
    assert_eq!(escalate_priority_fee(&spec, usage(1_000_000)), 1_100);
    assert_eq!(escalate_priority_fee(&spec, usage(3_000_000)), 1_100);
    let full_threshold = ChainSpec {
        congestion_trigger_usage_ratio_threshold: usage(1_000_000),
        ..bounded()
    };
    assert_eq!(escalate_priority_fee(&full_threshold, usage(999_999)), 100);
    assert_eq!(escalate_priority_fee(&full_threshold, usage(1_000_000)), 1_100);
    let beyond = ChainSpec {
        congestion_trigger_usage_ratio_threshold: usage(2_000_000),
        ..bounded()
    };
    assert_eq!(escalate_priority_fee(&beyond, usage(1_500_000)), 100);
    assert_eq!(escalate_priority_fee(&beyond, usage(2_000_000)), 1_100);
    let wide = ChainSpec::default();
    assert_eq!(escalate_priority_fee(&wide, usage(1_000_000)), u64::MAX as u128);
    assert_eq!(escalate_priority_fee(&wide, usage(875_000)), (u64::MAX as u128) / 2);
}

#[test]
fn usage_based_fee_never_falls_when_usage_rises() {
    let spec = bounded();
    let mut last = 0;
    let mut parts = 0;
    while parts <= 1_200_000 {
        let fee = escalate_priority_fee(&spec, usage(parts));
        assert!(fee >= last);
        assert!((100..=1_100).contains(&fee));
        last = fee;
        parts += 12_345;
    }
}

#[test]
fn both_strategies_quote_the_same_bounds() {
    let spec = bounded();
    let by_provider = provider_quote(&spec, Some(400), 3, 10).unwrap();
    let by_usage = usage_based_quote(&spec, Some(usage(875_000)), 3, 10).unwrap();
    assert_eq!((by_provider.min_bound, by_provider.max_bound), (100, 1_100));
    assert_eq!((by_usage.min_bound, by_usage.max_bound), (100, 1_100));
    assert_eq!(by_provider.max_priority_fee_per_gas, 400);
    assert_eq!(by_usage.max_priority_fee_per_gas, 600);
    assert_eq!(quote_priority_fee(&spec, Some(400), Some(usage(875_000)), 3, 10), Ok(by_provider));
    let selected = ChainSpec { priority_fee_oracle_type: PriorityFeeOracleType::UsageBased, ..bounded() };
    assert_eq!(quote_priority_fee(&selected, Some(400), Some(usage(875_000)), 3, 10), Ok(by_usage));
}

#[test]
fn a_quote_goes_stale_with_time_or_a_new_block() {
    let spec = ChainSpec::default();
    let quote = provider_quote(&spec, Some(9), 50, 5_000).unwrap();
    assert!(quote.fresh(&spec, 50, 5_000));
    assert!(quote.fresh(&spec, 50, 6_000));
    assert!(!quote.fresh(&spec, 50, 6_001));
    assert!(!quote.fresh(&spec, 51, 5_500));
    assert!(!quote.fresh(&spec, 49, 5_500));
    assert!(!quote.fresh(&spec, 50, 4_999));
}

#[test]
fn a_missing_quote_degrades_to_a_fresh_last_known_one() {
    let spec = ChainSpec::default();
    let old = provider_quote(&spec, Some(9), 50, 5_000).unwrap();
    let new = provider_quote(&spec, Some(11), 50, 5_400).unwrap();
    let failed = Err(FeeError::FeeUnavailable);
    assert_eq!(settle_quote(Ok(new), Some(old), &spec, 50, 5_400), Ok(new));
    assert_eq!(settle_quote(Ok(new), None, &spec, 50, 5_400), Ok(new));
    assert_eq!(settle_quote(failed, Some(old), &spec, 50, 5_400), Ok(old));
    assert_eq!(settle_quote(failed, Some(old), &spec, 50, 6_001), failed);
    assert_eq!(settle_quote(failed, Some(old), &spec, 51, 5_400), failed);
    assert_eq!(settle_quote(failed, None, &spec, 50, 5_400), failed);
}
