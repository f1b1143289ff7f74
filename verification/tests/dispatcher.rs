use bundle_engine::chain::ChainSpec;
use bundle_engine::dispatcher::{backoff_millis, channel_set, dispatch_outcome, fan_out, AttemptState, Channel, DispatchError, SendDecision, SendOutcome, SubmissionAttempt, BACKOFF_BASE_MILLIS, BACKOFF_CAP_MILLIS, MAX_SEND_ATTEMPTS};
use bundle_engine::error::{report_oversized, DropReason, DropReport, Failure, Handling};
use bundle_engine::da::DaError;
use bundle_engine::fee::FeeError;

fn pending(channel: Channel) -> SubmissionAttempt {
    SubmissionAttempt::new(1, channel, vec![10, 11])
}

fn failed(channel: Channel) -> SubmissionAttempt {
    let mut attempt = pending(channel);
    for _ in 0..MAX_SEND_ATTEMPTS {
        attempt.record_send(SendOutcome::Transient);
    }
    attempt
}

#[test]
fn flashbots_with_url_and_no_bloxroute_gives_public_and_flashbots() {
    let spec = ChainSpec {
        flashbots_enabled: true,
        flashbots_relay_url: Some("https://relay.example".to_string()),
        bloxroute_enabled: false,
        ..ChainSpec::default()
    };
    assert_eq!(channel_set(&spec), vec![Channel::Public, Channel::Flashbots]);
    let mut public = pending(Channel::Public);
    let mut flashbots = pending(Channel::Flashbots);
    assert_eq!(flashbots.record_send(SendOutcome::Transient), SendDecision::RetryAfter { millis: 100 });
    assert_eq!(public.state, AttemptState::Pending);
    assert_eq!(public.failures, 0);
    assert_eq!(public.record_send(SendOutcome::Accepted), SendDecision::Done);
    assert_eq!(public.state, AttemptState::Pending);
    assert_eq!(flashbots.failures, 1);
    assert_eq!(dispatch_outcome(&vec![public, flashbots]), Ok(()));
}

#[test]
fn the_channel_set_follows_the_flags() {
    assert_eq!(channel_set(&ChainSpec::default()), vec![Channel::Public]);
    let no_url = ChainSpec { flashbots_enabled: true, ..ChainSpec::default() };
    assert_eq!(channel_set(&no_url), vec![Channel::Public]);
    let url_only = ChainSpec { flashbots_relay_url: Some("https://relay.example".to_string()), ..ChainSpec::default() };
    assert_eq!(channel_set(&url_only), vec![Channel::Public]);
    let bloxroute = ChainSpec { bloxroute_enabled: true, ..ChainSpec::default() };
    assert_eq!(channel_set(&bloxroute), vec![Channel::Public, Channel::Bloxroute]);
    let all = ChainSpec {
        flashbots_enabled: true,
        flashbots_relay_url: Some("https://relay.example".to_string()),
        bloxroute_enabled: true,
        ..ChainSpec::default()
    };
    assert_eq!(channel_set(&all), vec![Channel::Public, Channel::Flashbots, Channel::Bloxroute]);
}

#[test]
fn the_wait_doubles_up_to_the_cap() {
    assert_eq!((BACKOFF_BASE_MILLIS, BACKOFF_CAP_MILLIS, MAX_SEND_ATTEMPTS), (100, 5_000, 5));
    let waits: Vec<u64> = (0..=8).map(backoff_millis).collect();
    assert_eq!(waits, vec![100, 100, 200, 400, 800, 1_600, 3_200, 5_000, 5_000]);
    assert_eq!(backoff_millis(u32::MAX), 5_000);
}

#[test]
fn transient_errors_are_retried_up_to_the_ceiling() {
    let mut attempt = pending(Channel::Public);
    assert_eq!(attempt.record_send(SendOutcome::Transient), SendDecision::RetryAfter { millis: 100 });
    assert_eq!(attempt.record_send(SendOutcome::Transient), SendDecision::RetryAfter { millis: 200 });
    assert_eq!(attempt.record_send(SendOutcome::Transient), SendDecision::RetryAfter { millis: 400 });
    assert_eq!(attempt.record_send(SendOutcome::Transient), SendDecision::RetryAfter { millis: 800 });
    assert_eq!((attempt.state, attempt.failures), (AttemptState::Pending, 4));
    assert!(attempt.is_pending());
    assert_eq!(attempt.record_send(SendOutcome::Transient), SendDecision::GiveUp);
    assert_eq!((attempt.state, attempt.failures), (AttemptState::Failed, 5));
    assert!(!attempt.is_pending());
    assert_eq!(attempt.record_send(SendOutcome::Transient), SendDecision::Ignored);
    assert_eq!(attempt.record_send(SendOutcome::Accepted), SendDecision::Ignored);
    assert_eq!((attempt.state, attempt.failures), (AttemptState::Failed, 5));
    assert_eq!(attempt.operations, vec![10, 11]);
}

#[test]
fn a_stale_bundle_is_abandoned_without_retry() {
    let mut attempt = pending(Channel::Bloxroute);
    attempt.record_send(SendOutcome::Transient);
    assert_eq!(attempt.record_send(SendOutcome::Stale), SendDecision::Abandon);
    assert_eq!((attempt.state, attempt.failures), (AttemptState::Superseded, 1));
    assert_eq!(attempt.record_send(SendOutcome::Transient), SendDecision::Ignored);
}

#[test]
fn cancelling_is_not_a_failure() {
    let mut attempt = pending(Channel::Flashbots);
    attempt.record_send(SendOutcome::Transient);
    assert!(attempt.cancel());
    assert_eq!((attempt.state, attempt.failures), (AttemptState::Cancelled, 1));
    assert!(!attempt.cancel());
    assert_eq!(attempt.state, AttemptState::Cancelled);
    assert_eq!(dispatch_outcome(&vec![attempt]), Ok(()));
    let mut done = failed(Channel::Public);
    assert!(!done.cancel());
    assert_eq!(done.state, AttemptState::Failed);
}

#[test]
fn a_dispatch_fails_only_when_every_channel_is_exhausted() {
    let exhausted = Err(DispatchError::AllChannelsExhausted);
    assert_eq!(dispatch_outcome(&Vec::new()), Ok(()));
    assert_eq!(dispatch_outcome(&vec![failed(Channel::Public)]), exhausted);
    assert_eq!(dispatch_outcome(&vec![failed(Channel::Public), failed(Channel::Flashbots)]), exhausted);
    assert_eq!(dispatch_outcome(&vec![failed(Channel::Public), pending(Channel::Flashbots)]), Ok(()));
    assert_eq!(dispatch_outcome(&vec![pending(Channel::Public), failed(Channel::Flashbots)]), Ok(()));
    let mut stale = pending(Channel::Flashbots);
    stale.record_send(SendOutcome::Stale);
    assert_eq!(dispatch_outcome(&vec![failed(Channel::Public), stale]), Ok(()));
}

#[test]
fn each_failure_has_its_handling() {
    assert_eq!(Failure::Transient.handling(), Handling::RetryWithBackoff);
    assert_eq!(Failure::Stale.handling(), Handling::Abandon);
    assert_eq!(Failure::Oversized.handling(), Handling::ReportToPoolOwner);
    assert_eq!(Failure::OracleUnavailable.handling(), Handling::DegradeOrAbortCycle);
    assert_eq!(Failure::FeeUnavailable.handling(), Handling::DegradeOrAbortCycle);
    assert_eq!(Failure::AllChannelsExhausted.handling(), Handling::ReturnToPool);
    assert_eq!(Failure::of_fee(FeeError::FeeUnavailable), Failure::FeeUnavailable);
    assert_eq!(Failure::of_da(DaError::OracleUnavailable), Failure::OracleUnavailable);
    assert_eq!(Failure::of_dispatch(DispatchError::AllChannelsExhausted), Failure::AllChannelsExhausted);
    assert_eq!(Failure::of_send(SendOutcome::Accepted), None);
    assert_eq!(Failure::of_send(SendOutcome::Transient), Some(Failure::Transient));
    assert_eq!(Failure::of_send(SendOutcome::Stale), Some(Failure::Stale));
}

#[test]
fn only_systemic_failures_escalate() {
    for persistent in [false, true] {
        assert!(!Failure::Transient.escalates(persistent));
        assert!(!Failure::Stale.escalates(persistent));
        assert!(!Failure::Oversized.escalates(persistent));
        assert!(Failure::AllChannelsExhausted.escalates(persistent));
        assert_eq!(Failure::FeeUnavailable.escalates(persistent), persistent);
        assert_eq!(Failure::OracleUnavailable.escalates(persistent), persistent);
    }
}

#[test]
fn every_oversized_candidate_is_reported_with_its_reason() {
    assert!(report_oversized(&Vec::new()).is_empty());
    assert_eq!(
        report_oversized(&vec![8, 3]),
        vec![
            DropReport { id: 8, reason: DropReason::Oversized },
            DropReport { id: 3, reason: DropReason::Oversized },
        ]
    );
}

#[test]
fn a_dispatch_opens_one_pending_attempt_per_channel() {
    let all = ChainSpec {
        flashbots_enabled: true,
        flashbots_relay_url: Some("https://relay.example".to_string()),
        bloxroute_enabled: true,
        ..ChainSpec::default()
    };
    let attempts = fan_out(7, &vec![3, 1, 2], &all);
    assert_eq!(
        attempts.iter().map(|a| a.channel).collect::<Vec<_>>(),
        vec![Channel::Public, Channel::Flashbots, Channel::Bloxroute]
    );
    for attempt in &attempts {
        assert_eq!(attempt.bundle_id, 7);
        assert_eq!(attempt.operations, vec![3, 1, 2]);
        assert_eq!((attempt.state, attempt.failures), (AttemptState::Pending, 0));
    }
    assert_eq!(fan_out(8, &vec![], &ChainSpec::default()).len(), 1);
}
