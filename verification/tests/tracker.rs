use bundle_engine::dispatcher::{AttemptState, Channel, SendDecision, SendOutcome, SubmissionAttempt};
use bundle_engine::history::{HistoryEntry, HistoryError};
use bundle_engine::ids::{add_missing, holds_all};
use bundle_engine::tracker::{confirm_included, void_confirmations, ChainEvent, Tracker};

fn block(height: u64, operations: Vec<u64>) -> HistoryEntry {
    HistoryEntry { height, block_hash: [height as u8; 32], operations }
}

fn state_of(tracker: &Tracker, index: usize) -> AttemptState {
    tracker.attempt(index).unwrap().state
}

#[test]
fn a_reorg_below_a_confirmation_returns_its_operations_once() {
    let head = 100u64;
    let mut tracker = Tracker::new(64);
    let attempt = tracker.track(1, Channel::Public, vec![41, 42]);
    tracker.on_block(block(head - 2, vec![])).unwrap();
    tracker.on_block(block(head - 1, vec![42, 7, 41])).unwrap();
    tracker.on_block(block(head, vec![])).unwrap();
    assert_eq!(state_of(&tracker, attempt), AttemptState::Confirmed { height: head - 1 });
    let returned = tracker.on_reorg(head - 2);
    assert_eq!(returned, vec![41, 42]);
    assert_eq!(state_of(&tracker, attempt), AttemptState::Reorged);
    assert_eq!(tracker.head_height(), Some(head - 3));
    assert_eq!(tracker.window_len(), 0);
    assert!(tracker.on_reorg(head - 2).is_empty());
    assert!(tracker.on_reorg(0).is_empty());
    assert_eq!(state_of(&tracker, attempt), AttemptState::Reorged);
}

#[test]
fn attempts_follow_blocks_and_reorgs() {
    let mut tracker = Tracker::new(4);
    let early = tracker.track(1, Channel::Public, vec![1, 2]);
    let late = tracker.track(2, Channel::Public, vec![3]);
    let never = tracker.track(3, Channel::Public, vec![4, 5]);
    tracker.on_block(block(10, vec![1])).unwrap();
    assert_eq!(state_of(&tracker, early), AttemptState::Pending);
    tracker.on_block(block(11, vec![2, 1, 4])).unwrap();
    assert_eq!(state_of(&tracker, early), AttemptState::Confirmed { height: 11 });
    tracker.on_block(block(12, vec![])).unwrap();
    tracker.on_block(block(13, vec![3, 1, 2])).unwrap();
    assert_eq!(state_of(&tracker, early), AttemptState::Confirmed { height: 11 });
    assert_eq!(state_of(&tracker, late), AttemptState::Confirmed { height: 13 });
    assert_eq!(state_of(&tracker, never), AttemptState::Pending);
    assert_eq!(tracker.on_reorg(14), Vec::<u64>::new());
    assert_eq!(tracker.on_reorg(12), vec![3]);
    assert_eq!(state_of(&tracker, early), AttemptState::Confirmed { height: 11 });
    assert_eq!(state_of(&tracker, late), AttemptState::Reorged);
    assert_eq!(tracker.head_height(), Some(11));
    assert_eq!(tracker.window_len(), 2);
    tracker.on_block(block(12, vec![3, 4, 5])).unwrap();
    assert_eq!(state_of(&tracker, late), AttemptState::Reorged);
    assert_eq!(state_of(&tracker, never), AttemptState::Confirmed { height: 12 });
    assert_eq!(tracker.on_reorg(11), vec![1, 2, 4, 5]);
    assert_eq!(
        [early, late, never].map(|i| state_of(&tracker, i)),
        [AttemptState::Reorged, AttemptState::Reorged, AttemptState::Reorged]
    );
    assert_eq!(tracker.attempt_count(), 3);
    assert!(tracker.attempt(3).is_none());
}

#[test]
fn two_channels_of_one_bundle_return_its_operations_once() {
    let mut tracker = Tracker::new(8);
    let public = tracker.track(9, Channel::Public, vec![5, 6]);
    let relay = tracker.track(9, Channel::Flashbots, vec![5, 6]);
    let other = tracker.track(10, Channel::Public, vec![6, 7]);
    tracker.on_block(block(1, vec![5, 6, 7])).unwrap();
    for index in [public, relay, other] {
        assert_eq!(state_of(&tracker, index), AttemptState::Confirmed { height: 1 });
    }
    assert_eq!(tracker.on_reorg(1), vec![5, 6, 7]);
    assert_eq!(tracker.head_height(), Some(0));
}

#[test]
fn a_block_out_of_order_confirms_nothing() {
    let mut tracker = Tracker::new(8);
    let attempt = tracker.track(1, Channel::Public, vec![1]);
    tracker.on_block(block(5, vec![])).unwrap();
    assert_eq!(tracker.on_block(block(7, vec![1])), Err(HistoryError::OutOfOrder));
    assert_eq!(tracker.on_block(block(5, vec![1])), Err(HistoryError::OutOfOrder));
    assert_eq!(state_of(&tracker, attempt), AttemptState::Pending);
    assert_eq!(tracker.head_height(), Some(5));
    assert_eq!(tracker.window_len(), 1);
}

#[test]
fn only_pending_attempts_are_confirmed() {
    let mut tracker = Tracker::new(8);
    let stale = tracker.track(1, Channel::Public, vec![1]);
    let cancelled = tracker.track(2, Channel::Public, vec![1]);
    let empty = tracker.track(3, Channel::Public, vec![]);
    let live = tracker.track(4, Channel::Public, vec![1]);
    assert_eq!(tracker.record_send(stale, SendOutcome::Stale), Some(SendDecision::Abandon));
    assert!(tracker.cancel(cancelled));
    assert!(!tracker.cancel(cancelled));
    assert!(!tracker.cancel(99));
    assert_eq!(tracker.record_send(99, SendOutcome::Accepted), None);
    assert_eq!(tracker.record_send(live, SendOutcome::Transient), Some(SendDecision::RetryAfter { millis: 100 }));
    assert_eq!(tracker.record_send(live, SendOutcome::Accepted), Some(SendDecision::Done));
    tracker.on_block(block(1, vec![1])).unwrap();
    assert_eq!(state_of(&tracker, stale), AttemptState::Superseded);
    assert_eq!(state_of(&tracker, cancelled), AttemptState::Cancelled);
    assert_eq!(state_of(&tracker, empty), AttemptState::Pending);
    assert_eq!(state_of(&tracker, live), AttemptState::Confirmed { height: 1 });
    assert_eq!(tracker.attempt(live).unwrap().failures, 1);
    assert!(!tracker.cancel(live));
    assert_eq!(tracker.record_send(live, SendOutcome::Stale), Some(SendDecision::Ignored));
    assert_eq!(tracker.on_reorg(0), vec![1]);
    assert_eq!(state_of(&tracker, stale), AttemptState::Superseded);
}

#[test]
fn attempt_lists_are_confirmed_and_voided_in_place() {
    let mut attempts = vec![
        SubmissionAttempt::new(1, Channel::Public, vec![1, 2]),
        SubmissionAttempt::new(2, Channel::Bloxroute, vec![3, 3]),
        SubmissionAttempt::new(3, Channel::Public, vec![2, 9]),
    ];
    confirm_included(&mut attempts, 4, &vec![3, 2, 1]);
    assert_eq!(
        attempts.iter().map(|a| a.state).collect::<Vec<_>>(),
        vec![AttemptState::Confirmed { height: 4 }, AttemptState::Confirmed { height: 4 }, AttemptState::Pending]
    );
    confirm_included(&mut attempts, 5, &vec![2, 9]);
    assert_eq!(attempts[2].state, AttemptState::Confirmed { height: 5 });
    assert_eq!(attempts[0].state, AttemptState::Confirmed { height: 4 });
    assert_eq!(void_confirmations(&mut attempts, 6), Vec::<u64>::new());
    assert_eq!(void_confirmations(&mut attempts, 5), vec![2, 9]);
    assert_eq!(void_confirmations(&mut attempts, 4), vec![1, 2, 3]);
    assert!(attempts.iter().all(|a| a.state == AttemptState::Reorged));
    assert_eq!(attempts[1].operations, vec![3, 3]);
    assert!(holds_all(&vec![1, 2], &vec![2, 2, 1]));
    assert!(holds_all(&vec![], &vec![]));
    assert!(!holds_all(&vec![1, 2], &vec![2, 3]));
    let mut list = vec![4, 5];
    add_missing(&mut list, &vec![5, 6, 6, 4, 7]);
    assert_eq!(list, vec![4, 5, 6, 7]);
}

#[test]
fn events_are_applied_one_after_the_other() {
    let mut tracker = Tracker::new(3);
    let attempt = tracker.track(1, Channel::Public, vec![8, 9]);
    let events = vec![
        ChainEvent::Block { entry: block(1, vec![]) },
        ChainEvent::Block { entry: block(2, vec![9, 8]) },
        ChainEvent::Block { entry: block(9, vec![]) },
        ChainEvent::Reorg { ancestor: 3 },
        ChainEvent::Block { entry: block(3, vec![]) },
        ChainEvent::Reorg { ancestor: 2 },
        ChainEvent::Reorg { ancestor: 2 },
    ];
    let returned: Vec<Vec<u64>> = events.into_iter().map(|event| tracker.apply(event)).collect();
    assert_eq!(returned, vec![vec![], vec![], vec![], vec![], vec![], vec![8, 9], vec![]]);
    assert_eq!(state_of(&tracker, attempt), AttemptState::Reorged);
    assert_eq!(tracker.head_height(), Some(1));
    assert_eq!(tracker.window_len(), 1);
}
