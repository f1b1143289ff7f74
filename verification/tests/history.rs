use bundle_engine::history::{HeightStatus, HistoryBuffer, HistoryEntry, HistoryError};
use bundle_engine::ids::{copy_ids, holds};

fn block(height: u64, operations: Vec<u64>) -> HistoryEntry {
    let mut block_hash = [0u8; 32];
    block_hash[31] = height as u8;
    HistoryEntry { height, block_hash, operations }
}

fn heights(buffer: &HistoryBuffer) -> Vec<u64> {
    (0..buffer.len()).map(|i| buffer.entry(i).unwrap().height).collect()
}

#[test]
fn the_window_holds_exactly_its_capacity_newest_first() {
    let capacity = 3u64;
    for extra in 0..4u64 {
        let mut buffer = HistoryBuffer::new(capacity);
        for height in 10..(10 + capacity + extra) {
            assert!(buffer.observe_block(block(height, vec![height])).is_ok());
        }
        assert_eq!(buffer.len(), 3);
        let newest = 10 + capacity + extra - 1;
        assert_eq!(heights(&buffer), vec![newest, newest - 1, newest - 2]);
        assert_eq!(buffer.head_height(), Some(newest));
        assert_eq!(buffer.max_len(), 3);
        assert!(buffer.entry(3).is_none());
    }
}

#[test]
fn the_window_grows_until_it_is_full() {
    let mut buffer = HistoryBuffer::new(3);
    assert_eq!(buffer.len(), 0);
    assert_eq!(buffer.head_height(), None);
    assert!(buffer.observe_block(block(7, vec![])).unwrap().is_none());
    assert_eq!(heights(&buffer), vec![7]);
    assert!(buffer.observe_block(block(8, vec![])).unwrap().is_none());
    assert!(buffer.observe_block(block(9, vec![])).unwrap().is_none());
    assert_eq!(heights(&buffer), vec![9, 8, 7]);
    let gone = buffer.observe_block(block(10, vec![])).unwrap().unwrap();
    assert_eq!(gone.height, 7);
    assert_eq!(heights(&buffer), vec![10, 9, 8]);
}

#[test]
fn a_window_without_room_keeps_only_the_head() {
    let mut buffer = HistoryBuffer::new(0);
    let gone = buffer.observe_block(block(5, vec![1])).unwrap().unwrap();
    assert_eq!(gone.height, 5);
    assert_eq!(buffer.len(), 0);
    assert_eq!(buffer.head_height(), Some(5));
    assert_eq!(buffer.observe_block(block(5, vec![])).unwrap_err(), HistoryError::OutOfOrder);
    assert!(buffer.observe_block(block(6, vec![])).is_ok());
}

#[test]
fn a_block_that_does_not_follow_is_refused() {
    let mut buffer = HistoryBuffer::new(4);
    buffer.observe_block(block(20, vec![])).unwrap();
    buffer.observe_block(block(21, vec![])).unwrap();
    for height in [0, 19, 20, 21, 23, u64::MAX] {
        assert!(!buffer.accepts(height));
        assert_eq!(buffer.observe_block(block(height, vec![1])).unwrap_err(), HistoryError::OutOfOrder);
        assert_eq!(heights(&buffer), vec![21, 20]);
        assert_eq!(buffer.head_height(), Some(21));
    }
    assert!(buffer.accepts(22));
    let mut top = HistoryBuffer::new(2);
    top.observe_block(block(u64::MAX, vec![])).unwrap();
    assert!(!top.accepts(0));
    assert!(!top.accepts(u64::MAX));
}

#[test]
fn a_reorg_forgets_what_lies_at_or_above_the_ancestor() {
    let mut buffer = HistoryBuffer::new(5);
    for height in 30..35 {
        buffer.observe_block(block(height, vec![height * 10])).unwrap();
    }
    let removed = buffer.reorg(33);
    assert_eq!(removed.iter().map(|e| e.height).collect::<Vec<_>>(), vec![34, 33]);
    assert_eq!(removed[0].operations, vec![340]);
    assert_eq!(heights(&buffer), vec![32, 31, 30]);
    assert_eq!(buffer.head_height(), Some(32));
    assert_eq!(buffer.observe_block(block(34, vec![])).unwrap_err(), HistoryError::OutOfOrder);
    buffer.observe_block(block(33, vec![7])).unwrap();
    assert_eq!(heights(&buffer), vec![33, 32, 31, 30]);
    assert!(buffer.reorg(34).is_empty());
    assert_eq!(heights(&buffer), vec![33, 32, 31, 30]);
    assert_eq!(buffer.head_height(), Some(33));
}

#[test]
fn a_reorg_below_the_window_empties_it() {
    let mut buffer = HistoryBuffer::new(2);
    for height in 30..35 {
        buffer.observe_block(block(height, vec![])).unwrap();
    }
    assert_eq!(heights(&buffer), vec![34, 33]);
    let removed = buffer.reorg(10);
    assert_eq!(removed.len(), 2);
    assert_eq!(buffer.len(), 0);
    assert_eq!(buffer.head_height(), Some(9));
    assert!(buffer.observe_block(block(10, vec![])).is_ok());
    let mut from_start = HistoryBuffer::new(2);
    from_start.observe_block(block(0, vec![])).unwrap();
    from_start.observe_block(block(1, vec![])).unwrap();
    assert_eq!(from_start.reorg(0).len(), 2);
    assert_eq!(from_start.head_height(), None);
    assert!(from_start.observe_block(block(17, vec![])).is_ok());
    let mut empty = HistoryBuffer::new(2);
    assert!(empty.reorg(5).is_empty());
    assert_eq!(empty.head_height(), None);
}

#[test]
fn the_newest_block_that_included_an_operation_is_found() {
    let mut buffer = HistoryBuffer::new(3);
    buffer.observe_block(block(1, vec![5, 6])).unwrap();
    buffer.observe_block(block(2, vec![7])).unwrap();
    buffer.observe_block(block(3, vec![6, 8])).unwrap();
    assert_eq!(buffer.included_at(5), Some(1));
    assert_eq!(buffer.included_at(6), Some(3));
    assert_eq!(buffer.included_at(7), Some(2));
    assert_eq!(buffer.included_at(9), None);
    buffer.observe_block(block(4, vec![])).unwrap();
    assert_eq!(buffer.included_at(5), None);
    assert!(holds(&vec![1, 2, 3], 2));
    assert!(!holds(&vec![1, 2, 3], 4));
    assert!(!holds(&Vec::new(), 0));
    assert_eq!(copy_ids(&vec![3, 1, 3]), vec![3, 1, 3]);
    assert!(copy_ids(&Vec::new()).is_empty());
}

#[test]
fn heights_are_pending_confirmed_or_evicted() {
    let mut buffer = HistoryBuffer::new(2);
    assert_eq!(buffer.status_of(0), HeightStatus::Pending);
    for height in 5..9 {
        buffer.observe_block(block(height, vec![])).unwrap();
    }
    assert_eq!(buffer.status_of(9), HeightStatus::Pending);
    assert_eq!(buffer.status_of(u64::MAX), HeightStatus::Pending);
    assert_eq!(buffer.status_of(8), HeightStatus::Confirmed);
    assert_eq!(buffer.status_of(7), HeightStatus::Confirmed);
    assert_eq!(buffer.status_of(6), HeightStatus::Evicted);
    assert_eq!(buffer.status_of(0), HeightStatus::Evicted);
    buffer.reorg(8);
    assert_eq!(buffer.status_of(8), HeightStatus::Pending);
    assert_eq!(buffer.status_of(7), HeightStatus::Confirmed);
    assert_eq!(buffer.status_of(6), HeightStatus::Evicted);
    buffer.reorg(2);
    assert_eq!(buffer.status_of(2), HeightStatus::Pending);
    assert_eq!(buffer.status_of(1), HeightStatus::Evicted);
}
