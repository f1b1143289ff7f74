//! A bounded window of recently observed blocks that can be rewound on a reorg.

use crate::ids::holds;
use vstd::prelude::*;

verus! {

/// What was observed of one block.
#[derive(Clone, Debug)]
pub struct HistoryEntry {
    /// Height of the block.
    pub height: u64,
    /// Identity of the block.
    pub block_hash: [u8; 32],
    /// Identifiers of the operations that the block included.
    pub operations: Vec<u64>,
}

/// Why a block was not recorded.
#[derive(Clone, Copy, Debug, PartialEq, Eq, Structural)]
pub enum HistoryError {
    /// The block does not follow the newest known block.
    OutOfOrder,
}

/// Where a height stands with respect to the window.
#[derive(Clone, Copy, Debug, PartialEq, Eq, Structural)]
pub enum HeightStatus {
    /// Above the newest known block: not observed, or made void by a reorg.
    Pending,
    /// In the window: observed, and a reorg can still make it void.
    Confirmed,
    /// Below the window: final, whatever a later reorg claims.
    Evicted,
}

/// The window of the most recent blocks, newest first.
pub struct HistoryBuffer {
    entries: Vec<HistoryEntry>,
    capacity: u64,
    head: Option<u64>,
}

/// Each entry is one block below the entry before it.
pub open spec fn contiguous(entries: Seq<HistoryEntry>) -> bool {
    forall|i: int| 0 <= i < entries.len() ==> (#[trigger] entries[i]).height + i == entries[0].height
}

/// Whether a block at `height` follows the newest known block. Any block follows when no
/// block is known.
pub open spec fn follows(head: Option<u64>, height: u64) -> bool {
    head matches Some(newest) ==> height == newest + 1
}

/// The window after a block is recorded: the new entry comes first, and then, if the window
/// holds more than `capacity` entries, the oldest goes.
pub open spec fn recorded(entries: Seq<HistoryEntry>, capacity: u64, entry: HistoryEntry) -> Seq<
    HistoryEntry,
> {
    let grown = seq![entry] + entries;
    if grown.len() > capacity {
        grown.drop_last()
    } else {
        grown
    }
}

/// The entry that recording a block evicts, if any.
pub open spec fn evicted(entries: Seq<HistoryEntry>, capacity: u64, entry: HistoryEntry) -> Option<
    HistoryEntry,
> {
    let grown = seq![entry] + entries;
    if grown.len() > capacity {
        Some(grown.last())
    } else {
        None
    }
}

/// Number of entries at the front of the window that lie at or above `ancestor`.
pub open spec fn invalidated(entries: Seq<HistoryEntry>, ancestor: u64) -> nat
    decreases entries.len(),
{
    if entries.len() == 0 || entries[0].height < ancestor {
        0
    } else {
        1 + invalidated(entries.drop_first(), ancestor)
    }
}

/// The newest known height after a reorg with the given common ancestor: every height at or
/// above the ancestor is forgotten.
pub open spec fn rewound_head(head: Option<u64>, ancestor: u64) -> Option<u64> {
    match head {
        Some(newest) => if newest < ancestor {
            head
        } else if ancestor == 0 {
            None
        } else {
            Some((ancestor - 1) as u64)
        },
        None => None,
    }
}

/// Where `height` stands for a window of `retained` entries below the newest known block.
pub open spec fn status_at(head: Option<u64>, retained: nat, height: u64) -> HeightStatus {
    match head {
        None => HeightStatus::Pending,
        Some(newest) => if height > newest {
            HeightStatus::Pending
        } else if newest - height < retained {
            HeightStatus::Confirmed
        } else {
            HeightStatus::Evicted
        },
    }
}

/// The window after the given blocks were recorded one after the other, starting empty.
pub open spec fn replayed(capacity: u64, blocks: Seq<HistoryEntry>) -> Seq<HistoryEntry>
    decreases blocks.len(),
{
    if blocks.len() == 0 {
        Seq::empty()
    } else {
        recorded(replayed(capacity, blocks.drop_last()), capacity, blocks.last())
    }
}

/// The entries that a reorg invalidates are exactly those at or above the ancestor; they
/// stand at the front of a contiguous window.
pub proof fn lemma_invalidated_is_prefix(entries: Seq<HistoryEntry>, ancestor: u64)
    requires
        contiguous(entries),
    ensures
        invalidated(entries, ancestor) <= entries.len(),
        forall|i: int|
            0 <= i < entries.len() ==> ((#[trigger] entries[i]).height >= ancestor <==> i
                < invalidated(entries, ancestor)),
    decreases entries.len(),
{
    if entries.len() > 0 {
        let rest = entries.drop_first();
        assert(contiguous(rest)) by {
            assert forall|i: int| 0 <= i < rest.len() implies (#[trigger] rest[i]).height + i
                == rest[0].height by {
                assert(rest[i] == entries[i + 1] && rest[0] == entries[1]);
            }
        }
        lemma_invalidated_is_prefix(rest, ancestor);
        assert forall|i: int| 0 <= i < entries.len() implies ((#[trigger] entries[i]).height
            >= ancestor <==> i < invalidated(entries, ancestor)) by {
            if i > 0 {
                assert(entries[i] == rest[i - 1]);
            }
        }
    }
}

/// After any number of blocks with consecutive heights, the window holds the newest of them,
/// newest first and without a gap: all of them while they are at most `capacity`, and exactly
/// `capacity` of them from then on.
pub proof fn lemma_window_holds_newest(capacity: u64, blocks: Seq<HistoryEntry>)
    requires
        forall|i: int| 0 <= i < blocks.len() ==> (#[trigger] blocks[i]).height == blocks[0].height + i,
    ensures
        replayed(capacity, blocks).len() == if blocks.len() <= capacity {
            blocks.len()
        } else {
            capacity as nat
        },
        forall|i: int|
            0 <= i < replayed(capacity, blocks).len() ==> #[trigger] replayed(capacity, blocks)[i]
                == blocks[blocks.len() - 1 - i],
        contiguous(replayed(capacity, blocks)),
        forall|i: int|
            0 < i < blocks.len() ==> follows(Some(blocks[i - 1].height), #[trigger] blocks[i].height),
    decreases blocks.len(),
{
    if blocks.len() > 0 {
        let earlier = blocks.drop_last();
        assert forall|i: int| 0 <= i < earlier.len() implies (#[trigger] earlier[i]).height
            == earlier[0].height + i by {
            assert(earlier[i] == blocks[i] && earlier[0] == blocks[0]);
        }
        lemma_window_holds_newest(capacity, earlier);
        let before = replayed(capacity, earlier);
        let after = replayed(capacity, blocks);
        assert forall|i: int| 0 <= i < after.len() implies #[trigger] after[i] == blocks[blocks.len()
            - 1 - i] by {
            if i > 0 {
                assert(after[i] == before[i - 1]);
            }
        }
    }
}

impl HistoryBuffer {
    #[verifier::type_invariant]
    spec fn well_formed(&self) -> bool {
        &&& self.entries@.len() <= self.capacity
        &&& contiguous(self.entries@)
        &&& self.entries@.len() > 0 ==> self.head == Some(self.entries@[0].height)
    }

    /// The entries of the window, newest first.
    pub closed spec fn entries(&self) -> Seq<HistoryEntry> {
        self.entries@
    }

    /// The most entries the window holds.
    pub closed spec fn capacity(&self) -> u64 {
        self.capacity
    }

    /// Height of the newest known block, if any is known.
    pub closed spec fn head(&self) -> Option<u64> {
        self.head
    }

    /// An empty window for `capacity` blocks.
    pub fn new(capacity: u64) -> (buffer: Self)
        ensures
            buffer.entries() == Seq::<HistoryEntry>::empty(),
            buffer.capacity() == capacity,
            buffer.head() is None,
    {
        HistoryBuffer { entries: Vec::new(), capacity, head: None }
    }

    /// Number of entries in the window. The window is always within its capacity and
    /// without a gap, and its first entry is the newest known block.
    pub fn len(&self) -> (count: usize)
        ensures
            count == self.entries().len(),
            count <= self.capacity(),
            contiguous(self.entries()),
            count > 0 ==> self.head() == Some(self.entries()[0].height),
    {
        proof {
            use_type_invariant(self);
        }
        self.entries.len()
    }

    /// The most entries the window holds.
    pub fn max_len(&self) -> (capacity: u64)
        ensures
            capacity == self.capacity(),
    {
        self.capacity
    }

    /// Height of the newest known block.
    pub fn head_height(&self) -> (head: Option<u64>)
        ensures
            head == self.head(),
    {
        self.head
    }

    /// The entry at `index`, counted from the newest.
    pub fn entry(&self, index: usize) -> (entry: Option<&HistoryEntry>)
        ensures
            match entry {
                Some(found) => index < self.entries().len() && *found == self.entries()[index as int],
                None => index >= self.entries().len(),
            },
    {
        if index < self.entries.len() {
            Some(&self.entries[index])
        } else {
            None
        }
    }

    /// Says where `height` stands: pending above the newest known block, confirmed while
    /// its entry is in the window, evicted below it.
    pub fn status_of(&self, height: u64) -> (status: HeightStatus)
        ensures
            status == status_at(self.head(), self.entries().len(), height),
            status == HeightStatus::Confirmed <==> exists|i: int|
                0 <= i < self.entries().len() && (#[trigger] self.entries()[i]).height == height,
    {
        proof {
            use_type_invariant(self);
        }
        let status = match self.head {
            None => HeightStatus::Pending,
            Some(newest) => if height > newest {
                HeightStatus::Pending
            } else if ((newest - height) as u128) < self.entries.len() as u128 {
                HeightStatus::Confirmed
            } else {
                HeightStatus::Evicted
            },
        };
        proof {
            if status == HeightStatus::Confirmed {
                let newest = self.head->Some_0;
                assert(self.entries@[newest - height].height == height);
            }
        }
        status
    }

    /// Whether a block at `height` would be recorded.
    pub fn accepts(&self, height: u64) -> (accepted: bool)
        ensures
            accepted == follows(self.head(), height),
    {
        match self.head {
            Some(newest) => newest < u64::MAX && height == newest + 1,
            None => true,
        }
    }

    /// Records a block that follows the newest known one, and hands back the entry it pushed
    /// out of the window, if any. The oldest entry goes only once the new one is in place. A
    /// block that does not follow is refused and changes nothing.
    pub fn observe_block(&mut self, entry: HistoryEntry) -> (result: Result<
        Option<HistoryEntry>,
        HistoryError,
    >)
        ensures
            final(self).capacity() == old(self).capacity(),
            match result {
                Ok(gone) => {
                    &&& follows(old(self).head(), entry.height)
                    &&& final(self).entries() == recorded(
                        old(self).entries(),
                        old(self).capacity(),
                        entry,
                    )
                    &&& final(self).head() == Some(entry.height)
                    &&& gone == evicted(old(self).entries(), old(self).capacity(), entry)
                },
                Err(error) => {
                    &&& !follows(old(self).head(), entry.height)
                    &&& error == HistoryError::OutOfOrder
                    &&& final(self).entries() == old(self).entries()
                    &&& final(self).head() == old(self).head()
                },
            },
    {
        proof {
            use_type_invariant(&*self);
        }
        if !self.accepts(entry.height) {
            return Err(HistoryError::OutOfOrder);
        }
        let ghost before = self.entries@;
        let capacity = self.capacity;
        let height = entry.height;
        let mut taken = HistoryBuffer { entries: Vec::new(), capacity, head: None };
        core::mem::swap(self, &mut taken);
        let HistoryBuffer { entries: mut entries, capacity: _, head: _ } = taken;
        entries.insert(0, entry);
        let gone = if entries.len() as u64 > capacity {
            entries.pop()
        } else {
            None
        };
        proof {
            assert forall|i: int| 0 <= i < entries@.len() implies (#[trigger] entries@[i]).height + i
                == entries@[0].height by {
                if i > 0 {
                    assert(entries@[i] == before[i - 1]);
                }
            }
        }
        *self = HistoryBuffer { entries, capacity, head: Some(height) };
        Ok(gone)
    }

    /// Forgets every entry at or above the common ancestor of a reorg and hands the
    /// forgotten entries back, newest first. Entries that left the window earlier are final
    /// and are not revisited.
    pub fn reorg(&mut self, ancestor: u64) -> (removed: Vec<HistoryEntry>)
        ensures
            final(self).capacity() == old(self).capacity(),
            final(self).head() == rewound_head(old(self).head(), ancestor),
            removed@ == old(self).entries().take(invalidated(old(self).entries(), ancestor) as int),
            final(self).entries() == old(self).entries().skip(
                invalidated(old(self).entries(), ancestor) as int,
            ),
            forall|i: int| 0 <= i < removed@.len() ==> (#[trigger] removed@[i]).height >= ancestor,
            forall|i: int|
                0 <= i < final(self).entries().len() ==> (#[trigger] final(self).entries()[i]).height
                    < ancestor,
    {
        proof {
            use_type_invariant(&*self);
            lemma_invalidated_is_prefix(self.entries@, ancestor);
        }
        let ghost before = self.entries@;
        let ghost cut = invalidated(before, ancestor) as int;
        let capacity = self.capacity;
        let head = match self.head {
            Some(newest) => if newest < ancestor {
                Some(newest)
            } else if ancestor == 0 {
                None
            } else {
                Some(ancestor - 1)
            },
            None => None,
        };
        let mut taken = HistoryBuffer { entries: Vec::new(), capacity, head: None };
        core::mem::swap(self, &mut taken);
        let HistoryBuffer { entries: mut entries, capacity: _, head: _ } = taken;
        let mut removed: Vec<HistoryEntry> = Vec::new();
        while entries.len() > 0 && entries[0].height >= ancestor
            invariant
                removed@.len() <= cut <= before.len(),
                removed@ == before.take(removed@.len() as int),
                entries@ == before.skip(removed@.len() as int),
                forall|i: int|
                    0 <= i < before.len() ==> ((#[trigger] before[i]).height >= ancestor <==> i
                        < cut),
            decreases entries@.len(),
        {
            let entry = entries.remove(0);
            removed.push(entry);
        }
        proof {
            let kept = entries@;
            assert forall|i: int| 0 <= i < kept.len() implies (#[trigger] kept[i]).height + i
                == kept[0].height && kept[i].height < ancestor by {
                assert(kept[i] == before[removed@.len() + i]);
            }
            if kept.len() > 0 && cut > 0 {
                assert(before[cut - 1].height >= ancestor);
            }
        }
        *self = HistoryBuffer { entries, capacity, head };
        removed
    }

    /// The height of the newest block in the window that included the operation.
    pub fn included_at(&self, operation: u64) -> (height: Option<u64>)
        ensures
            match height {
                Some(found) => exists|i: int|
                    0 <= i < self.entries().len() && (#[trigger] self.entries()[i]).height == found
                        && self.entries()[i].operations@.contains(operation) && forall|j: int|
                        0 <= j < i ==> !(#[trigger] self.entries()[j]).operations@.contains(
                            operation,
                        ),
                None => forall|i: int|
                    0 <= i < self.entries().len() ==> !(#[trigger] self.entries()[i]).operations@.contains(
                        operation,
                    ),
            },
    {
        let mut i: usize = 0;
        while i < self.entries.len()
            invariant
                i <= self.entries@.len(),
                forall|j: int|
                    0 <= j < i ==> !(#[trigger] self.entries@[j]).operations@.contains(operation),
            decreases self.entries@.len() - i,
        {
            if holds(&self.entries[i].operations, operation) {
                assert(self.entries()[i as int].operations@.contains(operation));
                return Some(self.entries[i].height);
            }
            i += 1;
        }
        None
    }
}

} // verus!
