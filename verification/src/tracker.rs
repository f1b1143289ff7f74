//! Keeps submission attempts consistent with the chain as blocks arrive and are replaced.

use crate::dispatcher::{after_send, AttemptState, Channel, SendDecision, SendOutcome, SubmissionAttempt};
use crate::history::{follows, recorded, rewound_head, HistoryBuffer, HistoryEntry, HistoryError};
use crate::ids::{add_missing, holds_all, lemma_with_missing, with_missing};
use vstd::prelude::*;

verus! {

/// What the chain reports.
pub enum ChainEvent {
    /// A new block with the operations it included.
    Block { entry: HistoryEntry },
    /// The chain was reorganized; blocks at or above `ancestor` are void.
    Reorg { ancestor: u64 },
}

/// The part of the tracker that decides the fate of attempts.
pub struct TrackerModel {
    /// Height of the newest known block.
    pub head: Option<u64>,
    /// The attempts, in the order they were made.
    pub attempts: Seq<SubmissionAttempt>,
}

/// Whether a block that included `included` confirms the attempt: the attempt is pending and
/// every operation of its bundle is in the block.
pub open spec fn confirmable(attempt: SubmissionAttempt, included: Seq<u64>) -> bool {
    &&& attempt.state == AttemptState::Pending
    &&& attempt.operations@.len() > 0
    &&& forall|k: int|
        0 <= k < attempt.operations@.len() ==> included.contains(#[trigger] attempt.operations@[k])
}

/// The attempt after a block at `height` that included `included`.
pub open spec fn confirmed_in(attempt: SubmissionAttempt, height: u64, included: Seq<u64>)
    -> SubmissionAttempt {
    if confirmable(attempt, included) {
        SubmissionAttempt { state: AttemptState::Confirmed { height }, ..attempt }
    } else {
        attempt
    }
}

/// Whether a reorg with the given common ancestor voids the attempt: it was confirmed at or
/// above the ancestor.
pub open spec fn voided(attempt: SubmissionAttempt, ancestor: u64) -> bool {
    attempt.state is Confirmed && attempt.state->height >= ancestor
}

/// The attempt after a reorg with the given common ancestor.
pub open spec fn rewound(attempt: SubmissionAttempt, ancestor: u64) -> SubmissionAttempt {
    if voided(attempt, ancestor) {
        SubmissionAttempt { state: AttemptState::Reorged, ..attempt }
    } else {
        attempt
    }
}

/// All attempts after a block.
pub open spec fn confirmed_all(attempts: Seq<SubmissionAttempt>, height: u64, included: Seq<u64>)
    -> Seq<SubmissionAttempt> {
    Seq::new(attempts.len(), |i: int| confirmed_in(attempts[i], height, included))
}

/// All attempts after a reorg.
pub open spec fn rewound_all(attempts: Seq<SubmissionAttempt>, ancestor: u64) -> Seq<
    SubmissionAttempt,
> {
    Seq::new(attempts.len(), |i: int| rewound(attempts[i], ancestor))
}

/// The operations that go back to the pool after a reorg: those of the voided attempts, in
/// the order of the attempts, each once.
pub open spec fn recycled(attempts: Seq<SubmissionAttempt>, ancestor: u64) -> Seq<u64>
    decreases attempts.len(),
{
    if attempts.len() == 0 {
        Seq::empty()
    } else {
        let earlier = recycled(attempts.drop_last(), ancestor);
        if voided(attempts.last(), ancestor) {
            with_missing(earlier, attempts.last().operations@)
        } else {
            earlier
        }
    }
}

/// No attempt is confirmed above the newest known block.
pub open spec fn confirmations_valid(head: Option<u64>, attempts: Seq<SubmissionAttempt>) -> bool {
    forall|i: int|
        0 <= i < attempts.len() && (#[trigger] attempts[i]).state is Confirmed ==> head is Some
            && attempts[i].state->height <= head->Some_0
}

impl TrackerModel {
    /// The model after one event. A block that does not follow the newest known block
    /// changes nothing.
    pub open spec fn after(self, event: ChainEvent) -> TrackerModel {
        match event {
            ChainEvent::Block { entry } => if follows(self.head, entry.height) {
                TrackerModel {
                    head: Some(entry.height),
                    attempts: confirmed_all(self.attempts, entry.height, entry.operations@),
                }
            } else {
                self
            },
            ChainEvent::Reorg { ancestor } => TrackerModel {
                head: rewound_head(self.head, ancestor),
                attempts: rewound_all(self.attempts, ancestor),
            },
        }
    }

    /// The model after a sequence of events.
    pub open spec fn after_all(self, events: Seq<ChainEvent>) -> TrackerModel
        decreases events.len(),
    {
        if events.len() == 0 {
            self
        } else {
            self.after_all(events.drop_last()).after(events.last())
        }
    }

    /// Whether no attempt is confirmed above the newest known block.
    pub open spec fn valid(self) -> bool {
        confirmations_valid(self.head, self.attempts)
    }
}

/// After a reorg, the operations of every voided attempt go back to the pool, each exactly
/// once, and no other operation does.
pub proof fn lemma_recycled_exactly_once(attempts: Seq<SubmissionAttempt>, ancestor: u64)
    ensures
        recycled(attempts, ancestor).no_duplicates(),
        forall|id: u64|
            recycled(attempts, ancestor).contains(id) <==> exists|i: int|
                0 <= i < attempts.len() && voided(#[trigger] attempts[i], ancestor)
                    && attempts[i].operations@.contains(id),
    decreases attempts.len(),
{
    if attempts.len() > 0 {
        let front = attempts.drop_last();
        let last = attempts.last();
        lemma_recycled_exactly_once(front, ancestor);
        let earlier = recycled(front, ancestor);
        if voided(last, ancestor) {
            lemma_with_missing(earlier, last.operations@);
        }
        assert forall|id: u64|
            recycled(attempts, ancestor).contains(id) <==> exists|i: int|
                0 <= i < attempts.len() && voided(#[trigger] attempts[i], ancestor)
                    && attempts[i].operations@.contains(id) by {
            if earlier.contains(id) {
                let i = choose|i: int|
                    0 <= i < front.len() && voided(#[trigger] front[i], ancestor)
                        && front[i].operations@.contains(id);
                assert(attempts[i] == front[i]);
            }
            if voided(last, ancestor) && last.operations@.contains(id) {
                assert(attempts[attempts.len() - 1] == last);
            }
            if exists|i: int|
                0 <= i < attempts.len() && voided(#[trigger] attempts[i], ancestor)
                    && attempts[i].operations@.contains(id) {
                let i = choose|i: int|
                    0 <= i < attempts.len() && voided(#[trigger] attempts[i], ancestor)
                        && attempts[i].operations@.contains(id);
                if i < front.len() {
                    assert(front[i] == attempts[i]);
                }
            }
        }
    } else {
        assert forall|id: u64| !recycled(attempts, ancestor).contains(id) by {}
    }
}

/// A reorg turns every attempt confirmed at or above the common ancestor into a reorged one
/// and touches no other; afterwards no attempt is confirmed at or above the ancestor.
pub proof fn lemma_reorg_voids_confirmations(model: TrackerModel, ancestor: u64)
    ensures
        model.after(ChainEvent::Reorg { ancestor }).attempts.len() == model.attempts.len(),
        forall|i: int|
            0 <= i < model.attempts.len() && voided(#[trigger] model.attempts[i], ancestor)
                ==> model.after(ChainEvent::Reorg { ancestor }).attempts[i].state
                == AttemptState::Reorged,
        forall|i: int|
            0 <= i < model.attempts.len() && !voided(#[trigger] model.attempts[i], ancestor)
                ==> model.after(ChainEvent::Reorg { ancestor }).attempts[i] == model.attempts[i],
        forall|i: int|
            0 <= i < model.attempts.len() ==> !voided(
                #[trigger] model.after(ChainEvent::Reorg { ancestor }).attempts[i],
                ancestor,
            ),
{
}

/// A block confirms only pending attempts: an attempt that is confirmed stays confirmed at
/// its height, and one that is reorged, superseded, failed or cancelled stays so.
pub proof fn lemma_block_confirms_only_pending(model: TrackerModel, entry: HistoryEntry)
    ensures
        model.after(ChainEvent::Block { entry }).attempts.len() == model.attempts.len(),
        forall|i: int|
            0 <= i < model.attempts.len() && (#[trigger] model.attempts[i]).state
                != AttemptState::Pending ==> model.after(ChainEvent::Block { entry }).attempts[i]
                == model.attempts[i],
{
}

/// Whatever blocks and reorgs arrive, no attempt stays confirmed at a height that a reorg
/// made void: every confirmation lies at or below the newest known block.
pub proof fn lemma_confirmations_stay_valid(model: TrackerModel, events: Seq<ChainEvent>)
    requires
        model.valid(),
    ensures
        model.after_all(events).valid(),
    decreases events.len(),
{
    if events.len() > 0 {
        lemma_confirmations_stay_valid(model, events.drop_last());
        let before = model.after_all(events.drop_last());
        let after = before.after(events.last());
        assert forall|i: int|
            0 <= i < after.attempts.len() && (#[trigger] after.attempts[i]).state
                is Confirmed implies after.head is Some && after.attempts[i].state->height
            <= after.head->Some_0 by {
            assert(before.attempts[i] == before.attempts[i]);
        }
    }
}

/// Marks as confirmed at `height` every pending attempt whose operations are all among
/// `included`.
pub fn confirm_included(attempts: &mut Vec<SubmissionAttempt>, height: u64, included: &Vec<u64>)
    ensures
        final(attempts)@ == confirmed_all(old(attempts)@, height, included@),
{
    let ghost before = attempts@;
    let mut i: usize = 0;
    while i < attempts.len()
        invariant
            i <= attempts@.len(),
            attempts@.len() == before.len(),
            forall|j: int|
                0 <= j < i ==> #[trigger] attempts@[j] == confirmed_in(before[j], height, included@),
            forall|j: int| i <= j < attempts@.len() ==> #[trigger] attempts@[j] == before[j],
        decreases attempts@.len() - i,
    {
        if attempts[i].state == AttemptState::Pending && attempts[i].operations.len() > 0
            && holds_all(included, &attempts[i].operations) {
            attempts[i].state = AttemptState::Confirmed { height };
        }
        i += 1;
    }
    assert(attempts@ =~= confirmed_all(before, height, included@));
}

/// Marks as reorged every attempt confirmed at or above `ancestor`, and lists the
/// operations that go back to the pool, each once.
pub fn void_confirmations(attempts: &mut Vec<SubmissionAttempt>, ancestor: u64) -> (returned: Vec<
    u64,
>)
    ensures
        final(attempts)@ == rewound_all(old(attempts)@, ancestor),
        returned@ == recycled(old(attempts)@, ancestor),
{
    let ghost before = attempts@;
    let mut returned: Vec<u64> = Vec::new();
    let mut i: usize = 0;
    assert(before.take(0) =~= Seq::empty());
    while i < attempts.len()
        invariant
            i <= attempts@.len(),
            attempts@.len() == before.len(),
            forall|j: int| 0 <= j < i ==> #[trigger] attempts@[j] == rewound(before[j], ancestor),
            forall|j: int| i <= j < attempts@.len() ==> #[trigger] attempts@[j] == before[j],
            returned@ == recycled(before.take(i as int), ancestor),
        decreases attempts@.len() - i,
    {
        assert(before.take(i + 1).drop_last() =~= before.take(i as int));
        assert(before.take(i + 1).last() == before[i as int]);
        let void = match attempts[i].state {
            AttemptState::Confirmed { height } => height >= ancestor,
            _ => false,
        };
        if void {
            add_missing(&mut returned, &attempts[i].operations);
            attempts[i].state = AttemptState::Reorged;
        }
        i += 1;
    }
    assert(before.take(i as int) =~= before);
    assert(attempts@ =~= rewound_all(before, ancestor));
    returned
}

/// The history window together with the attempts that it confirms and voids.
pub struct Tracker {
    history: HistoryBuffer,
    attempts: Vec<SubmissionAttempt>,
}

impl Tracker {
    #[verifier::type_invariant]
    spec fn well_formed(&self) -> bool {
        confirmations_valid(self.history.head(), self.attempts@)
    }

    /// The attempts, in the order they were made.
    pub closed spec fn attempts(&self) -> Seq<SubmissionAttempt> {
        self.attempts@
    }

    /// Height of the newest known block.
    pub closed spec fn head(&self) -> Option<u64> {
        self.history.head()
    }

    /// The history window, newest block first.
    pub closed spec fn window(&self) -> Seq<HistoryEntry> {
        self.history.entries()
    }

    /// The most blocks the history window holds.
    pub closed spec fn capacity(&self) -> u64 {
        self.history.capacity()
    }

    /// The part of the tracker that decides the fate of attempts.
    pub open spec fn model(&self) -> TrackerModel {
        TrackerModel { head: self.head(), attempts: self.attempts() }
    }

    /// A tracker without attempts whose history holds `capacity` blocks.
    pub fn new(capacity: u64) -> (tracker: Self)
        ensures
            tracker.attempts() == Seq::<SubmissionAttempt>::empty(),
            tracker.head() is None,
            tracker.window() == Seq::<HistoryEntry>::empty(),
            tracker.capacity() == capacity,
    {
        Tracker { history: HistoryBuffer::new(capacity), attempts: Vec::new() }
    }

    /// Number of attempts. No attempt is ever confirmed above the newest known block.
    pub fn attempt_count(&self) -> (count: usize)
        ensures
            count == self.attempts().len(),
            self.model().valid(),
    {
        proof {
            use_type_invariant(self);
        }
        self.attempts.len()
    }

    /// The attempt at `index`.
    pub fn attempt(&self, index: usize) -> (attempt: Option<&SubmissionAttempt>)
        ensures
            match attempt {
                Some(found) => index < self.attempts().len() && *found == self.attempts()[index as int],
                None => index >= self.attempts().len(),
            },
    {
        if index < self.attempts.len() {
            Some(&self.attempts[index])
        } else {
            None
        }
    }

    /// Height of the newest known block.
    pub fn head_height(&self) -> (head: Option<u64>)
        ensures
            head == self.head(),
    {
        self.history.head_height()
    }

    /// Number of blocks in the history window.
    pub fn window_len(&self) -> (count: usize)
        ensures
            count == self.window().len(),
            count <= self.capacity(),
    {
        self.history.len()
    }

    /// Starts to track a pending attempt for a bundle on a channel, and gives its index.
    pub fn track(&mut self, bundle_id: u64, channel: Channel, operations: Vec<u64>) -> (index:
        usize)
        ensures
            index == old(self).attempts().len(),
            final(self).attempts() == old(self).attempts().push(
                SubmissionAttempt {
                    bundle_id,
                    channel,
                    operations,
                    state: AttemptState::Pending,
                    failures: 0,
                },
            ),
            final(self).head() == old(self).head(),
            final(self).window() == old(self).window(),
            final(self).capacity() == old(self).capacity(),
    {
        proof {
            use_type_invariant(&*self);
        }
        let mut taken = Tracker { history: HistoryBuffer::new(0), attempts: Vec::new() };
        core::mem::swap(self, &mut taken);
        let Tracker { history, attempts: mut attempts } = taken;
        let index = attempts.len();
        attempts.push(SubmissionAttempt::new(bundle_id, channel, operations));
        *self = Tracker { history, attempts };
        index
    }

    /// Takes a channel's answer to a send of the attempt at `index`. Only that attempt can
    /// change. An index that names no attempt changes nothing.
    pub fn record_send(&mut self, index: usize, outcome: SendOutcome) -> (decision: Option<
        SendDecision,
    >)
        ensures
            final(self).head() == old(self).head(),
            final(self).window() == old(self).window(),
            final(self).capacity() == old(self).capacity(),
            match decision {
                Some(next) => index < old(self).attempts().len() && final(self).attempts() == old(
                    self,
                ).attempts().update(
                    index as int,
                    after_send(old(self).attempts()[index as int], outcome).0,
                ) && next == after_send(old(self).attempts()[index as int], outcome).1,
                None => index >= old(self).attempts().len() && final(self).attempts() == old(
                    self,
                ).attempts(),
            },
    {
        proof {
            use_type_invariant(&*self);
        }
        if index >= self.attempts.len() {
            return None;
        }
        let mut taken = Tracker { history: HistoryBuffer::new(0), attempts: Vec::new() };
        core::mem::swap(self, &mut taken);
        let Tracker { history, attempts: mut attempts } = taken;
        let ghost before = attempts@;
        let decision = attempts[index].record_send(outcome);
        assert(attempts@ =~= before.update(index as int, after_send(before[index as int], outcome).0));
        *self = Tracker { history, attempts };
        Some(decision)
    }

    /// Cancels the attempt at `index` if it is pending, and says whether it did.
    pub fn cancel(&mut self, index: usize) -> (cancelled: bool)
        ensures
            final(self).head() == old(self).head(),
            final(self).window() == old(self).window(),
            final(self).capacity() == old(self).capacity(),
            cancelled == (index < old(self).attempts().len() && old(self).attempts()[index as int].state
                == AttemptState::Pending),
            cancelled ==> final(self).attempts() == old(self).attempts().update(
                index as int,
                SubmissionAttempt {
                    state: AttemptState::Cancelled,
                    ..old(self).attempts()[index as int]
                },
            ),
            !cancelled ==> final(self).attempts() == old(self).attempts(),
    {
        proof {
            use_type_invariant(&*self);
        }
        if index >= self.attempts.len() {
            return false;
        }
        let mut taken = Tracker { history: HistoryBuffer::new(0), attempts: Vec::new() };
        core::mem::swap(self, &mut taken);
        let Tracker { history, attempts: mut attempts } = taken;
        let ghost before = attempts@;
        let cancelled = attempts[index].cancel();
        assert(attempts@ =~= before.update(index as int, attempts@[index as int]));
        *self = Tracker { history, attempts };
        cancelled
    }

    /// Takes a new block: records it in the history and confirms every pending attempt whose
    /// operations the block included. A block that does not follow the newest known block
    /// is refused and changes nothing.
    pub fn on_block(&mut self, entry: HistoryEntry) -> (result: Result<(), HistoryError>)
        ensures
            final(self).capacity() == old(self).capacity(),
            match result {
                Ok(_) => {
                    &&& follows(old(self).head(), entry.height)
                    &&& final(self).attempts() == confirmed_all(
                        old(self).attempts(),
                        entry.height,
                        entry.operations@,
                    )
                    &&& final(self).head() == Some(entry.height)
                    &&& final(self).window() == recorded(
                        old(self).window(),
                        old(self).capacity(),
                        entry,
                    )
                },
                Err(error) => {
                    &&& !follows(old(self).head(), entry.height)
                    &&& error == HistoryError::OutOfOrder
                    &&& final(self).attempts() == old(self).attempts()
                    &&& final(self).head() == old(self).head()
                    &&& final(self).window() == old(self).window()
                },
            },
    {
        proof {
            use_type_invariant(&*self);
        }
        if !self.history.accepts(entry.height) {
            return Err(HistoryError::OutOfOrder);
        }
        let mut taken = Tracker { history: HistoryBuffer::new(0), attempts: Vec::new() };
        core::mem::swap(self, &mut taken);
        let Tracker { history: mut history, attempts: mut attempts } = taken;
        let height = entry.height;
        confirm_included(&mut attempts, height, &entry.operations);
        let recorded = history.observe_block(entry);
        *self = Tracker { history, attempts };
        match recorded {
            Ok(_) => Ok(()),
            Err(error) => Err(error),
        }
    }

    /// Takes a reorg: forgets the history at or above the common ancestor, turns every
    /// attempt confirmed there into a reorged one, and hands back the operations that
    /// return to the pool, each once.
    pub fn on_reorg(&mut self, ancestor: u64) -> (returned: Vec<u64>)
        ensures
            final(self).capacity() == old(self).capacity(),
            final(self).attempts() == rewound_all(old(self).attempts(), ancestor),
            final(self).head() == rewound_head(old(self).head(), ancestor),
            final(self).window() == old(self).window().skip(
                crate::history::invalidated(old(self).window(), ancestor) as int,
            ),
            returned@ == recycled(old(self).attempts(), ancestor),
            returned@.no_duplicates(),
    {
        proof {
            use_type_invariant(&*self);
            lemma_recycled_exactly_once(self.attempts@, ancestor);
        }
        let mut taken = Tracker { history: HistoryBuffer::new(0), attempts: Vec::new() };
        core::mem::swap(self, &mut taken);
        let Tracker { history: mut history, attempts: mut attempts } = taken;
        let returned = void_confirmations(&mut attempts, ancestor);
        let _ = history.reorg(ancestor);
        *self = Tracker { history, attempts };
        returned
    }

    /// Takes one event of the chain and hands back the operations that return to the pool:
    /// none after a block, those of the voided attempts after a reorg.
    pub fn apply(&mut self, event: ChainEvent) -> (returned: Vec<u64>)
        ensures
            final(self).capacity() == old(self).capacity(),
            final(self).model() == old(self).model().after(event),
            returned@ == match event {
                ChainEvent::Block { entry } => Seq::<u64>::empty(),
                ChainEvent::Reorg { ancestor } => recycled(old(self).attempts(), ancestor),
            },
    {
        match event {
            ChainEvent::Block { entry } => {
                let _ = self.on_block(entry);
                Vec::new()
            },
            ChainEvent::Reorg { ancestor } => self.on_reorg(ancestor),
        }
    }
}

} // verus!
