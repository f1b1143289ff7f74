//! Delivery of a bundle through the channels of a chain, with retry per channel.

use crate::chain::ChainSpec;
use crate::ids::copy_ids;
use vstd::prelude::*;

verus! {

/// A path by which a bundle transaction reaches the chain.
#[derive(Clone, Copy, Debug, PartialEq, Eq, Structural)]
pub enum Channel {
    /// Public broadcast.
    Public,
    /// The Flashbots private relay.
    Flashbots,
    /// The bloXroute private relay.
    Bloxroute,
}

/// The state of one attempt to deliver a bundle through one channel.
#[derive(Clone, Copy, Debug, PartialEq, Eq, Structural)]
pub enum AttemptState {
    /// Sent or being sent; not yet seen in a block.
    Pending,
    /// The operations of the bundle were seen in the block at this height.
    Confirmed { height: u64 },
    /// The channel rejected the bundle as stale; the attempt was abandoned without retry.
    Superseded,
    /// The retry ceiling was reached.
    Failed,
    /// The attempt was cancelled while it waited to retry. Not a failure.
    Cancelled,
    /// The block that confirmed the attempt was removed by a reorg.
    Reorged,
}

/// How a channel answered a send.
#[derive(Clone, Copy, Debug, PartialEq, Eq, Structural)]
pub enum SendOutcome {
    /// The channel took the transaction.
    Accepted,
    /// A transport error that may pass.
    Transient,
    /// The bundle is superseded on chain.
    Stale,
}

/// What to do after a send.
#[derive(Clone, Copy, Debug, PartialEq, Eq, Structural)]
pub enum SendDecision {
    /// Nothing more to send; the attempt waits to be confirmed.
    Done,
    /// Send again after this many milliseconds.
    RetryAfter { millis: u64 },
    /// Drop the attempt without retry.
    Abandon,
    /// The retry ceiling is reached.
    GiveUp,
    /// The attempt is no longer pending; the answer is ignored.
    Ignored,
}

/// Failure of a whole dispatch.
#[derive(Clone, Copy, Debug, PartialEq, Eq, Structural)]
pub enum DispatchError {
    /// Every channel reached its retry ceiling. The operations go back to the pool.
    AllChannelsExhausted,
}

/// One attempt to deliver a bundle through one channel.
#[derive(Clone, Debug)]
pub struct SubmissionAttempt {
    /// Identifier of the bundle.
    pub bundle_id: u64,
    /// The channel used.
    pub channel: Channel,
    /// Identifiers of the operations in the bundle.
    pub operations: Vec<u64>,
    /// The state of the attempt.
    pub state: AttemptState,
    /// Number of sends that failed with a transient error.
    pub failures: u32,
}

/// The most sends that one attempt makes.
pub const MAX_SEND_ATTEMPTS: u32 = 5;

/// The wait before the first retry, in milliseconds.
pub const BACKOFF_BASE_MILLIS: u64 = 100;

/// The longest wait before a retry, in milliseconds.
pub const BACKOFF_CAP_MILLIS: u64 = 5_000;

/// The channels of a chain: always the public one, then Flashbots if it is enabled and has a
/// relay URL, then bloXroute if it is enabled.
pub open spec fn channels_of(chain_spec: &ChainSpec) -> Seq<Channel> {
    seq![Channel::Public] + (if chain_spec.flashbots_enabled && chain_spec.flashbots_relay_url
        is Some {
        seq![Channel::Flashbots]
    } else {
        Seq::<Channel>::empty()
    }) + (if chain_spec.bloxroute_enabled {
        seq![Channel::Bloxroute]
    } else {
        Seq::<Channel>::empty()
    })
}

/// The wait before the retry that follows the given number of failed sends: the base wait
/// after the first failure, doubled with each further one, and never above the cap.
pub open spec fn backoff_after(failures: nat) -> int
    decreases failures,
{
    if failures <= 1 {
        BACKOFF_BASE_MILLIS as int
    } else if 2 * backoff_after((failures - 1) as nat) > BACKOFF_CAP_MILLIS {
        BACKOFF_CAP_MILLIS as int
    } else {
        2 * backoff_after((failures - 1) as nat)
    }
}

/// The wait grows with the number of failures and stays between base and cap.
pub proof fn lemma_backoff_is_bounded(failures: nat)
    ensures
        BACKOFF_BASE_MILLIS <= backoff_after(failures) <= BACKOFF_CAP_MILLIS,
        backoff_after(failures) <= backoff_after(failures + 1),
    decreases failures,
{
    if failures > 1 {
        lemma_backoff_is_bounded((failures - 1) as nat);
    }
}

/// The attempt after the channel's answer to a send, and what to do next.
pub open spec fn after_send(attempt: SubmissionAttempt, outcome: SendOutcome) -> (
    SubmissionAttempt,
    SendDecision,
) {
    if attempt.state != AttemptState::Pending {
        (attempt, SendDecision::Ignored)
    } else {
        match outcome {
            SendOutcome::Accepted => (attempt, SendDecision::Done),
            SendOutcome::Stale => (
                SubmissionAttempt { state: AttemptState::Superseded, ..attempt },
                SendDecision::Abandon,
            ),
            SendOutcome::Transient => if attempt.failures + 1 >= MAX_SEND_ATTEMPTS {
                (
                    SubmissionAttempt {
                        state: AttemptState::Failed,
                        failures: MAX_SEND_ATTEMPTS,
                        ..attempt
                    },
                    SendDecision::GiveUp,
                )
            } else {
                (
                    SubmissionAttempt { failures: (attempt.failures + 1) as u32, ..attempt },
                    SendDecision::RetryAfter {
                        millis: backoff_after((attempt.failures + 1) as nat) as u64,
                    },
                )
            },
        }
    }
}

/// Whether every channel of a dispatch reached its retry ceiling.
pub open spec fn all_exhausted(attempts: Seq<SubmissionAttempt>) -> bool {
    attempts.len() > 0 && forall|i: int|
        0 <= i < attempts.len() ==> (#[trigger] attempts[i]).state == AttemptState::Failed
}

/// Lists the channels of a chain.
pub fn channel_set(chain_spec: &ChainSpec) -> (channels: Vec<Channel>)
    ensures
        channels@ == channels_of(chain_spec),
{
    let mut channels: Vec<Channel> = Vec::new();
    channels.push(Channel::Public);
    if chain_spec.flashbots_enabled && chain_spec.flashbots_relay_url.is_some() {
        channels.push(Channel::Flashbots);
    }
    if chain_spec.bloxroute_enabled {
        channels.push(Channel::Bloxroute);
    }
    channels
}

/// Opens a dispatch: one pending attempt for each channel of the chain. The attempts are
/// independent of one another from here on.
pub fn fan_out(bundle_id: u64, operations: &Vec<u64>, chain_spec: &ChainSpec) -> (attempts: Vec<
    SubmissionAttempt,
>)
    ensures
        attempts@.len() == channels_of(chain_spec).len(),
        forall|i: int|
            0 <= i < attempts@.len() ==> {
                &&& (#[trigger] attempts@[i]).bundle_id == bundle_id
                &&& attempts@[i].channel == channels_of(chain_spec)[i]
                &&& attempts@[i].operations@ == operations@
                &&& attempts@[i].state == AttemptState::Pending
                &&& attempts@[i].failures == 0
            },
{
    let channels = channel_set(chain_spec);
    let mut attempts: Vec<SubmissionAttempt> = Vec::new();
    let mut i: usize = 0;
    while i < channels.len()
        invariant
            i <= channels@.len(),
            channels@ == channels_of(chain_spec),
            attempts@.len() == i,
            forall|j: int|
                0 <= j < i ==> {
                    &&& (#[trigger] attempts@[j]).bundle_id == bundle_id
                    &&& attempts@[j].channel == channels@[j]
                    &&& attempts@[j].operations@ == operations@
                    &&& attempts@[j].state == AttemptState::Pending
                    &&& attempts@[j].failures == 0
                },
        decreases channels@.len() - i,
    {
        attempts.push(SubmissionAttempt::new(bundle_id, channels[i], copy_ids(operations)));
        i += 1;
    }
    attempts
}

/// Computes the wait before the retry that follows the given number of failed sends.
pub fn backoff_millis(failures: u32) -> (millis: u64)
    ensures
        millis == backoff_after(failures as nat),
{
    let mut millis: u64 = BACKOFF_BASE_MILLIS;
    let mut done: u32 = 1;
    while done < failures
        invariant
            1 <= done,
            done <= failures || (failures == 0 && done == 1),
            millis == backoff_after(done as nat),
            BACKOFF_BASE_MILLIS <= millis <= BACKOFF_CAP_MILLIS,
        decreases failures - done,
    {
        millis = if 2 * millis > BACKOFF_CAP_MILLIS {
            BACKOFF_CAP_MILLIS
        } else {
            2 * millis
        };
        done += 1;
    }
    millis
}

impl SubmissionAttempt {
    /// A pending attempt for a bundle on a channel.
    pub fn new(bundle_id: u64, channel: Channel, operations: Vec<u64>) -> (attempt: Self)
        ensures
            attempt == (SubmissionAttempt {
                bundle_id,
                channel,
                operations,
                state: AttemptState::Pending,
                failures: 0,
            }),
    {
        SubmissionAttempt { bundle_id, channel, operations, state: AttemptState::Pending, failures: 0 }
    }

    /// Whether the attempt will not change by a send any more.
    pub fn is_pending(&self) -> (pending: bool)
        ensures
            pending == (self.state == AttemptState::Pending),
    {
        self.state == AttemptState::Pending
    }

    /// Takes the channel's answer to a send.
    ///
    /// A transient error is retried after a bounded, doubling wait until the attempt
    /// ceiling is reached; a stale bundle is abandoned at once. Other attempts are not
    /// touched: the channels are independent.
    pub fn record_send(&mut self, outcome: SendOutcome) -> (decision: SendDecision)
        ensures
            (*final(self), decision) == after_send(*old(self), outcome),
    {
        if self.state != AttemptState::Pending {
            return SendDecision::Ignored;
        }
        match outcome {
            SendOutcome::Accepted => SendDecision::Done,
            SendOutcome::Stale => {
                self.state = AttemptState::Superseded;
                SendDecision::Abandon
            },
            SendOutcome::Transient => {
                if self.failures >= MAX_SEND_ATTEMPTS - 1 {
                    self.state = AttemptState::Failed;
                    self.failures = MAX_SEND_ATTEMPTS;
                    SendDecision::GiveUp
                } else {
                    self.failures = self.failures + 1;
                    SendDecision::RetryAfter { millis: backoff_millis(self.failures) }
                }
            },
        }
    }

    /// Cancels a pending attempt, for a bundle that has become stale. The failure count is
    /// kept as it is. An attempt that is not pending stays as it is.
    pub fn cancel(&mut self) -> (cancelled: bool)
        ensures
            cancelled == (old(self).state == AttemptState::Pending),
            cancelled ==> *final(self) == (SubmissionAttempt {
                state: AttemptState::Cancelled,
                ..*old(self)
            }),
            !cancelled ==> *final(self) == *old(self),
    {
        if self.state == AttemptState::Pending {
            self.state = AttemptState::Cancelled;
            true
        } else {
            false
        }
    }
}

/// Judges a dispatch by its attempts: it has failed when every channel reached its retry
/// ceiling, and only then.
pub fn dispatch_outcome(attempts: &Vec<SubmissionAttempt>) -> (outcome: Result<(), DispatchError>)
    ensures
        outcome is Err <==> all_exhausted(attempts@),
        outcome is Err ==> outcome == Err::<(), DispatchError>(DispatchError::AllChannelsExhausted),
{
    if attempts.len() == 0 {
        return Ok(());
    }
    let mut i: usize = 0;
    while i < attempts.len()
        invariant
            i <= attempts@.len(),
            forall|j: int| 0 <= j < i ==> (#[trigger] attempts@[j]).state == AttemptState::Failed,
        decreases attempts@.len() - i,
    {
        if attempts[i].state != AttemptState::Failed {
            return Ok(());
        }
        i += 1;
    }
    Err(DispatchError::AllChannelsExhausted)
}

} // verus!
