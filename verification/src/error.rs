//! The failures the engine distinguishes and how each is handled.

use crate::da::DaError;
use crate::dispatcher::{DispatchError, SendOutcome};
use crate::fee::FeeError;
use vstd::prelude::*;

verus! {

/// A failure somewhere in a cycle or a dispatch.
#[derive(Clone, Copy, Debug, PartialEq, Eq, Structural)]
pub enum Failure {
    /// A network error or timeout.
    Transient,
    /// The bundle is superseded by the state of the chain.
    Stale,
    /// A candidate that fits no bundle even alone.
    Oversized,
    /// The data-availability oracle could not be read.
    OracleUnavailable,
    /// No priority fee could be had.
    FeeUnavailable,
    /// Every channel reached its retry ceiling.
    AllChannelsExhausted,
}

/// What is done about a failure. None of them stops the scheduling loop.
#[derive(Clone, Copy, Debug, PartialEq, Eq, Structural)]
pub enum Handling {
    /// Send again after a wait.
    RetryWithBackoff,
    /// Drop the attempt; nothing is reported.
    Abandon,
    /// Tell the owner of the pool, with the candidate and the reason.
    ReportToPoolOwner,
    /// Use the last known value if it is still fresh, else end the cycle and try again at the
    /// next trigger.
    DegradeOrAbortCycle,
    /// Give the operations of the bundle back to the pool.
    ReturnToPool,
}

/// Why a candidate was dropped.
#[derive(Clone, Copy, Debug, PartialEq, Eq, Structural)]
pub enum DropReason {
    /// The candidate exceeds a bundle limit even alone.
    Oversized,
}

/// The report of a dropped candidate to whoever submitted it.
#[derive(Clone, Copy, Debug, PartialEq, Eq, Structural)]
pub struct DropReport {
    /// Identifier of the candidate.
    pub id: u64,
    /// Why it was dropped.
    pub reason: DropReason,
}

impl Failure {
    /// How the failure is handled.
    pub open spec fn handled_by(self) -> Handling {
        match self {
            Failure::Transient => Handling::RetryWithBackoff,
            Failure::Stale => Handling::Abandon,
            Failure::Oversized => Handling::ReportToPoolOwner,
            Failure::OracleUnavailable => Handling::DegradeOrAbortCycle,
            Failure::FeeUnavailable => Handling::DegradeOrAbortCycle,
            Failure::AllChannelsExhausted => Handling::ReturnToPool,
        }
    }

    /// Whether the failure is passed on to the supervisor: only what concerns the whole
    /// engine is, a dispatch that no channel could deliver and an oracle that stays down.
    pub open spec fn is_escalated(self, persistent: bool) -> bool {
        match self {
            Failure::AllChannelsExhausted => true,
            Failure::OracleUnavailable => persistent,
            Failure::FeeUnavailable => persistent,
            _ => false,
        }
    }

    /// Says how the failure is handled.
    pub fn handling(self) -> (handling: Handling)
        ensures
            handling == self.handled_by(),
    {
        match self {
            Failure::Transient => Handling::RetryWithBackoff,
            Failure::Stale => Handling::Abandon,
            Failure::Oversized => Handling::ReportToPoolOwner,
            Failure::OracleUnavailable => Handling::DegradeOrAbortCycle,
            Failure::FeeUnavailable => Handling::DegradeOrAbortCycle,
            Failure::AllChannelsExhausted => Handling::ReturnToPool,
        }
    }

    /// Says whether the failure is passed on to the supervisor. `persistent` tells that the
    /// same failure has ended the cycles before this one as well.
    pub fn escalates(self, persistent: bool) -> (escalated: bool)
        ensures
            escalated == self.is_escalated(persistent),
    {
        match self {
            Failure::AllChannelsExhausted => true,
            Failure::OracleUnavailable => persistent,
            Failure::FeeUnavailable => persistent,
            _ => false,
        }
    }

    /// The failure that a fee error stands for.
    pub fn of_fee(error: FeeError) -> (failure: Failure)
        ensures
            failure == Failure::FeeUnavailable,
    {
        match error {
            FeeError::FeeUnavailable => Failure::FeeUnavailable,
        }
    }

    /// The failure that a data-availability error stands for.
    pub fn of_da(error: DaError) -> (failure: Failure)
        ensures
            failure == Failure::OracleUnavailable,
    {
        match error {
            DaError::OracleUnavailable => Failure::OracleUnavailable,
        }
    }

    /// The failure that a dispatch error stands for.
    pub fn of_dispatch(error: DispatchError) -> (failure: Failure)
        ensures
            failure == Failure::AllChannelsExhausted,
    {
        match error {
            DispatchError::AllChannelsExhausted => Failure::AllChannelsExhausted,
        }
    }

    /// The failure that a channel's answer stands for, if it is one.
    pub fn of_send(outcome: SendOutcome) -> (failure: Option<Failure>)
        ensures
            failure == match outcome {
                SendOutcome::Accepted => None::<Failure>,
                SendOutcome::Transient => Some(Failure::Transient),
                SendOutcome::Stale => Some(Failure::Stale),
            },
    {
        match outcome {
            SendOutcome::Accepted => None,
            SendOutcome::Transient => Some(Failure::Transient),
            SendOutcome::Stale => Some(Failure::Stale),
        }
    }
}

/// The reports for candidates found oversized, one for each, in the same order.
pub fn report_oversized(ids: &Vec<u64>) -> (reports: Vec<DropReport>)
    ensures
        reports@ == Seq::new(
            ids@.len(),
            |i: int| (DropReport { id: ids@[i], reason: DropReason::Oversized }),
        ),
{
    let mut reports: Vec<DropReport> = Vec::new();
    let mut i: usize = 0;
    while i < ids.len()
        invariant
            i <= ids@.len(),
            reports@.len() == i,
            forall|j: int|
                0 <= j < i ==> #[trigger] reports@[j] == (DropReport {
                    id: ids@[j],
                    reason: DropReason::Oversized,
                }),
        decreases ids@.len() - i,
    {
        reports.push(DropReport { id: ids[i], reason: DropReason::Oversized });
        i += 1;
    }
    assert(reports@ =~= Seq::new(
        ids@.len(),
        |i: int| (DropReport { id: ids@[i], reason: DropReason::Oversized }),
    ));
    reports
}

} // verus!
