//! The scheduling cycle: when a bundle is built, and in which steps.

use crate::chain::ChainSpec;
use vstd::prelude::*;

verus! {

/// Where the scheduler stands in its cycle.
#[derive(Clone, Copy, Debug, PartialEq, Eq, Structural)]
pub enum SchedulerState {
    /// Waiting for a trigger; no bundle was handed off since the last cycle ended.
    Idle,
    /// Pulling candidates from the pool.
    Collecting,
    /// Computing gas and fee for the collected candidates.
    Pricing,
    /// Selecting the members of the bundle.
    Assembling,
    /// A bundle is assembled and being handed to the dispatcher.
    Ready,
    /// The bundle was handed off. The scheduler waits for a trigger as in `Idle`; it does
    /// not wait for the bundle to confirm.
    Sent,
}

/// What the scheduler is told.
#[derive(Clone, Copy, Debug, PartialEq, Eq, Structural)]
pub enum SchedulerEvent {
    /// A new block was observed.
    NewBlock,
    /// Time has passed; `now_millis` is the current time.
    Tick { now_millis: u64 },
    /// Collecting is done and found this many eligible candidates.
    Collected { eligible: usize },
    /// Pricing is done.
    Priced,
    /// No fee or data-availability price could be had, not even a last known one.
    PricingFailed,
    /// Assembling is done and accepted this many members.
    Assembled { members: usize },
    /// The dispatcher took the bundle at `now_millis`.
    HandedOff { now_millis: u64 },
}

/// What the scheduler asks to be done next.
#[derive(Clone, Copy, Debug, PartialEq, Eq, Structural)]
pub enum SchedulerAction {
    /// Nothing to do until the next event.
    Wait,
    /// Pull the candidates from the pool.
    Collect,
    /// Price the collected candidates.
    Price,
    /// Assemble the bundle.
    Assemble,
    /// Hand the bundle to the dispatcher.
    Dispatch,
}

/// The scheduler of one chain.
#[derive(Clone, Copy, Debug, PartialEq, Eq, Structural)]
pub struct Scheduler {
    /// The current step of the cycle.
    pub state: SchedulerState,
    /// When the last bundle was handed off, or when the scheduler started.
    pub last_send_millis: u64,
    /// A block arrived during the running cycle; a new cycle starts when this one ends.
    pub trigger_queued: bool,
}

/// Whether the maximum send interval has passed since the last send.
pub open spec fn interval_elapsed(last_send_millis: u64, now_millis: u64, interval_millis: u64)
    -> bool {
    now_millis >= last_send_millis && now_millis - last_send_millis >= interval_millis
}

impl Scheduler {
    /// Whether the scheduler waits for a trigger.
    pub open spec fn at_rest(&self) -> bool {
        self.state == SchedulerState::Idle || self.state == SchedulerState::Sent
    }

    /// The scheduler at the start of a cycle.
    pub open spec fn started(&self) -> (Scheduler, SchedulerAction) {
        (
            Scheduler { state: SchedulerState::Collecting, trigger_queued: false, ..*self },
            SchedulerAction::Collect,
        )
    }

    /// The scheduler at the end of a cycle that `rest` leaves at rest: a queued trigger
    /// starts the next cycle at once.
    pub open spec fn settled(&self, rest: SchedulerState) -> (Scheduler, SchedulerAction) {
        if self.trigger_queued {
            self.started()
        } else {
            (Scheduler { state: rest, ..*self }, SchedulerAction::Wait)
        }
    }

    /// The scheduler after an event, and what it asks for. An event that the current state
    /// does not expect changes nothing.
    pub open spec fn next(&self, event: SchedulerEvent, interval_millis: u64) -> (
        Scheduler,
        SchedulerAction,
    ) {
        match event {
            SchedulerEvent::NewBlock => if self.at_rest() {
                self.started()
            } else {
                (Scheduler { trigger_queued: true, ..*self }, SchedulerAction::Wait)
            },
            SchedulerEvent::Tick { now_millis } => if self.at_rest() && interval_elapsed(
                self.last_send_millis,
                now_millis,
                interval_millis,
            ) {
                self.started()
            } else {
                (*self, SchedulerAction::Wait)
            },
            SchedulerEvent::Collected { eligible } => if self.state
                != SchedulerState::Collecting {
                (*self, SchedulerAction::Wait)
            } else if eligible == 0 {
                self.settled(SchedulerState::Idle)
            } else {
                (Scheduler { state: SchedulerState::Pricing, ..*self }, SchedulerAction::Price)
            },
            SchedulerEvent::Priced => if self.state == SchedulerState::Pricing {
                (
                    Scheduler { state: SchedulerState::Assembling, ..*self },
                    SchedulerAction::Assemble,
                )
            } else {
                (*self, SchedulerAction::Wait)
            },
            SchedulerEvent::PricingFailed => if self.state == SchedulerState::Pricing {
                self.settled(SchedulerState::Idle)
            } else {
                (*self, SchedulerAction::Wait)
            },
            SchedulerEvent::Assembled { members } => if self.state
                != SchedulerState::Assembling {
                (*self, SchedulerAction::Wait)
            } else if members == 0 {
                self.settled(SchedulerState::Idle)
            } else {
                (Scheduler { state: SchedulerState::Ready, ..*self }, SchedulerAction::Dispatch)
            },
            SchedulerEvent::HandedOff { now_millis } => if self.state == SchedulerState::Ready {
                (Scheduler { last_send_millis: now_millis, ..*self }).settled(
                    SchedulerState::Sent,
                )
            } else {
                (*self, SchedulerAction::Wait)
            },
        }
    }

    /// A scheduler at rest that counts the send interval from `now_millis`.
    pub fn new(now_millis: u64) -> (scheduler: Scheduler)
        ensures
            scheduler == (Scheduler {
                state: SchedulerState::Idle,
                last_send_millis: now_millis,
                trigger_queued: false,
            }),
    {
        Scheduler { state: SchedulerState::Idle, last_send_millis: now_millis, trigger_queued: false }
    }

    /// Whether a trigger would start a cycle now.
    pub fn is_at_rest(&self) -> (resting: bool)
        ensures
            resting == self.at_rest(),
    {
        self.state == SchedulerState::Idle || self.state == SchedulerState::Sent
    }

    fn start(&mut self) -> (action: SchedulerAction)
        ensures
            (*final(self), action) == old(self).started(),
    {
        self.state = SchedulerState::Collecting;
        self.trigger_queued = false;
        SchedulerAction::Collect
    }

    fn settle(&mut self, rest: SchedulerState) -> (action: SchedulerAction)
        ensures
            (*final(self), action) == old(self).settled(rest),
    {
        if self.trigger_queued {
            self.start()
        } else {
            self.state = rest;
            SchedulerAction::Wait
        }
    }

    /// Takes one event and says what to do next.
    ///
    /// A cycle starts from rest on a new block, or when the chain's maximum send interval
    /// has passed since the last send, whichever comes first. A block that arrives during a
    /// cycle does not interrupt it; it starts the next cycle as soon as this one ends. A cycle
    /// that collects or accepts nothing ends without a dispatch.
    pub fn step(&mut self, event: SchedulerEvent, chain_spec: &ChainSpec) -> (action:
        SchedulerAction)
        ensures
            (*final(self), action) == old(self).next(
                event,
                chain_spec.bundle_max_send_interval_millis,
            ),
    {
        match event {
            SchedulerEvent::NewBlock => {
                if self.is_at_rest() {
                    self.start()
                } else {
                    self.trigger_queued = true;
                    SchedulerAction::Wait
                }
            },
            SchedulerEvent::Tick { now_millis } => {
                if self.is_at_rest() && now_millis >= self.last_send_millis && now_millis
                    - self.last_send_millis >= chain_spec.bundle_max_send_interval_millis {
                    self.start()
                } else {
                    SchedulerAction::Wait
                }
            },
            SchedulerEvent::Collected { eligible } => {
                if self.state != SchedulerState::Collecting {
                    SchedulerAction::Wait
                } else if eligible == 0 {
                    self.settle(SchedulerState::Idle)
                } else {
                    self.state = SchedulerState::Pricing;
                    SchedulerAction::Price
                }
            },
            SchedulerEvent::Priced => {
                if self.state == SchedulerState::Pricing {
                    self.state = SchedulerState::Assembling;
                    SchedulerAction::Assemble
                } else {
                    SchedulerAction::Wait
                }
            },
            SchedulerEvent::PricingFailed => {
                if self.state == SchedulerState::Pricing {
                    self.settle(SchedulerState::Idle)
                } else {
                    SchedulerAction::Wait
                }
            },
            SchedulerEvent::Assembled { members } => {
                if self.state != SchedulerState::Assembling {
                    SchedulerAction::Wait
                } else if members == 0 {
                    self.settle(SchedulerState::Idle)
                } else {
                    self.state = SchedulerState::Ready;
                    SchedulerAction::Dispatch
                }
            },
            SchedulerEvent::HandedOff { now_millis } => {
                if self.state == SchedulerState::Ready {
                    self.last_send_millis = now_millis;
                    self.settle(SchedulerState::Sent)
                } else {
                    SchedulerAction::Wait
                }
            },
        }
    }
}

/// A scheduler at rest never waits longer than the send interval: a tick at or after the
/// interval's end starts a cycle, as does any new block.
pub proof fn lemma_latency_is_bounded(
    scheduler: Scheduler,
    now_millis: u64,
    interval_millis: u64,
)
    requires
        scheduler.at_rest(),
    ensures
        scheduler.next(SchedulerEvent::NewBlock, interval_millis).1 == SchedulerAction::Collect,
        interval_elapsed(scheduler.last_send_millis, now_millis, interval_millis)
            ==> scheduler.next(SchedulerEvent::Tick { now_millis }, interval_millis).1
            == SchedulerAction::Collect,
        !interval_elapsed(scheduler.last_send_millis, now_millis, interval_millis)
            ==> scheduler.next(SchedulerEvent::Tick { now_millis }, interval_millis) == (
            scheduler,
            SchedulerAction::Wait,
        ),
{
}

/// A bundle is dispatched only when assembling accepted at least one member, and a running
/// cycle is never restarted by a trigger.
pub proof fn lemma_dispatch_needs_members(
    scheduler: Scheduler,
    event: SchedulerEvent,
    interval_millis: u64,
)
    ensures
        scheduler.next(event, interval_millis).1 == SchedulerAction::Dispatch ==> scheduler.state
            == SchedulerState::Assembling && event is Assembled && event->members > 0,
        !scheduler.at_rest() && (event is NewBlock || event is Tick) ==> scheduler.next(
            event,
            interval_millis,
        ).0.state == scheduler.state && scheduler.next(event, interval_millis).1
            == SchedulerAction::Wait,
{
}

} // verus!
