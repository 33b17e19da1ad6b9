//! The push scheduler: a state machine from state and event to next state
//! and action. Whoever drives it sleeps, pushes and rebuilds the client as
//! the actions say, and reports back with the next event.
//!
//! Ticks lie on a fixed schedule, one period apart. A tick that comes due
//! while a push is still running is skipped, not queued: when the scheduler
//! is next woken, one tick fires at once and the next is the first point of
//! the schedule that still lies ahead.

use vstd::prelude::*;
use crate::response::{outcome_rebuilds_client, PushFailure};

verus! {

/// Where the scheduler stands.
#[derive(Clone, Copy, Debug, PartialEq, Eq, Structural)]
pub enum Phase {
    /// Made, not started.
    Idle,
    /// Between two pushes.
    WaitingTick,
    /// One push is in flight.
    Pushing,
}

/// What can happen to the scheduler.
pub enum Event {
    /// The task starts, at the instant `now_ms`.
    Start { now_ms: u64 },
    /// The task is awake at the instant `now_ms`.
    Wake { now_ms: u64 },
    /// The push in flight is over; `rebuild` says whether it failed in a way
    /// that forbids using its client again.
    Finished { rebuild: bool },
}

/// What the driver has to do next.
#[derive(Clone, Copy, Debug, PartialEq, Eq, Structural)]
pub enum Action {
    /// Nothing: the event does not apply in this state.
    Ignore,
    /// Sleep until the deadline, then wake the scheduler.
    SleepUntil { deadline_ms: u64 },
    /// Make one push attempt with the current client, then report how it ended.
    Push { client: u64 },
    /// Keep the current client.
    KeepClient,
    /// Drop the current client and build the one with this number.
    RebuildClient { client: u64 },
}

/// The scheduler as mathematical value. Instants and the period are in
/// milliseconds; `client` numbers the current client.
pub struct SchedulerModel {
    pub phase: Phase,
    pub period_ms: u64,
    pub deadline_ms: u64,
    pub client: u64,
}

/// `value`, or the largest `u64` where it is larger.
pub open spec fn saturated(value: int) -> u64 {
    if value > u64::MAX {
        u64::MAX
    } else {
        value as u64
    }
}

/// The period in milliseconds of an interval given in seconds.
pub open spec fn period_of(interval_seconds: u64) -> u64 {
    saturated(interval_seconds * 1000)
}

/// The first point of the schedule after `now`, where the schedule's points
/// lie whole periods from `deadline`, and `deadline` is not after `now`.
pub open spec fn next_tick(deadline: int, period: int, now: int) -> int {
    now + period - (now - deadline) % period
}

/// The number of the client that replaces the client `client`.
pub open spec fn next_client(client: u64) -> u64 {
    if client == u64::MAX {
        0
    } else {
        (client + 1) as u64
    }
}

impl SchedulerModel {
    /// A scheduler needs a period.
    pub open spec fn wf(self) -> bool {
        self.period_ms > 0
    }

    /// The scheduler before it is started.
    pub open spec fn idle(period_ms: u64) -> SchedulerModel {
        SchedulerModel { phase: Phase::Idle, period_ms, deadline_ms: 0, client: 0 }
    }

    /// Whether a tick is due at `now_ms`.
    pub open spec fn tick_due(self, now_ms: u64) -> bool {
        self.phase == Phase::WaitingTick && now_ms >= self.deadline_ms
    }

    /// The state after `event`.
    pub open spec fn step(self, event: Event) -> SchedulerModel {
        match event {
            Event::Start { now_ms } => if self.phase == Phase::Idle {
                SchedulerModel { phase: Phase::WaitingTick, deadline_ms: now_ms, ..self }
            } else {
                self
            },
            Event::Wake { now_ms } => if self.tick_due(now_ms) {
                SchedulerModel {
                    phase: Phase::Pushing,
                    deadline_ms: saturated(next_tick(self.deadline_ms as int, self.period_ms as int, now_ms as int)),
                    ..self
                }
            } else {
                self
            },
            Event::Finished { rebuild } => if self.phase == Phase::Pushing {
                SchedulerModel {
                    phase: Phase::WaitingTick,
                    client: if rebuild {
                        next_client(self.client)
                    } else {
                        self.client
                    },
                    ..self
                }
            } else {
                self
            },
        }
    }

    /// What the driver has to do after `event`.
    pub open spec fn action(self, event: Event) -> Action {
        match event {
            Event::Start { now_ms } => if self.phase == Phase::Idle {
                Action::SleepUntil { deadline_ms: now_ms }
            } else {
                Action::Ignore
            },
            Event::Wake { now_ms } => if self.tick_due(now_ms) {
                Action::Push { client: self.client }
            } else if self.phase == Phase::WaitingTick {
                Action::SleepUntil { deadline_ms: self.deadline_ms }
            } else {
                Action::Ignore
            },
            Event::Finished { rebuild } => if self.phase == Phase::Pushing {
                if rebuild {
                    Action::RebuildClient { client: next_client(self.client) }
                } else {
                    Action::KeepClient
                }
            } else {
                Action::Ignore
            },
        }
    }

    /// The state after all of `events`, in order.
    pub open spec fn run(self, events: Seq<Event>) -> SchedulerModel
        decreases events.len(),
    {
        if events.len() == 0 {
            self
        } else {
            self.run(events.drop_last()).step(events.last())
        }
    }

    /// How many pushes are in flight: one while pushing, else none.
    pub open spec fn in_flight(self) -> nat {
        if self.phase == Phase::Pushing {
            1
        } else {
            0
        }
    }

    /// How many of `events` made the scheduler ask for a push.
    pub open spec fn pushes_started(self, events: Seq<Event>) -> nat
        decreases events.len(),
    {
        if events.len() == 0 {
            0
        } else {
            let before = events.drop_last();
            self.pushes_started(before) + if self.run(before).action(events.last()) is Push {
                1nat
            } else {
                0nat
            }
        }
    }

    /// How many of `events` ended a push that was in flight.
    pub open spec fn pushes_finished(self, events: Seq<Event>) -> nat
        decreases events.len(),
    {
        if events.len() == 0 {
            0
        } else {
            let before = events.drop_last();
            let action = self.run(before).action(events.last());
            self.pushes_finished(before) + if action is KeepClient || action is RebuildClient {
                1nat
            } else {
                0nat
            }
        }
    }
}

/// The push scheduler. It owns the schedule of ticks and the number of the
/// current client.
#[derive(Debug, PartialEq, Eq)]
pub struct PushScheduler {
    phase: Phase,
    period_ms: u64,
    deadline_ms: u64,
    client: u64,
}

impl View for PushScheduler {
    type V = SchedulerModel;

    closed spec fn view(&self) -> SchedulerModel {
        SchedulerModel {
            phase: self.phase,
            period_ms: self.period_ms,
            deadline_ms: self.deadline_ms,
            client: self.client,
        }
    }
}

impl PushScheduler {
    #[verifier::type_invariant]
    spec fn has_period(self) -> bool {
        self.period_ms > 0
    }

    /// A scheduler that ticks every `interval_seconds`, not yet started.
    pub fn new(interval_seconds: u64) -> (scheduler: PushScheduler)
        requires
            interval_seconds > 0,
        ensures
            scheduler@ == SchedulerModel::idle(period_of(interval_seconds)),
            scheduler@.wf(),
    {
        let period_ms = match interval_seconds.checked_mul(1000) {
            Some(ms) => ms,
            None => u64::MAX,
        };
        PushScheduler { phase: Phase::Idle, period_ms, deadline_ms: 0, client: 0 }
    }

    pub fn phase(&self) -> (phase: Phase)
        ensures
            phase == self@.phase,
    {
        self.phase
    }

    pub fn period_ms(&self) -> (period_ms: u64)
        ensures
            period_ms == self@.period_ms,
            period_ms > 0,
    {
        proof {
            use_type_invariant(self);
        }
        self.period_ms
    }

    pub fn deadline_ms(&self) -> (deadline_ms: u64)
        ensures
            deadline_ms == self@.deadline_ms,
    {
        self.deadline_ms
    }

    pub fn client(&self) -> (client: u64)
        ensures
            client == self@.client,
    {
        self.client
    }

    /// Starts the schedule at `now_ms`: the first tick is due at once. A
    /// scheduler that was started before stays as it is.
    pub fn start(&mut self, now_ms: u64) -> (action: Action)
        ensures
            final(self)@ == old(self)@.step(Event::Start { now_ms }),
            action == old(self)@.action(Event::Start { now_ms }),
            final(self)@.wf(),
    {
        proof {
            use_type_invariant(&*self);
        }
        match self.phase {
            Phase::Idle => {
                self.phase = Phase::WaitingTick;
                self.deadline_ms = now_ms;
                Action::SleepUntil { deadline_ms: now_ms }
            },
            _ => Action::Ignore,
        }
    }

    /// Tells the scheduler that it is `now_ms`. Where a tick is due, one push
    /// is asked for, and the next tick is set to the first point of the
    /// schedule after `now_ms`, however many points have passed meanwhile.
    /// While a push is in flight nothing happens.
    pub fn wake(&mut self, now_ms: u64) -> (action: Action)
        ensures
            final(self)@ == old(self)@.step(Event::Wake { now_ms }),
            action == old(self)@.action(Event::Wake { now_ms }),
            final(self)@.wf(),
    {
        proof {
            use_type_invariant(&*self);
        }
        match self.phase {
            Phase::WaitingTick => {
                if now_ms >= self.deadline_ms {
                    let late = now_ms - self.deadline_ms;
                    let wait = self.period_ms - late % self.period_ms;
                    let next = if wait <= u64::MAX - now_ms {
                        now_ms + wait
                    } else {
                        u64::MAX
                    };
                    self.phase = Phase::Pushing;
                    self.deadline_ms = next;
                    Action::Push { client: self.client }
                } else {
                    Action::SleepUntil { deadline_ms: self.deadline_ms }
                }
            },
            _ => Action::Ignore,
        }
    }

    /// Tells the scheduler how the push in flight ended. After a failure in
    /// sending the client is replaced; after success, and after an encode
    /// error, it stays.
    pub fn finish(&mut self, outcome: &Result<(), PushFailure>) -> (action: Action)
        ensures
            final(self)@ == old(self)@.step(Event::Finished { rebuild: outcome_rebuilds_client(*outcome) }),
            action == old(self)@.action(Event::Finished { rebuild: outcome_rebuilds_client(*outcome) }),
            final(self)@.wf(),
    {
        proof {
            use_type_invariant(&*self);
        }
        let rebuild = match outcome {
            Ok(_) => false,
            Err(failure) => failure.rebuilds_client(),
        };
        match self.phase {
            Phase::Pushing => {
                self.phase = Phase::WaitingTick;
                if rebuild {
                    let client = if self.client == u64::MAX {
                        0
                    } else {
                        self.client + 1
                    };
                    self.client = client;
                    Action::RebuildClient { client }
                } else {
                    Action::KeepClient
                }
            },
            _ => Action::Ignore,
        }
    }
}

} // verus!
