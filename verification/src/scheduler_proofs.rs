//! What holds of the push scheduler in every state and after every sequence
//! of events.

use vstd::prelude::*;
use vstd::arithmetic::div_mod::{lemma_fundamental_div_mod, lemma_mod_multiples_basic, lemma_mod_bound};
use crate::scheduler::{next_client, next_tick, Action, Event, Phase, SchedulerModel};

verus! {

/// The next tick lies on the schedule, after `now` and at most one period
/// after it: it is the one point of the schedule in that range, however many
/// points have passed between the deadline and `now`.
pub proof fn lemma_next_tick_on_schedule(deadline: int, period: int, now: int)
    requires
        0 < period,
        deadline <= now,
    ensures
        now < next_tick(deadline, period, now) <= now + period,
        next_tick(deadline, period, now) == deadline + ((now - deadline) / period + 1) * period,
        (next_tick(deadline, period, now) - deadline) % period == 0,
{
    let late = now - deadline;
    lemma_fundamental_div_mod(late, period);
    lemma_mod_bound(late, period);
    assert(deadline + (late / period + 1) * period == deadline + period * (late / period) + period)
        by (nonlinear_arith);
    lemma_mod_multiples_basic(late / period + 1, period);
}

/// No event changes the period, and a scheduler with a period keeps it.
pub proof fn lemma_step_keeps_period(m: SchedulerModel, event: Event)
    ensures
        m.step(event).period_ms == m.period_ms,
        m.wf() ==> m.step(event).wf(),
{
}

/// A scheduler that was started is never idle again.
pub proof fn lemma_never_idle_again(m: SchedulerModel, events: Seq<Event>)
    requires
        m.phase != Phase::Idle,
    ensures
        m.run(events).phase != Phase::Idle,
    decreases events.len(),
{
    if events.len() > 0 {
        lemma_never_idle_again(m, events.drop_last());
    }
}

/// At most one push is in flight, whatever events come in whatever order:
/// the pushes asked for and not yet finished are those in flight, and that
/// is never more than one.
pub proof fn lemma_at_most_one_in_flight(m: SchedulerModel, events: Seq<Event>)
    ensures
        m.in_flight() + m.pushes_started(events) == m.pushes_finished(events) + m.run(events).in_flight(),
        m.run(events).in_flight() <= 1,
    decreases events.len(),
{
    if events.len() > 0 {
        lemma_at_most_one_in_flight(m, events.drop_last());
    }
}

/// A push is asked for only from between two pushes, and a wake-up while a
/// push is in flight changes nothing: the tick is dropped, not kept for later.
pub proof fn lemma_wake_while_pushing_is_dropped(m: SchedulerModel, now_ms: u64)
    requires
        m.phase == Phase::Pushing,
    ensures
        m.step(Event::Wake { now_ms }) == m,
        m.action(Event::Wake { now_ms }) == Action::Ignore,
{
}

/// After a tick has fired at `now_ms`, however late, the next tick lies
/// ahead: at most one period ahead, and on the schedule. The ticks that came
/// due before `now_ms` are gone.
pub proof fn lemma_fired_tick_leaves_none_due(m: SchedulerModel, now_ms: u64)
    requires
        m.wf(),
        m.tick_due(now_ms),
        now_ms + m.period_ms <= u64::MAX,
    ensures
        m.action(Event::Wake { now_ms }) == (Action::Push { client: m.client }),
        m.step(Event::Wake { now_ms }).phase == Phase::Pushing,
        now_ms < m.step(Event::Wake { now_ms }).deadline_ms <= now_ms + m.period_ms,
        (m.step(Event::Wake { now_ms }).deadline_ms - m.deadline_ms) % (m.period_ms as int) == 0,
{
    lemma_next_tick_on_schedule(m.deadline_ms as int, m.period_ms as int, now_ms as int);
}

/// A push that takes longer than two periods is followed by one push, not
/// by two. The tick at `started_ms` fires; its push ends at `ended_ms`, more
/// than two periods later; the scheduler is woken at once and one tick
/// fires; when that push ends too, be it in the same instant, no tick is due
/// before the next point of the schedule.
pub proof fn lemma_missed_ticks_are_skipped(
    m: SchedulerModel,
    started_ms: u64,
    first_rebuild: bool,
    ended_ms: u64,
    second_rebuild: bool,
)
    requires
        m.wf(),
        m.tick_due(started_ms),
        ended_ms > started_ms + 2 * m.period_ms,
        ended_ms + m.period_ms <= u64::MAX,
    ensures
        ({
            let pushing = m.step(Event::Wake { now_ms: started_ms });
            let waiting = pushing.step(Event::Finished { rebuild: first_rebuild });
            let pushing_again = waiting.step(Event::Wake { now_ms: ended_ms });
            let waiting_again = pushing_again.step(Event::Finished { rebuild: second_rebuild });
            &&& m.action(Event::Wake { now_ms: started_ms }) is Push
            &&& waiting.action(Event::Wake { now_ms: ended_ms }) is Push
            &&& waiting_again.phase == Phase::WaitingTick
            &&& ended_ms < waiting_again.deadline_ms <= ended_ms + m.period_ms
            &&& forall|now_ms: u64|
                now_ms < waiting_again.deadline_ms ==> #[trigger] waiting_again.action(Event::Wake { now_ms })
                    == (Action::SleepUntil { deadline_ms: waiting_again.deadline_ms })
        }),
{
    lemma_fired_tick_leaves_none_due(m, started_ms);
    let pushing = m.step(Event::Wake { now_ms: started_ms });
    let waiting = pushing.step(Event::Finished { rebuild: first_rebuild });
    lemma_fired_tick_leaves_none_due(waiting, ended_ms);
}

/// A client whose push failed in sending is not used again: the scheduler
/// asks for a new client with another number, and the next push it asks for
/// is made with that one. If that push succeeds, the new client stays and the
/// scheduler waits for the next tick.
pub proof fn lemma_failed_client_is_replaced(m: SchedulerModel, now_ms: u64)
    requires
        m.phase == Phase::Pushing,
    ensures
        ({
            let failed = Event::Finished { rebuild: true };
            let succeeded = Event::Finished { rebuild: false };
            let waiting = m.step(failed);
            let pushing = waiting.step(Event::Wake { now_ms });
            &&& m.action(failed) == (Action::RebuildClient { client: waiting.client })
            &&& waiting.phase == Phase::WaitingTick
            &&& waiting.client == next_client(m.client)
            &&& waiting.client != m.client
            &&& waiting.tick_due(now_ms) ==> {
                &&& waiting.action(Event::Wake { now_ms }) == (Action::Push { client: waiting.client })
                &&& pushing.action(succeeded) == Action::KeepClient
                &&& pushing.step(succeeded).client == waiting.client
                &&& pushing.step(succeeded).phase == Phase::WaitingTick
            }
        }),
{
}

/// The client changes at one place only: where a push in flight ends with a
/// failure in sending. Every other event keeps it.
pub proof fn lemma_client_kept_otherwise(m: SchedulerModel, event: Event)
    requires
        !(m.phase == Phase::Pushing && event == (Event::Finished { rebuild: true })),
    ensures
        m.step(event).client == m.client,
        !(m.action(event) is RebuildClient),
{
}

/// Every push is asked for with the client that is current at that moment.
pub proof fn lemma_push_uses_current_client(m: SchedulerModel, event: Event)
    ensures
        m.action(event) is Push ==> m.action(event) == (Action::Push { client: m.client }) && m.step(
            event,
        ).client == m.client,
{
}

} // verus!
