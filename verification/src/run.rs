//! Runs of the coordinator: what a sequence of events does to it, and the
//! laws that hold of every run.

use crate::ack::{consumed, signalled};
use crate::coordinator::{
    action_on, next_phase, phase_or_stay, wait_is_over, Action, Event, Phase, WaitOutcome,
};
use crate::timing::{valid_sleep, ACK_TIMEOUT_MS, SLEEP_MIN_SECS};
use vstd::prelude::*;

verus! {

/// The phase that a coordinator in phase `start` is in after it was stepped
/// with each event of `events` in turn.
pub open spec fn phase_after(start: Phase, events: Seq<Event>) -> Phase
    decreases events.len(),
{
    if events.len() == 0 {
        start
    } else {
        phase_or_stay(phase_after(start, events.drop_last()), events.last())
    }
}

/// Whether step `index` of the run begins a sleep.
pub open spec fn sleep_begins_at(start: Phase, events: Seq<Event>, index: int) -> bool {
    next_phase(phase_after(start, events.take(index)), events[index]) == Some(Phase::Sleeping)
}

/// Whether step `index` of the run issues an ambush.
pub open spec fn ambush_issued_at(start: Phase, events: Seq<Event>, index: int) -> bool {
    next_phase(phase_after(start, events.take(index)), events[index]) == Some(Phase::Triggering)
}

/// A poll that saw no acknowledgment before the timeout: the wait goes on.
pub open spec fn inconclusive(event: Event) -> bool {
    event matches Event::Polled { acknowledged, elapsed_ms } && !wait_is_over(
        acknowledged,
        elapsed_ms,
    )
}

/// A poll that saw no acknowledgment, whatever the clock read.
pub open spec fn unacknowledged(event: Event) -> bool {
    event matches Event::Polled { acknowledged, .. } && !acknowledged
}

/// The clock reading that a poll carries; 0 for an event that is no poll.
pub open spec fn reading(event: Event) -> u64 {
    match event {
        Event::Polled { elapsed_ms, .. } => elapsed_ms,
        _ => 0,
    }
}

/// One more event moves the run on by one transition.
pub proof fn lemma_phase_after_next(start: Phase, events: Seq<Event>, index: int)
    requires
        0 <= index < events.len(),
    ensures
        phase_after(start, events.take(index + 1)) == phase_or_stay(
            phase_after(start, events.take(index)),
            events[index],
        ),
{
    assert(events.take(index + 1).drop_last() =~= events.take(index));
}

/// A sleep begins with a sleep action of the length chosen, and with no
/// other action; an ambush is issued with the ambush action, and with no
/// other.
pub proof fn law_actions_follow_phases(phase: Phase, event: Event, seconds: u64)
    ensures
        next_phase(phase, event) == Some(Phase::Sleeping) <==> action_on(phase, event, seconds)
            is Some && action_on(phase, event, seconds)->0 is Sleep,
        next_phase(phase, event) == Some(Phase::Sleeping) ==> action_on(
            phase,
            event,
            seconds,
        )->0.sleep_seconds() == seconds,
        next_phase(phase, event) == Some(Phase::Triggering) <==> action_on(phase, event, seconds)
            == Some(Action::Ambush),
        action_on(phase, event, seconds) is Some <==> next_phase(phase, event) is Some,
{
}

/// The first cycle has no wait. Launching is the only thing that moves a new
/// coordinator, it takes it straight to sleep, and the sleep is marked as
/// following no wait.
pub proof fn law_first_cycle_skips_wait(event: Event, seconds: u64)
    ensures
        next_phase(Phase::Initial, event) is Some <==> event == Event::Launched,
        next_phase(Phase::Initial, Event::Launched) == Some(Phase::Sleeping),
        action_on(Phase::Initial, Event::Launched, seconds) == Some(
            Action::Sleep { seconds, after: WaitOutcome::Skipped },
        ),
{
}

/// No run of a new coordinator waits for an acknowledgment before it has
/// been through a sleep and an ambush.
pub proof fn law_no_wait_before_first_ambush(events: Seq<Event>, index: int)
    requires
        0 <= index <= events.len(),
        phase_after(Phase::Initial, events.take(index)) == Phase::AwaitingAck,
    ensures
        exists|slept: int, ambushed: int|
            0 <= slept < ambushed < index && #[trigger] sleep_begins_at(
                Phase::Initial,
                events,
                slept,
            ) && #[trigger] ambush_issued_at(Phase::Initial, events, ambushed),
{
    let ambushed = lemma_last_ambush_before_wait(events, index);
    let slept = lemma_last_sleep_before_ambush(events, ambushed);
    assert(sleep_begins_at(Phase::Initial, events, slept) && ambush_issued_at(
        Phase::Initial,
        events,
        ambushed,
    ));
}

/// A run of a new coordinator that is waiting has issued an ambush.
proof fn lemma_last_ambush_before_wait(events: Seq<Event>, index: int) -> (ambushed: int)
    requires
        0 <= index <= events.len(),
        phase_after(Phase::Initial, events.take(index)) == Phase::AwaitingAck,
    ensures
        0 <= ambushed < index,
        ambush_issued_at(Phase::Initial, events, ambushed),
        phase_after(Phase::Initial, events.take(ambushed)) == Phase::Sleeping,
    decreases index,
{
    if index == 0 {
        assert(events.take(0).len() == 0);
        0
    } else {
        lemma_phase_after_next(Phase::Initial, events, index - 1);
        let before = phase_after(Phase::Initial, events.take(index - 1));
        if before == Phase::AwaitingAck {
            lemma_last_ambush_before_wait(events, index - 1)
        } else {
            // The wait was entered by this step, so an ambush was being
            // issued just before it.
            assert(before == Phase::Triggering);
            lemma_triggering_was_entered(events, index - 1)
        }
    }
}

/// A run of a new coordinator that is issuing an ambush came there by a step
/// out of a sleep.
proof fn lemma_triggering_was_entered(events: Seq<Event>, index: int) -> (ambushed: int)
    requires
        0 <= index <= events.len(),
        phase_after(Phase::Initial, events.take(index)) == Phase::Triggering,
    ensures
        0 <= ambushed < index,
        ambush_issued_at(Phase::Initial, events, ambushed),
        phase_after(Phase::Initial, events.take(ambushed)) == Phase::Sleeping,
    decreases index,
{
    if index == 0 {
        assert(events.take(0).len() == 0);
        0
    } else {
        lemma_phase_after_next(Phase::Initial, events, index - 1);
        let before = phase_after(Phase::Initial, events.take(index - 1));
        if before == Phase::Triggering {
            lemma_triggering_was_entered(events, index - 1)
        } else {
            assert(before == Phase::Sleeping);
            index - 1
        }
    }
}

/// A run of a new coordinator that is asleep came there by a step that began
/// the sleep.
proof fn lemma_last_sleep_before_ambush(events: Seq<Event>, index: int) -> (slept: int)
    requires
        0 <= index <= events.len(),
        phase_after(Phase::Initial, events.take(index)) == Phase::Sleeping,
    ensures
        0 <= slept < index,
        sleep_begins_at(Phase::Initial, events, slept),
    decreases index,
{
    if index == 0 {
        assert(events.take(0).len() == 0);
        0
    } else {
        lemma_phase_after_next(Phase::Initial, events, index - 1);
        let before = phase_after(Phase::Initial, events.take(index - 1));
        if before == Phase::Sleeping {
            lemma_last_sleep_before_ambush(events, index - 1)
        } else {
            index - 1
        }
    }
}

/// A wait lasts exactly until its first conclusive poll: through every poll
/// that is inconclusive the coordinator keeps waiting, and the first poll
/// that saw an acknowledgment or found the timeout passed puts it to sleep.
pub proof fn law_wait_ends_at_first_conclusive_poll(polls: Seq<Event>, last: int)
    requires
        0 <= last < polls.len(),
        forall|i: int| 0 <= i < last ==> inconclusive(#[trigger] polls[i]),
        polls[last] is Polled,
        !inconclusive(polls[last]),
    ensures
        forall|i: int|
            0 <= i <= last ==> #[trigger] phase_after(Phase::AwaitingAck, polls.take(i))
                == Phase::AwaitingAck,
        phase_after(Phase::AwaitingAck, polls.take(last + 1)) == Phase::Sleeping,
{
    assert forall|i: int| 0 <= i <= last implies #[trigger] phase_after(
        Phase::AwaitingAck,
        polls.take(i),
    ) == Phase::AwaitingAck by {
        lemma_inconclusive_polls_keep_waiting(polls, i);
    }
    lemma_phase_after_next(Phase::AwaitingAck, polls, last);
}

/// Inconclusive polls leave the coordinator waiting.
proof fn lemma_inconclusive_polls_keep_waiting(polls: Seq<Event>, count: int)
    requires
        0 <= count <= polls.len(),
        forall|i: int| 0 <= i < count ==> inconclusive(#[trigger] polls[i]),
    ensures
        phase_after(Phase::AwaitingAck, polls.take(count)) == Phase::AwaitingAck,
    decreases count,
{
    if count == 0 {
        assert(polls.take(0).len() == 0);
    } else {
        lemma_inconclusive_polls_keep_waiting(polls, count - 1);
        lemma_phase_after_next(Phase::AwaitingAck, polls, count - 1);
    }
}

/// A wait in which no acknowledgment is ever seen ends by timeout, at the
/// first poll whose clock reading has reached [`ACK_TIMEOUT_MS`]. The sleep
/// that follows is marked as timed out. Where that poll comes no more than
/// `gap` milliseconds after the poll before it, it comes less than `gap`
/// milliseconds after the timeout.
pub proof fn law_unacknowledged_wait_times_out(polls: Seq<Event>, last: int, gap: u64, seconds: u64)
    requires
        0 <= last < polls.len(),
        forall|i: int| 0 <= i <= last ==> unacknowledged(#[trigger] polls[i]),
        forall|i: int| 0 <= i < last ==> reading(#[trigger] polls[i]) < ACK_TIMEOUT_MS,
        reading(polls[last]) >= ACK_TIMEOUT_MS,
    ensures
        forall|i: int|
            0 <= i <= last ==> #[trigger] phase_after(Phase::AwaitingAck, polls.take(i))
                == Phase::AwaitingAck,
        phase_after(Phase::AwaitingAck, polls.take(last + 1)) == Phase::Sleeping,
        action_on(Phase::AwaitingAck, polls[last], seconds) == Some(
            Action::Sleep { seconds, after: WaitOutcome::TimedOut },
        ),
        last > 0 && reading(polls[last]) - reading(polls[last - 1]) <= gap ==> reading(polls[last])
            < ACK_TIMEOUT_MS + gap,
{
    assert forall|i: int| 0 <= i < last implies inconclusive(#[trigger] polls[i]) by {
        assert(unacknowledged(polls[i]));
        assert(reading(polls[i]) < ACK_TIMEOUT_MS);
    }
    assert(unacknowledged(polls[last]));
    law_wait_ends_at_first_conclusive_poll(polls, last);
    if last > 0 {
        assert(reading(polls[last - 1]) < ACK_TIMEOUT_MS);
    }
}

/// An acknowledgment signalled during a wait ends the wait at the next
/// poll, whatever the clock reads then. That poll consumes the signal, and
/// the sleep that follows is marked as acknowledged. Where the signal came
/// no earlier than the poll before, and the polls are no more than `gap`
/// milliseconds apart, the wait ends no more than `gap` milliseconds after
/// the signal.
pub proof fn law_acknowledged_wait_ends_at_next_poll(
    flag: bool,
    polls: Seq<Event>,
    last: int,
    signalled_at: u64,
    gap: u64,
    seconds: u64,
)
    requires
        0 <= last < polls.len(),
        forall|i: int| 0 <= i < last ==> inconclusive(#[trigger] polls[i]),
        polls[last] == (Event::Polled {
            acknowledged: consumed(signalled(flag)).1,
            elapsed_ms: reading(polls[last]),
        }),
    ensures
        forall|i: int|
            0 <= i <= last ==> #[trigger] phase_after(Phase::AwaitingAck, polls.take(i))
                == Phase::AwaitingAck,
        phase_after(Phase::AwaitingAck, polls.take(last + 1)) == Phase::Sleeping,
        action_on(Phase::AwaitingAck, polls[last], seconds) == Some(
            Action::Sleep { seconds, after: WaitOutcome::Acknowledged },
        ),
        !consumed(signalled(flag)).0,
        last > 0 && reading(polls[last - 1]) <= signalled_at <= reading(polls[last]) && reading(
            polls[last],
        ) - reading(polls[last - 1]) <= gap ==> reading(polls[last]) - signalled_at <= gap,
{
    law_wait_ends_at_first_conclusive_poll(polls, last);
}

/// Between any two ambushes of a run a sleep begins, and the step that
/// begins it asks for a sleep of the length drawn, which is at least
/// [`SLEEP_MIN_SECS`] seconds: two ambushes are never closer than that.
pub proof fn law_sleep_between_ambushes(
    start: Phase,
    events: Seq<Event>,
    first: int,
    second: int,
    seconds: u64,
) -> (between: int)
    requires
        0 <= first < second < events.len(),
        ambush_issued_at(start, events, first),
        ambush_issued_at(start, events, second),
        valid_sleep(seconds),
    ensures
        first < between < second,
        sleep_begins_at(start, events, between),
        action_on(phase_after(start, events.take(between)), events[between], seconds) matches Some(
            Action::Sleep { seconds: asked, .. },
        ) && asked == seconds && asked >= SLEEP_MIN_SECS,
{
    lemma_phase_after_next(start, events, first);
    lemma_sleep_began_since(start, events, first + 1, second)
}

/// A run that is not asleep after `from` events and is asleep after `to`
/// events began a sleep in between.
proof fn lemma_sleep_began_since(start: Phase, events: Seq<Event>, from: int, to: int) -> (between: int)
    requires
        0 <= from <= to <= events.len(),
        phase_after(start, events.take(from)) != Phase::Sleeping,
        phase_after(start, events.take(to)) == Phase::Sleeping,
    ensures
        from <= between < to,
        sleep_begins_at(start, events, between),
    decreases to - from,
{
    lemma_phase_after_next(start, events, to - 1);
    if phase_after(start, events.take(to - 1)) == Phase::Sleeping {
        lemma_sleep_began_since(start, events, from, to - 1)
    } else {
        to - 1
    }
}

} // verus!
