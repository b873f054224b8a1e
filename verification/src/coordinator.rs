//! The ambush coordinator: a state machine that a driver steps with the
//! outcome of the last thing it did, and that answers with the next thing
//! to do.
//!
//! A cycle is: wait for the acknowledgment of the previous ambush (not on
//! the first cycle), sleep for a random time, ambush. The wait is best
//! effort: it ends when an acknowledgment is seen or when the timeout has
//! passed, whichever comes first, so the cycle never stalls.

use crate::timing::{
    draw_sleep_seconds, valid_sleep, ACK_TIMEOUT_MS, POLL_INTERVAL_MS, SLEEP_MIN_SECS,
};
use vstd::prelude::*;

verus! {

/// Where the coordinator stands in its cycle.
#[derive(Clone, Copy, Debug, PartialEq, Eq, Structural)]
pub enum Phase {
    /// Created, not yet running. Left once, without any wait.
    Initial,
    /// An ambush was issued; the acknowledgment flag is being polled.
    AwaitingAck,
    /// Suspended until the next ambush is due.
    Sleeping,
    /// Awake; the ambush is being issued.
    Triggering,
}

/// What the driver reports to the coordinator.
#[derive(Clone, Copy, Debug, PartialEq, Eq, Structural)]
pub enum Event {
    /// The coordinator's thread of execution has started.
    Launched,
    /// The sleep that was asked for is over.
    SleepElapsed,
    /// The ambush was issued. Whether the surface obeyed does not matter.
    AmbushIssued,
    /// The acknowledgment flag was checked and cleared.
    Polled {
        /// Whether the flag was found raised.
        acknowledged: bool,
        /// Milliseconds since the wait began, read after the check.
        elapsed_ms: u64,
    },
}

/// How the wait that precedes a sleep ended.
#[derive(Clone, Copy, Debug, PartialEq, Eq, Structural)]
pub enum WaitOutcome {
    /// There was no wait: this is the first cycle.
    Skipped,
    /// The foreground acknowledged; the flag has been cleared.
    Acknowledged,
    /// The timeout passed with no acknowledgment; the flag was left alone.
    TimedOut,
}

/// What the coordinator asks of the driver.
#[derive(Clone, Copy, Debug, PartialEq, Eq, Structural)]
pub enum Action {
    /// Suspend for `seconds`, then report [`Event::SleepElapsed`].
    Sleep {
        /// Length of the sleep.
        seconds: u64,
        /// How the wait before it ended, for the driver to report.
        after: WaitOutcome,
    },
    /// Issue the ambush, then report [`Event::AmbushIssued`].
    Ambush,
    /// Note the time as the start of the wait, check the flag at once and
    /// report [`Event::Polled`].
    BeginWait,
    /// Pause for `pause_ms`, check the flag again and report
    /// [`Event::Polled`].
    PollAgain {
        /// Length of the pause in milliseconds.
        pause_ms: u64,
    },
}

/// Whether a poll with this outcome ends the wait.
pub open spec fn wait_is_over(acknowledged: bool, elapsed_ms: u64) -> bool {
    acknowledged || elapsed_ms >= ACK_TIMEOUT_MS
}

/// The phase that follows `phase` on `event`, or `None` where `phase` has no
/// transition on `event`.
pub open spec fn next_phase(phase: Phase, event: Event) -> Option<Phase> {
    match (phase, event) {
        (Phase::Initial, Event::Launched) => Some(Phase::Sleeping),
        (Phase::Sleeping, Event::SleepElapsed) => Some(Phase::Triggering),
        (Phase::Triggering, Event::AmbushIssued) => Some(Phase::AwaitingAck),
        (Phase::AwaitingAck, Event::Polled { acknowledged, elapsed_ms }) => {
            if wait_is_over(acknowledged, elapsed_ms) {
                Some(Phase::Sleeping)
            } else {
                Some(Phase::AwaitingAck)
            }
        },
        _ => None,
    }
}

/// The phase after `event` arrived in `phase`: the next phase where there is
/// a transition, `phase` itself where there is none.
pub open spec fn phase_or_stay(phase: Phase, event: Event) -> Phase {
    match next_phase(phase, event) {
        Some(next) => next,
        None => phase,
    }
}

/// The action that goes with the transition of `phase` on `event`, where a
/// sleep, if one begins, lasts `seconds`. `None` where there is no
/// transition.
pub open spec fn action_on(phase: Phase, event: Event, seconds: u64) -> Option<Action> {
    match (phase, event) {
        (Phase::Initial, Event::Launched) => Some(
            Action::Sleep { seconds, after: WaitOutcome::Skipped },
        ),
        (Phase::Sleeping, Event::SleepElapsed) => Some(Action::Ambush),
        (Phase::Triggering, Event::AmbushIssued) => Some(Action::BeginWait),
        (Phase::AwaitingAck, Event::Polled { acknowledged, elapsed_ms }) => {
            if acknowledged {
                Some(Action::Sleep { seconds, after: WaitOutcome::Acknowledged })
            } else if elapsed_ms >= ACK_TIMEOUT_MS {
                Some(Action::Sleep { seconds, after: WaitOutcome::TimedOut })
            } else {
                Some(Action::PollAgain { pause_ms: POLL_INTERVAL_MS })
            }
        },
        _ => None,
    }
}

impl Action {
    /// The length of the sleep that this action asks for; 0 for an action
    /// that is no sleep.
    pub open spec fn sleep_seconds(self) -> u64 {
        match self {
            Action::Sleep { seconds, .. } => seconds,
            _ => 0,
        }
    }

    /// Whether the numbers in this action are ones the coordinator uses: a
    /// sleep within its bounds, a pause of one poll interval.
    pub open spec fn well_formed(self) -> bool {
        match self {
            Action::Sleep { seconds, .. } => valid_sleep(seconds),
            Action::PollAgain { pause_ms } => pause_ms == POLL_INTERVAL_MS,
            _ => true,
        }
    }
}

/// The coordinator. It holds its phase and nothing else: the clock, the
/// flag and the surface belong to the driver.
#[derive(Debug)]
pub struct Coordinator {
    phase: Phase,
}

impl View for Coordinator {
    type V = Phase;

    /// The phase the coordinator is in.
    closed spec fn view(&self) -> Phase {
        self.phase
    }
}

impl Coordinator {
    /// A coordinator that has not run yet.
    pub fn new() -> (coordinator: Self)
        ensures
            coordinator@ == Phase::Initial,
    {
        Coordinator { phase: Phase::Initial }
    }

    /// The phase the coordinator is in.
    pub fn phase(&self) -> (phase: Phase)
        ensures
            phase == self@,
    {
        self.phase
    }

    /// Takes `event` and says what to do next.
    ///
    /// Where the current phase has a transition on `event`, the coordinator
    /// moves to the next phase and returns the action of that transition. A
    /// sleep that begins gets a freshly drawn length within the bounds.
    /// Where the phase has no transition on `event`, the coordinator stays
    /// as it is and returns `None`.
    pub fn step(&mut self, event: Event) -> (action: Option<Action>)
        ensures
            final(self)@ == phase_or_stay(old(self)@, event),
            action is Some <==> next_phase(old(self)@, event) is Some,
            action matches Some(a) ==> a.well_formed() && action == action_on(
                old(self)@,
                event,
                a.sleep_seconds(),
            ),
    {
        if begins_sleep(self.phase, event) {
            let seconds: u64 = draw_sleep_seconds();
            self.step_with(event, seconds)
        } else {
            // No sleep begins on this event, so the length is not read.
            self.step_with(event, SLEEP_MIN_SECS)
        }
    }

    /// As [`Coordinator::step`], with the length of a sleep that begins
    /// given by the caller instead of drawn. The result is then fixed by the
    /// phase, the event and `seconds`.
    pub fn step_with(&mut self, event: Event, seconds: u64) -> (action: Option<Action>)
        requires
            valid_sleep(seconds),
        ensures
            final(self)@ == phase_or_stay(old(self)@, event),
            action == action_on(old(self)@, event, seconds),
            action is Some <==> next_phase(old(self)@, event) is Some,
            action matches Some(a) ==> a.well_formed(),
    {
        match (self.phase, event) {
            (Phase::Initial, Event::Launched) => {
                self.phase = Phase::Sleeping;
                Some(Action::Sleep { seconds, after: WaitOutcome::Skipped })
            },
            (Phase::Sleeping, Event::SleepElapsed) => {
                self.phase = Phase::Triggering;
                Some(Action::Ambush)
            },
            (Phase::Triggering, Event::AmbushIssued) => {
                self.phase = Phase::AwaitingAck;
                Some(Action::BeginWait)
            },
            (Phase::AwaitingAck, Event::Polled { acknowledged, elapsed_ms }) => {
                if acknowledged {
                    self.phase = Phase::Sleeping;
                    Some(Action::Sleep { seconds, after: WaitOutcome::Acknowledged })
                } else if elapsed_ms >= ACK_TIMEOUT_MS {
                    self.phase = Phase::Sleeping;
                    Some(Action::Sleep { seconds, after: WaitOutcome::TimedOut })
                } else {
                    Some(Action::PollAgain { pause_ms: POLL_INTERVAL_MS })
                }
            },
            _ => None,
        }
    }
}

impl Default for Coordinator {
    fn default() -> (coordinator: Self)
        ensures
            coordinator@ == Phase::Initial,
    {
        Coordinator::new()
    }
}

/// Whether the transition of `phase` on `event` begins a sleep.
fn begins_sleep(phase: Phase, event: Event) -> (begins: bool)
    ensures
        begins == (next_phase(phase, event) == Some(Phase::Sleeping)),
{
    match (phase, event) {
        (Phase::Initial, Event::Launched) => true,
        (Phase::AwaitingAck, Event::Polled { acknowledged, elapsed_ms }) => acknowledged
            || elapsed_ms >= ACK_TIMEOUT_MS,
        _ => false,
    }
}

} // verus!
