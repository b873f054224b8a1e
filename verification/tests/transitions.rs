use ambush_coordinator::coordinator::{Action, Coordinator, Event, Phase, WaitOutcome};
use ambush_coordinator::timing::{
    draw_sleep_seconds, ACK_TIMEOUT_MS, POLL_INTERVAL_MS, SLEEP_MAX_SECS, SLEEP_MIN_SECS,
};

fn waiting_coordinator() -> Coordinator {
    let mut coordinator = Coordinator::new();
    assert!(coordinator.step_with(Event::Launched, 10).is_some());
    assert!(coordinator.step(Event::SleepElapsed).is_some());
    assert!(coordinator.step(Event::AmbushIssued).is_some());
    assert_eq!(coordinator.phase(), Phase::AwaitingAck);
    coordinator
}

#[test]
fn time_constants_have_their_design_values() {
    assert_eq!(POLL_INTERVAL_MS, 100);
    assert_eq!(ACK_TIMEOUT_MS, 8000);
    assert_eq!(SLEEP_MIN_SECS, 10);
    assert_eq!(SLEEP_MAX_SECS, 19);
}

#[test]
fn new_coordinator_is_initial() {
    assert_eq!(Coordinator::new().phase(), Phase::Initial);
    assert_eq!(Coordinator::default().phase(), Phase::Initial);
}

#[test]
fn first_cycle_goes_straight_to_sleep() {
    let mut coordinator = Coordinator::new();
    let action = coordinator.step_with(Event::Launched, 13);
    assert_eq!(
        action,
        Some(Action::Sleep { seconds: 13, after: WaitOutcome::Skipped })
    );
    assert_eq!(coordinator.phase(), Phase::Sleeping);
}

#[test]
fn first_cycle_with_a_drawn_sleep() {
    let mut coordinator = Coordinator::new();
    match coordinator.step(Event::Launched) {
        Some(Action::Sleep { seconds, after }) => {
            assert!(SLEEP_MIN_SECS <= seconds && seconds <= SLEEP_MAX_SECS);
            assert_eq!(after, WaitOutcome::Skipped);
        }
        other => panic!("expected a sleep, got {:?}", other),
    }
    assert_eq!(coordinator.phase(), Phase::Sleeping);
}

#[test]
fn waking_triggers_the_ambush() {
    let mut coordinator = Coordinator::new();
    coordinator.step(Event::Launched);
    assert_eq!(coordinator.step(Event::SleepElapsed), Some(Action::Ambush));
    assert_eq!(coordinator.phase(), Phase::Triggering);
}

#[test]
fn ambush_is_followed_by_the_wait() {
    let mut coordinator = Coordinator::new();
    coordinator.step(Event::Launched);
    coordinator.step(Event::SleepElapsed);
    assert_eq!(coordinator.step(Event::AmbushIssued), Some(Action::BeginWait));
    assert_eq!(coordinator.phase(), Phase::AwaitingAck);
}

#[test]
fn poll_without_acknowledgment_before_timeout_polls_again() {
    let mut coordinator = waiting_coordinator();
    let action = coordinator.step(Event::Polled { acknowledged: false, elapsed_ms: 0 });
    assert_eq!(action, Some(Action::PollAgain { pause_ms: 100 }));
    assert_eq!(coordinator.phase(), Phase::AwaitingAck);
    let action = coordinator.step(Event::Polled { acknowledged: false, elapsed_ms: 7999 });
    assert_eq!(action, Some(Action::PollAgain { pause_ms: 100 }));
    assert_eq!(coordinator.phase(), Phase::AwaitingAck);
}

#[test]
fn poll_at_the_timeout_ends_the_wait() {
    let mut coordinator = waiting_coordinator();
    let action = coordinator.step_with(Event::Polled { acknowledged: false, elapsed_ms: 8000 }, 19);
    assert_eq!(
        action,
        Some(Action::Sleep { seconds: 19, after: WaitOutcome::TimedOut })
    );
    assert_eq!(coordinator.phase(), Phase::Sleeping);
}

#[test]
fn poll_long_after_the_timeout_ends_the_wait() {
    let mut coordinator = waiting_coordinator();
    let action =
        coordinator.step_with(Event::Polled { acknowledged: false, elapsed_ms: u64::MAX }, 10);
    assert_eq!(
        action,
        Some(Action::Sleep { seconds: 10, after: WaitOutcome::TimedOut })
    );
    assert_eq!(coordinator.phase(), Phase::Sleeping);
}

#[test]
fn acknowledgment_ends_the_wait() {
    let mut coordinator = waiting_coordinator();
    let action = coordinator.step_with(Event::Polled { acknowledged: true, elapsed_ms: 0 }, 11);
    assert_eq!(
        action,
        Some(Action::Sleep { seconds: 11, after: WaitOutcome::Acknowledged })
    );
    assert_eq!(coordinator.phase(), Phase::Sleeping);
}

#[test]
fn acknowledgment_seen_after_the_timeout_still_counts() {
    let mut coordinator = waiting_coordinator();
    let action = coordinator.step_with(Event::Polled { acknowledged: true, elapsed_ms: 9000 }, 15);
    assert_eq!(
        action,
        Some(Action::Sleep { seconds: 15, after: WaitOutcome::Acknowledged })
    );
}

#[test]
fn drawn_sleep_after_a_wait_is_within_bounds() {
    let mut coordinator = waiting_coordinator();
    match coordinator.step(Event::Polled { acknowledged: false, elapsed_ms: 8100 }) {
        Some(Action::Sleep { seconds, after }) => {
            assert!(10 <= seconds && seconds <= 19);
            assert_eq!(after, WaitOutcome::TimedOut);
        }
        other => panic!("expected a sleep, got {:?}", other),
    }
}

#[test]
fn events_out_of_turn_are_refused() {
    let polled = Event::Polled { acknowledged: true, elapsed_ms: 0 };

    let mut coordinator = Coordinator::new();
    assert_eq!(coordinator.step(Event::SleepElapsed), None);
    assert_eq!(coordinator.step(Event::AmbushIssued), None);
    assert_eq!(coordinator.step(polled), None);
    assert_eq!(coordinator.phase(), Phase::Initial);

    coordinator.step(Event::Launched);
    assert_eq!(coordinator.step(Event::Launched), None);
    assert_eq!(coordinator.step(Event::AmbushIssued), None);
    assert_eq!(coordinator.step(polled), None);
    assert_eq!(coordinator.phase(), Phase::Sleeping);

    coordinator.step(Event::SleepElapsed);
    assert_eq!(coordinator.step(Event::Launched), None);
    assert_eq!(coordinator.step(Event::SleepElapsed), None);
    assert_eq!(coordinator.step(polled), None);
    assert_eq!(coordinator.phase(), Phase::Triggering);

    coordinator.step(Event::AmbushIssued);
    assert_eq!(coordinator.step(Event::Launched), None);
    assert_eq!(coordinator.step(Event::SleepElapsed), None);
    assert_eq!(coordinator.step(Event::AmbushIssued), None);
    assert_eq!(coordinator.step_with(Event::Launched, 12), None);
    assert_eq!(coordinator.phase(), Phase::AwaitingAck);
}

#[test]
fn drawn_sleeps_stay_within_bounds() {
    let mut seen = [false; 20];
    let mut draws: u32 = 0;
    while draws < 10_000 {
        let seconds: u64 = draw_sleep_seconds();
        assert!(seconds >= 10, "drew {}", seconds);
        assert!(seconds <= 19, "drew {}", seconds);
        seen[seconds as usize] = true;
        draws += 1;
    }
    // With ten thousand draws over ten values, every value has come up.
    let mut value: usize = 10;
    while value <= 19 {
        assert!(seen[value], "{} never drawn", value);
        value += 1;
    }
}

#[test]
fn sleeps_of_consecutive_cycles_stay_within_bounds() {
    let mut coordinator = Coordinator::new();
    let mut action = coordinator.step(Event::Launched);
    let mut distinct = [false; 20];
    let mut cycles: u32 = 0;
    while cycles < 500 {
        match action {
            Some(Action::Sleep { seconds, .. }) => {
                assert!(10 <= seconds && seconds <= 19);
                distinct[seconds as usize] = true;
            }
            other => panic!("expected a sleep, got {:?}", other),
        }
        assert_eq!(coordinator.step(Event::SleepElapsed), Some(Action::Ambush));
        assert_eq!(coordinator.step(Event::AmbushIssued), Some(Action::BeginWait));
        action = coordinator.step(Event::Polled { acknowledged: true, elapsed_ms: 0 });
        cycles += 1;
    }
    let different: usize = distinct.iter().filter(|seen| **seen).count();
    assert!(different > 1);
}
