//! The acknowledgment store: one latched flag, set by the foreground and
//! consumed by the coordinator.

use vstd::prelude::*;

verus! {

/// A single-slot acknowledgment flag.
///
/// The flag is raised by [`AckState::set_done`] and lowered only by
/// [`AckState::check_and_clear`], which reports whether it was raised. It is
/// neither a queue nor a counter: any number of signals between two checks
/// count as one.
#[derive(Debug)]
pub struct AckState {
    cleanup_done: bool,
}

impl View for AckState {
    type V = bool;

    /// Whether an acknowledgment is latched.
    closed spec fn view(&self) -> bool {
        self.cleanup_done
    }
}

impl AckState {
    /// A store with no acknowledgment latched.
    pub fn new() -> (store: Self)
        ensures
            !store@,
    {
        AckState { cleanup_done: false }
    }

    /// Latches an acknowledgment. Doing so again before the next check
    /// changes nothing.
    pub fn set_done(&mut self)
        ensures
            final(self)@ == signalled(old(self)@),
    {
        self.cleanup_done = true;
    }

    /// Reports whether an acknowledgment was latched, and lowers the flag.
    pub fn check_and_clear(&mut self) -> (acknowledged: bool)
        ensures
            acknowledged == consumed(old(self)@).1,
            final(self)@ == consumed(old(self)@).0,
    {
        let acknowledged = self.cleanup_done;
        self.cleanup_done = false;
        acknowledged
    }
}

impl Default for AckState {
    fn default() -> (store: Self)
        ensures
            !store@,
    {
        AckState::new()
    }
}

/// The flag after a signal: raised, whatever it was.
pub open spec fn signalled(flag: bool) -> bool {
    true
}

/// The flag after a check, and what the check reports: the flag is lowered,
/// and the report is the flag as it was.
pub open spec fn consumed(flag: bool) -> (bool, bool) {
    (false, flag)
}

/// The flag after `count` signals in a row.
pub open spec fn signalled_times(flag: bool, count: nat) -> bool
    decreases count,
{
    if count == 0 {
        flag
    } else {
        signalled(signalled_times(flag, (count - 1) as nat))
    }
}

/// How many of `count` checks in a row report an acknowledgment.
pub open spec fn acknowledgments_reported(flag: bool, count: nat) -> nat
    decreases count,
{
    if count == 0 {
        0
    } else {
        let (left, report) = consumed(flag);
        (if report { 1nat } else { 0nat }) + acknowledgments_reported(left, (count - 1) as nat)
    }
}

/// A check right after a signal reports the acknowledgment and leaves the
/// flag lowered; a second check right after it reports none.
pub proof fn law_signal_is_consumed_once(flag: bool)
    ensures
        consumed(signalled(flag)) == (false, true),
        consumed(consumed(signalled(flag)).0) == (false, false),
{
}

/// Signalling is idempotent: one signal or many, the flag is the same.
pub proof fn law_signal_is_idempotent(flag: bool, count: nat)
    requires
        count >= 1,
    ensures
        signalled_times(flag, count) == signalled(flag),
        signalled(signalled(flag)) == signalled(flag),
{
}

/// However many signals arrive before the next check, in whatever order the
/// lock lets them through, that check reports one acknowledgment, and no
/// later check reports it again.
pub proof fn law_many_signals_one_acknowledgment(flag: bool, signals: nat, checks: nat)
    requires
        signals >= 1,
        checks >= 1,
    ensures
        acknowledgments_reported(signalled_times(flag, signals), checks) == 1,
{
    law_signal_is_idempotent(flag, signals);
    lemma_lowered_flag_reports_nothing((checks - 1) as nat);
}

/// No number of checks finds an acknowledgment in a lowered flag.
proof fn lemma_lowered_flag_reports_nothing(checks: nat)
    ensures
        acknowledgments_reported(false, checks) == 0,
    decreases checks,
{
    if checks > 0 {
        lemma_lowered_flag_reports_nothing((checks - 1) as nat);
    }
}

} // verus!
