//! The coordinator's time constants, and the random choice of how long to
//! sleep between two ambushes.

use rand::Rng;
use vstd::prelude::*;

verus! {

/// How long the coordinator pauses between two looks at the acknowledgment
/// flag, in milliseconds.
pub const POLL_INTERVAL_MS: u64 = 100;

/// How long the coordinator waits for an acknowledgment before it goes on
/// without one, in milliseconds.
pub const ACK_TIMEOUT_MS: u64 = 8000;

/// The shortest sleep between two ambushes, in seconds.
pub const SLEEP_MIN_SECS: u64 = 10;

/// The longest sleep between two ambushes, in seconds.
pub const SLEEP_MAX_SECS: u64 = 19;

/// Whether `seconds` is a sleep that the coordinator may ask for.
pub open spec fn valid_sleep(seconds: u64) -> bool {
    SLEEP_MIN_SECS <= seconds <= SLEEP_MAX_SECS
}

/// Draws an integer from the half-open range `low..high` by
/// `rand::Rng::gen_range` on the generator of `rand::thread_rng`.
///
/// Trusted: the result lies in the range. For a non-empty range of `u64`
/// the sampler returns `low` plus an offset below `high - low`. An empty
/// range makes `gen_range` panic, so it is not admitted. Nothing is claimed
/// about which value of the range comes back.
#[verifier::external_body]
fn random_in_range(low: u64, high: u64) -> (drawn: u64)
    requires
        low < high,
    ensures
        low <= drawn < high,
{
    rand::thread_rng().gen_range(low..high)
}

/// Chooses at random how many seconds to sleep before the next ambush.
///
/// Every whole number of seconds from [`SLEEP_MIN_SECS`] to
/// [`SLEEP_MAX_SECS`] can come back, and nothing else.
pub fn draw_sleep_seconds() -> (seconds: u64)
    ensures
        valid_sleep(seconds),
{
    random_in_range(SLEEP_MIN_SECS, SLEEP_MAX_SECS + 1)
}

} // verus!
