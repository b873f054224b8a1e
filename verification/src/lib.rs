//! The core of a background coordinator that periodically forces a foreground
//! surface into view (an "ambush") and then waits, for a bounded time, until
//! the foreground confirms that it has finished cleaning up.
//!
//! The crate holds the decisions only. A driver owns the thread, the clock,
//! the lock around the acknowledgment flag and the surface itself; it reports
//! what happened as an [`coordinator::Event`] and carries out the
//! [`coordinator::Action`] it gets back.

pub mod ack;
pub mod timing;
pub mod coordinator;
pub mod run;
pub mod surface;
