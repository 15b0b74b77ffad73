//! Verified core of an HTTP host that runs each inbound request in a
//! fresh, resource-bounded sandbox.
//!
//! The crate covers the request-to-sandbox lifecycle: startup-flag
//! validation and engine planning, the one-shot allocator viability
//! probe, request-target normalization, process-wide request-id
//! allocation, per-request sandbox construction, epoch-based cooperative
//! deadline budgeting, captured-output line prefixing, and resolution of
//! the one-shot response handoff. The sockets, the task scheduler, and
//! the component engine itself sit outside this crate and consume these
//! pieces through plain values.
use vstd::prelude::*;

pub mod config;
pub mod decimal;
pub mod dispatch;
pub mod epoch;
pub mod ids;
pub mod logstream;
pub mod sandbox;
pub mod uri;

verus! {

/// Number of epoch subdivisions per configured deadline; bounds the
/// worst-case overshoot of a deadline to one subdivision.
pub const EPOCH_PRECISION: u64 = 10;

/// Interval the epoch ticker sleeps between increments of the global
/// epoch, so that `EPOCH_PRECISION` ticks span one configured deadline.
pub fn ticker_interval(timeout: u64) -> (i: u64)
    ensures
        i == timeout / EPOCH_PRECISION,
{
    timeout / EPOCH_PRECISION
}

} // verus!
