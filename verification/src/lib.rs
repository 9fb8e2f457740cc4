//! Hierarchy resolution and identity mapping between a hierarchical
//! task-management service and a flat time-tracking service.
//!
//! The library holds the relay's logic: the expiring per-namespace caches,
//! the hierarchy walker's step decisions, title normalization, the
//! positional mapping of ancestor titles onto client / project / task /
//! description, the entity- and tag-resolution scans, the stop-tracking
//! decision and the leisure-balance accounting.  The application shell
//! around it performs the network calls and feeds their results back in as
//! plain values.

pub mod cache;
pub mod hierarchy;
pub mod messages;
pub mod models;
pub mod normalize;
pub mod remote;
pub mod resolve;
pub mod session;
pub mod webhook;

use vstd::prelude::*;

verus! {

/// Default duration stamped on a newly started time entry: a negative
/// duration marks the entry as currently running.
pub fn default_negative_duration() -> (d: i64)
    ensures
        d == -1,
{
    -1
}

} // verus!
