//! Fixed settings of the tracker.

use vstd::prelude::*;

verus! {

/// Seconds of inactivity after which the user counts as idle.
pub const IDLE_THRESHOLD_SECONDS: u64 = 3;

/// Seconds between two samples of the idle monitor.
pub const IDLE_MONITOR_INTERVAL_SECONDS: u64 = 10;

/// Most activity logs kept in memory.
pub const MAX_ACTIVITY_LOGS: usize = 100;

} // verus!
