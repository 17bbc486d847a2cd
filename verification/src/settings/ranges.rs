//! The accepted range of each numeric setting, as (lowest, highest).

use vstd::prelude::*;

verus! {

/// Reminder interval, minutes.
pub const INTERVAL: (i64, i64) = (10, 180);

/// Break duration, minutes.
pub const BREAK_DURATION: (i64, i64) = (1, 30);

/// Snooze (delay-break) length, minutes.
pub const SNOOZE: (i64, i64) = (1, 15);

/// Away threshold for usage-based timing, minutes.
pub const IDLE_THRESHOLD: (i64, i64) = (1, 10);

/// Auto-start countdown, seconds; 0 starts the break as soon as the reminder shows.
pub const AUTO_START_DELAY: (i64, i64) = (0, 300);

} // verus!
