use vstd::prelude::*;

verus! {

/// Delay between two simulated keystrokes when the user has not chosen one.
pub const TYPING_DELAY_DEFAULT_MS: u64 = 15;

/// Length of the countdown before typing starts, when the user has not
/// chosen one.
pub const COUNTDOWN_DEFAULT_SECS: u8 = 3;

/// Smallest keystroke delay the settings accept.
pub const TYPING_DELAY_MIN_MS: u64 = 1;

/// Largest keystroke delay the settings accept.
pub const TYPING_DELAY_MAX_MS: u64 = 500;

/// Shortest countdown the settings accept.
pub const COUNTDOWN_MIN_SECS: u8 = 1;

/// Longest countdown the settings accept.
pub const COUNTDOWN_MAX_SECS: u8 = 30;

/// Nanoseconds in one second: timestamps handed to the controller count
/// nanoseconds on a monotonic clock.
pub const NANOS_PER_SEC: u64 = 1_000_000_000;

/// How long the "done" state stays on screen before returning to idle.
pub const DONE_LINGER_NANOS: u64 = 2_000_000_000;

/// How often the user interface redraws while a run is in progress.
pub const TICK_INTERVAL_MS: u64 = 33;

} // verus!
