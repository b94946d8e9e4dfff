//! The parts of the app's settings that the verified logic reads: which
//! metric each button shows, and the refresh interval with its floor.

use vstd::prelude::*;

verus! {

/// What a button shows.
#[derive(Debug, Clone, Copy, PartialEq, Eq, Structural)]
pub enum Metric {
    /// The rolling 5-hour session limit.
    Session,
    /// The 7-day limit.
    Weekly,
    /// The self-imposed daily soft budget.
    Budget,
    /// Nothing: the button is left to other software.
    Unassigned,
}

/// The metric assigned to one button.
#[derive(Debug, Clone, Copy, PartialEq, Eq, Structural)]
pub struct ButtonAssignment {
    pub metric: Metric,
}

impl Default for ButtonAssignment {
    /// A button with nothing assigned.
    fn default() -> (assignment: Self)
        ensures
            assignment.metric == Metric::Unassigned,
    {
        ButtonAssignment { metric: Metric::Unassigned }
    }
}

/// Floor for the refresh interval: the usage endpoint rate-limits well
/// before this.
pub const MIN_REFRESH_INTERVAL_SECS: u64 = 120;

/// Refresh interval of a fresh install.
pub const DEFAULT_REFRESH_INTERVAL_SECS: u64 = 300;

/// Default of the launch-at-login setting.
pub fn default_true() -> (value: bool)
    ensures
        value,
{
    true
}

/// No buttons are assigned by default: the user picks explicitly which
/// buttons this app should own.
pub fn default_buttons() -> (buttons: Vec<ButtonAssignment>)
    ensures
        buttons@ == Seq::<ButtonAssignment>::empty(),
{
    Vec::new()
}

/// The interval used for a requested refresh interval: the request itself,
/// raised to `MIN_REFRESH_INTERVAL_SECS` when it is below that.
pub open spec fn floored_interval(secs: u64) -> u64 {
    if secs < MIN_REFRESH_INTERVAL_SECS {
        MIN_REFRESH_INTERVAL_SECS
    } else {
        secs
    }
}

/// The interval actually used for a requested refresh interval. Applied to a
/// saved interval on load (so a too-low value saved by an older version heals
/// itself) and to a newly set one.
pub fn effective_refresh_interval(secs: u64) -> (interval: u64)
    ensures
        interval == floored_interval(secs),
{
    if secs < MIN_REFRESH_INTERVAL_SECS {
        MIN_REFRESH_INTERVAL_SECS
    } else {
        secs
    }
}

/// The interval in use is never below the floor, an interval at or above
/// the floor is kept as it is, and healing an interval twice gives what
/// healing it once gives.
pub proof fn lemma_refresh_interval_floor(secs: u64)
    ensures
        floored_interval(secs) >= MIN_REFRESH_INTERVAL_SECS,
        secs >= MIN_REFRESH_INTERVAL_SECS ==> floored_interval(secs) == secs,
        floored_interval(floored_interval(secs)) == floored_interval(secs),
{
}

} // verus!
