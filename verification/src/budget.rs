//! The day bookkeeping of the self-imposed daily soft budget: the weekly
//! percentage at the start of the local day is remembered per day, and a new
//! day starts from the weekly percentage seen first that day.

use vstd::prelude::*;

verus! {

/// The weekly percentage (`P`) seen first on local day `day` (`YYYY-MM-DD`).
#[derive(Debug, Clone)]
pub struct BudgetState<P> {
    pub day: String,
    pub weekly_percent_at_day_start: P,
}

/// The day state to measure today's usage against, and whether it is new
/// and has to be saved: the stored one when it belongs to today, else a
/// fresh one for today starting at the current weekly percentage.
pub open spec fn next_day_state<P>(
    stored: Option<BudgetState<P>>,
    today: Seq<char>,
    weekly_percent: P,
) -> (Seq<char>, P, bool) {
    match stored {
        Some(s) => if s.day@ == today {
            (s.day@, s.weekly_percent_at_day_start, false)
        } else {
            (today, weekly_percent, true)
        },
        None => (today, weekly_percent, true),
    }
}

/// The day state to measure today's usage against (see `next_day_state`).
/// A stored state of today is handed back unchanged.
pub fn day_state<P>(stored: Option<BudgetState<P>>, today: String, weekly_percent: P) -> (state: (
    BudgetState<P>,
    bool,
))
    ensures
        (state.0.day@, state.0.weekly_percent_at_day_start, state.1) == next_day_state(
            stored,
            today@,
            weekly_percent,
        ),
        stored matches Some(s) ==> (s.day@ == today@ ==> state.0 == s),
{
    match stored {
        Some(s) => {
            if s.day == today {
                (s, false)
            } else {
                (BudgetState { day: today, weekly_percent_at_day_start: weekly_percent }, true)
            }
        },
        None => (BudgetState { day: today, weekly_percent_at_day_start: weekly_percent }, true),
    }
}

/// Within one day the start-of-day percentage is fixed by the first reading
/// of that day: once that state is stored, every later reading the same day
/// measures against it and saves nothing.
pub proof fn lemma_day_start_fixed<P>(
    stored: Option<BudgetState<P>>,
    today: Seq<char>,
    first: P,
    later: P,
    saved: BudgetState<P>,
)
    requires
        (saved.day@, saved.weekly_percent_at_day_start) == (
            next_day_state(stored, today, first).0,
            next_day_state(stored, today, first).1,
        ),
    ensures
        next_day_state(Some(saved), today, later) == (
            next_day_state(stored, today, first).0,
            next_day_state(stored, today, first).1,
            false,
        ),
{
}

} // verus!
