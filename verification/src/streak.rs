//! The daily streak state machine.  One transition runs per logged
//! exercise, driven by the calendar date captured when the transaction
//! starts: the first log ever starts a streak of 1, a second log on the
//! same date changes nothing, a log on the following date extends the
//! streak, and anything else (a gap of two or more days, or a clock
//! anomaly placing the last date in the future) resets it to 1.

use vstd::prelude::*;
use crate::date::Date;

verus! {

/// The singleton streak record: the running count of consecutive active
/// days, the best count ever reached, and the last date with a log.
#[derive(Clone, Copy, Debug, PartialEq, Eq, Structural)]
pub struct StreakState {
    pub current_streak: i32,
    pub longest_streak: i32,
    pub last_exercise_date: Option<Date>,
}

impl StreakState {
    /// The state before any exercise was ever logged.
    pub open spec fn spec_initial() -> StreakState {
        StreakState { current_streak: 0, longest_streak: 0, last_exercise_date: None }
    }

    /// Well-formedness: counts are consistent and bounded by the calendar.
    /// A streak of `k` days needs `k` distinct consecutive dates ending at
    /// the last active one, so it can never exceed that date's day number
    /// plus one.
    pub open spec fn wf(self) -> bool {
        &&& 0 <= self.current_streak <= self.longest_streak
        &&& match self.last_exercise_date {
            None => self.current_streak == 0,
            Some(last) => last.wf() && 1 <= self.current_streak && self.current_streak
                <= last.spec_day_number() + 1,
        }
    }

    /// The state before any exercise was ever logged.
    pub fn initial() -> (r: StreakState)
        ensures
            r == StreakState::spec_initial(),
    {
        StreakState { current_streak: 0, longest_streak: 0, last_exercise_date: None }
    }
}

/// The streak transition for one logged exercise on `today`: unchanged on
/// a repeated date, extended by one when `today` directly follows the last
/// active date, reset to 1 otherwise (first log ever, a gap of two or more
/// days, or a last date in the future); the longest streak then absorbs
/// the new count and the last active date becomes `today`.
pub open spec fn spec_streak_update(s: StreakState, today: Date) -> StreakState {
    let next = match s.last_exercise_date {
        None => 1,
        Some(last) => {
            if last == today {
                s.current_streak as int
            } else if today.spec_day_number() == last.spec_day_number() + 1 {
                s.current_streak + 1
            } else {
                1
            }
        },
    };
    let longest = if next > s.longest_streak {
        next
    } else {
        s.longest_streak as int
    };
    StreakState {
        current_streak: next as i32,
        longest_streak: longest as i32,
        last_exercise_date: Some(today),
    }
}

/// Runs the streak transition for one log on `today`.
pub fn streak_update(s: &StreakState, today: Date) -> (r: StreakState)
    requires
        s.wf(),
        today.wf(),
    ensures
        r == spec_streak_update(*s, today),
        r.wf(),
{
    let next: i32 = match s.last_exercise_date {
        None => 1,
        Some(last) => {
            if last == today {
                s.current_streak
            } else if today.day_number() == last.day_number() + 1 {
                s.current_streak + 1
            } else {
                1
            }
        },
    };
    let longest: i32 = if next > s.longest_streak {
        next
    } else {
        s.longest_streak
    };
    StreakState { current_streak: next, longest_streak: longest, last_exercise_date: Some(today) }
}

/// Logging twice on one calendar date leaves the streak record exactly
/// where the first log put it: the second transition is a no-op in full,
/// so in particular `current_streak` is unchanged.
pub proof fn lemma_streak_same_day_idempotent(s: StreakState, today: Date)
    requires
        s.wf(),
        today.wf(),
    ensures
        spec_streak_update(spec_streak_update(s, today), today) == spec_streak_update(s, today),
{
}

/// A gap of two or more days resets the streak to 1 whatever it was, and
/// the reset never lowers the longest streak.
pub proof fn lemma_streak_gap_resets(s: StreakState, today: Date)
    requires
        s.wf(),
        today.wf(),
        s.last_exercise_date matches Some(last) && today.spec_day_number() >= last.spec_day_number()
            + 2,
    ensures
        spec_streak_update(s, today).current_streak == 1,
        spec_streak_update(s, today).longest_streak >= s.longest_streak,
{
    let last = s.last_exercise_date->Some_0;
    assert(last != today);
}

} // verus!
