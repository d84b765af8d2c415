//! Pure decisions of the reminder scheduler: the message type it hands to
//! the shell, the wait until the next working window, and duration
//! formatting.  The polling thread itself is the shell's concern; it only
//! calls in here to decide when and what to remind.

use vstd::prelude::*;
use crate::config::Config;
use crate::models::ExerciseType;
use crate::text::{spec_digits, u64_to_string};

verus! {

/// A message from the scheduler to the shell's event loop.
#[derive(Clone, Debug)]
pub enum SchedulerMessage {
    /// Time to suggest an exercise.
    ExerciseReminder { exercise: ExerciseType, reps: u32 },
    /// The scheduler started.
    Started,
    /// The scheduler stopped.
    Stopped,
    /// Something went wrong.
    Error(String),
}

/// How long until work hours next begin, in seconds: the gap until
/// today's start when it is still ahead, the gap across midnight when
/// the day's window is over, and nothing while inside the window.
pub fn time_until_work_hours(config: &Config, current_hour: u32) -> (r: Option<u64>)
    requires
        current_hour < 24,
        config.reminders.work_start_hour <= 24,
    ensures
        current_hour < config.reminders.work_start_hour ==> r == Some(
            ((config.reminders.work_start_hour - current_hour) * 3600) as u64,
        ),
        current_hour >= config.reminders.work_start_hour && current_hour
            >= config.reminders.work_end_hour ==> r == Some(
            ((24 - current_hour + config.reminders.work_start_hour) * 3600) as u64,
        ),
        config.reminders.work_start_hour <= current_hour < config.reminders.work_end_hour ==> r
            is None,
{
    if current_hour < config.reminders.work_start_hour {
        let hours_until = config.reminders.work_start_hour - current_hour;
        return Some((hours_until as u64) * 3600);
    }
    if current_hour >= config.reminders.work_end_hour {
        let hours_until_midnight = 24 - current_hour;
        let total_hours = hours_until_midnight + config.reminders.work_start_hour;
        return Some((total_hours as u64) * 3600);
    }
    None
}

/// The rendering of a duration of `secs` seconds: hours and minutes when
/// an hour or more, minutes alone below that.
pub open spec fn spec_format_duration(secs: int) -> Seq<char> {
    let hours = secs / 3600;
    let minutes = (secs % 3600) / 60;
    if hours > 0 {
        spec_digits(hours) + "h "@ + spec_digits(minutes) + "m"@
    } else {
        spec_digits(minutes) + "m"@
    }
}

/// Formats a duration of `secs` seconds as `Hh Mm` or `Mm`.
pub fn format_duration(secs: u64) -> (r: String)
    ensures
        r@ == spec_format_duration(secs as int),
{
    let hours = secs / 3600;
    let minutes = (secs % 3600) / 60;
    if hours > 0 {
        let mut s = u64_to_string(hours);
        s.append("h ");
        let m = u64_to_string(minutes);
        s.append(m.as_str());
        s.append("m");
        proof {
            assert(s@ =~= spec_format_duration(secs as int));
        }
        s
    } else {
        let mut s = u64_to_string(minutes);
        s.append("m");
        proof {
            assert(s@ =~= spec_format_duration(secs as int));
        }
        s
    }
}

} // verus!
