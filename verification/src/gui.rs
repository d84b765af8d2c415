//! The dashboard's pure state: which tab is active, the actions a window
//! hands back to the shell, and the editable copy of the configuration
//! that the settings form works on.  Rendering lives in the shell; the
//! translation between the configuration and its editable form is logic
//! and is verified here.

use vstd::prelude::*;
use crate::config::Config;
use crate::models::ExerciseType;

verus! {

/// The active dashboard tab.
#[derive(Clone, Copy, Debug, PartialEq, Eq, Structural)]
pub enum ActiveTab {
    Dashboard,
    Exercises,
    Badges,
    History,
    Settings,
}

impl Default for ActiveTab {
    /// The dashboard is the opening tab.
    fn default() -> (r: ActiveTab)
        ensures
            r == ActiveTab::Dashboard,
    {
        ActiveTab::Dashboard
    }
}

/// An action triggered from the dashboard, to be handled by the shell.
#[derive(Clone, Copy, Debug, PartialEq, Eq, Structural)]
pub enum GuiAction {
    LogExercise(ExerciseType),
    ToggleReminders,
    SaveSettings,
    CloseWindow,
}

/// The editable subset of the configuration shown in the settings form.
#[derive(Clone, Copy, Debug)]
pub struct EditableConfig {
    pub reminders_enabled: bool,
    pub min_interval: u32,
    pub max_interval: u32,
    pub use_random: bool,
    pub work_start: u32,
    pub work_end: u32,
    /// One flag per day, Sunday through Saturday.
    pub active_days: [bool; 7],
    /// One flag per exercise kind, in display order.
    pub enabled_exercises: [bool; 5],
    pub notifications_enabled: bool,
}

/// The exercise kind at a position of the display order.
pub open spec fn spec_type_at(i: int) -> ExerciseType {
    if i == 0 {
        ExerciseType::PushUps
    } else if i == 1 {
        ExerciseType::Squats
    } else if i == 2 {
        ExerciseType::Planks
    } else if i == 3 {
        ExerciseType::JumpingJacks
    } else {
        ExerciseType::Stretches
    }
}

fn type_at(i: usize) -> (r: ExerciseType)
    requires
        i < 5,
    ensures
        r == spec_type_at(i as int),
{
    if i == 0 {
        ExerciseType::PushUps
    } else if i == 1 {
        ExerciseType::Squats
    } else if i == 2 {
        ExerciseType::Planks
    } else if i == 3 {
        ExerciseType::JumpingJacks
    } else {
        ExerciseType::Stretches
    }
}

/// The day numbers whose flags are set, in order, from position `i` on.
pub open spec fn spec_selected_days(flags: [bool; 7], i: int) -> Seq<u32>
    decreases 7 - i,
{
    if i < 0 || i >= 7 {
        Seq::empty()
    } else {
        (if flags@[i] {
            seq![i as u32]
        } else {
            Seq::empty()
        }) + spec_selected_days(flags, i + 1)
    }
}

/// The exercise kinds whose flags are set, in display order, from
/// position `i` on.
pub open spec fn spec_selected_types(flags: [bool; 5], i: int) -> Seq<ExerciseType>
    decreases 5 - i,
{
    if i < 0 || i >= 5 {
        Seq::empty()
    } else {
        (if flags@[i] {
            seq![spec_type_at(i)]
        } else {
            Seq::empty()
        }) + spec_selected_types(flags, i + 1)
    }
}

impl EditableConfig {
    /// The editable form of a configuration: scalars copied, the day and
    /// exercise lists turned into flags.
    pub fn from_config(config: &Config) -> (r: EditableConfig)
        ensures
            r.reminders_enabled == config.reminders.enabled,
            r.min_interval == config.reminders.min_interval_minutes,
            r.max_interval == config.reminders.max_interval_minutes,
            r.use_random == config.reminders.use_random_intervals,
            r.work_start == config.reminders.work_start_hour,
            r.work_end == config.reminders.work_end_hour,
            forall|i: int|
                0 <= i < 7 ==> r.active_days@[i] == config.reminders.active_days@.contains(
                    i as u32,
                ),
            forall|i: int|
                0 <= i < 5 ==> r.enabled_exercises@[i]
                    == config.exercises.enabled_exercises@.contains(spec_type_at(i)),
            r.notifications_enabled == config.notifications.enabled,
    {
        let d0 = day_active(config, 0);
        let d1 = day_active(config, 1);
        let d2 = day_active(config, 2);
        let d3 = day_active(config, 3);
        let d4 = day_active(config, 4);
        let d5 = day_active(config, 5);
        let d6 = day_active(config, 6);
        let e0 = config.is_exercise_enabled(&ExerciseType::PushUps);
        let e1 = config.is_exercise_enabled(&ExerciseType::Squats);
        let e2 = config.is_exercise_enabled(&ExerciseType::Planks);
        let e3 = config.is_exercise_enabled(&ExerciseType::JumpingJacks);
        let e4 = config.is_exercise_enabled(&ExerciseType::Stretches);
        EditableConfig {
            reminders_enabled: config.reminders.enabled,
            min_interval: config.reminders.min_interval_minutes,
            max_interval: config.reminders.max_interval_minutes,
            use_random: config.reminders.use_random_intervals,
            work_start: config.reminders.work_start_hour,
            work_end: config.reminders.work_end_hour,
            active_days: [d0, d1, d2, d3, d4, d5, d6],
            enabled_exercises: [e0, e1, e2, e3, e4],
            notifications_enabled: config.notifications.enabled,
        }
    }

    /// Writes the edited values back into a configuration: scalars
    /// copied, the flags turned back into day and exercise lists in
    /// order.
    pub fn apply_to(&self, config: &mut Config)
        ensures
            final(config).reminders.enabled == self.reminders_enabled,
            final(config).reminders.min_interval_minutes == self.min_interval,
            final(config).reminders.max_interval_minutes == self.max_interval,
            final(config).reminders.use_random_intervals == self.use_random,
            final(config).reminders.work_start_hour == self.work_start,
            final(config).reminders.work_end_hour == self.work_end,
            final(config).reminders.active_days@ == spec_selected_days(self.active_days, 0),
            final(config).exercises.enabled_exercises@ == spec_selected_types(
                self.enabled_exercises,
                0,
            ),
            final(config).notifications.enabled == self.notifications_enabled,
            final(config).general == old(config).general,
            final(config).exercises.custom_reps == old(config).exercises.custom_reps,
            final(config).exercises.daily_goals == old(config).exercises.daily_goals,
            final(config).notifications.play_sound == old(config).notifications.play_sound,
            final(config).notifications.timeout_seconds == old(
                config,
            ).notifications.timeout_seconds,
    {
        config.reminders.enabled = self.reminders_enabled;
        config.reminders.min_interval_minutes = self.min_interval;
        config.reminders.max_interval_minutes = self.max_interval;
        config.reminders.use_random_intervals = self.use_random;
        config.reminders.work_start_hour = self.work_start;
        config.reminders.work_end_hour = self.work_end;

        let mut days: Vec<u32> = Vec::new();
        let mut i: usize = 0;
        while i < 7
            invariant
                i <= 7,
                spec_selected_days(self.active_days, 0) == days@ + spec_selected_days(
                    self.active_days,
                    i as int,
                ),
            decreases 7 - i,
        {
            let ghost before = days@;
            let ghost contribution: Seq<u32> = if self.active_days@[i as int] {
                seq![i as u32]
            } else {
                Seq::empty()
            };
            if self.active_days[i] {
                days.push(i as u32);
            }
            i = i + 1;
            proof {
                assert(days@ =~= before + contribution);
                assert(before + (contribution + spec_selected_days(self.active_days, i as int))
                    =~= (before + contribution) + spec_selected_days(self.active_days, i as int));
            }
        }
        proof {
            assert(spec_selected_days(self.active_days, 7) =~= Seq::<u32>::empty());
            assert(days@ =~= days@ + spec_selected_days(self.active_days, 7));
        }
        config.reminders.active_days = days;

        let mut types: Vec<ExerciseType> = Vec::new();
        let mut i: usize = 0;
        while i < 5
            invariant
                i <= 5,
                spec_selected_types(self.enabled_exercises, 0) == types@ + spec_selected_types(
                    self.enabled_exercises,
                    i as int,
                ),
            decreases 5 - i,
        {
            let ghost before = types@;
            let ghost contribution: Seq<ExerciseType> = if self.enabled_exercises@[i as int] {
                seq![spec_type_at(i as int)]
            } else {
                Seq::empty()
            };
            if self.enabled_exercises[i] {
                types.push(type_at(i));
            }
            i = i + 1;
            proof {
                assert(types@ =~= before + contribution);
                assert(before + (contribution + spec_selected_types(
                    self.enabled_exercises,
                    i as int,
                )) =~= (before + contribution) + spec_selected_types(
                    self.enabled_exercises,
                    i as int,
                ));
            }
        }
        proof {
            assert(spec_selected_types(self.enabled_exercises, 5) =~= Seq::<ExerciseType>::empty());
            assert(types@ =~= types@ + spec_selected_types(self.enabled_exercises, 5));
        }
        config.exercises.enabled_exercises = types;

        config.notifications.enabled = self.notifications_enabled;
    }
}

fn day_active(config: &Config, day: u32) -> (b: bool)
    ensures
        b == config.reminders.active_days@.contains(day),
{
    let n = config.reminders.active_days.len();
    let mut i: usize = 0;
    while i < n
        invariant
            i <= n,
            n == config.reminders.active_days@.len(),
            forall|j: int| 0 <= j < i ==> config.reminders.active_days@[j] != day,
        decreases n - i,
    {
        if config.reminders.active_days[i] == day {
            return true;
        }
        i = i + 1;
    }
    false
}

} // verus!
