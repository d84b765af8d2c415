//! Configuration of the desk tracker: general behaviour, reminder
//! scheduling, per-exercise preferences and notification settings, with
//! the pure decision helpers that the reminder scheduler and the front
//! ends call.  Reading and writing the configuration file is the shell's
//! concern; this module owns the values and the rules over them.

use vstd::prelude::*;
use crate::models::ExerciseType;
use crate::date::Timestamp;
use crate::random::{choose_random, random_in_range};
use crate::text::{spec_digits, spec_two_digits, two_digit_string, u64_to_string};

verus! {

/// General application settings.
#[derive(Debug)]
pub struct GeneralConfig {
    pub start_minimized: bool,
    pub launch_on_startup: bool,
    pub log_level: String,
}

/// Reminder scheduling settings.
#[derive(Debug)]
pub struct ReminderConfig {
    pub min_interval_minutes: u32,
    pub max_interval_minutes: u32,
    pub use_random_intervals: bool,
    pub work_start_hour: u32,
    pub work_end_hour: u32,
    /// Days of the week with reminders, 0 = Sunday through 6 = Saturday.
    pub active_days: Vec<u32>,
    pub enabled: bool,
}

/// Per-exercise settings.
#[derive(Debug)]
pub struct ExerciseConfig {
    pub enabled_exercises: Vec<ExerciseType>,
    pub custom_reps: Vec<(ExerciseType, u32)>,
    pub daily_goals: Vec<(ExerciseType, u32)>,
}

/// Notification settings.
#[derive(Debug)]
pub struct NotificationConfig {
    pub enabled: bool,
    pub play_sound: bool,
    pub timeout_seconds: u32,
}

/// The whole configuration.
#[derive(Debug)]
pub struct Config {
    pub general: GeneralConfig,
    pub reminders: ReminderConfig,
    pub exercises: ExerciseConfig,
    pub notifications: NotificationConfig,
}

/// The rep override an association list assigns to a kind, if any (the
/// first entry wins).
pub open spec fn spec_assoc_lookup(counts: Seq<(ExerciseType, u32)>, t: ExerciseType) -> Option<
    u32,
>
    decreases counts.len(),
{
    if counts.len() == 0 {
        None
    } else if counts[0].0 == t {
        Some(counts[0].1)
    } else {
        spec_assoc_lookup(counts.drop_first(), t)
    }
}

fn assoc_lookup(counts: &Vec<(ExerciseType, u32)>, t: ExerciseType) -> (r: Option<u32>)
    ensures
        r == spec_assoc_lookup(counts@, t),
{
    let n = counts.len();
    proof {
        assert(counts@.subrange(0, n as int) =~= counts@);
    }
    let mut i: usize = 0;
    while i < n
        invariant
            i <= n,
            n == counts@.len(),
            spec_assoc_lookup(counts@, t) == spec_assoc_lookup(
                counts@.subrange(i as int, n as int),
                t,
            ),
        decreases n - i,
    {
        proof {
            assert(counts@.subrange(i as int, n as int).drop_first() =~= counts@.subrange(
                i as int + 1,
                n as int,
            ));
            assert(counts@.subrange(i as int, n as int)[0] == counts@[i as int]);
        }
        if counts[i].0 == t {
            return Some(counts[i].1);
        }
        i = i + 1;
    }
    proof {
        assert(counts@.subrange(n as int, n as int) =~= Seq::<(ExerciseType, u32)>::empty());
    }
    None
}

/// `ON` or `OFF`.
pub open spec fn spec_on_off(b: bool) -> Seq<char> {
    if b {
        "ON"@
    } else {
        "OFF"@
    }
}

fn on_off(b: bool) -> (r: &'static str)
    ensures
        r@ == spec_on_off(b),
{
    if b {
        "ON"
    } else {
        "OFF"
    }
}

/// A number rendered with at least two digits, zero-padded.
pub open spec fn spec_pad2(n: int) -> Seq<char> {
    if n < 100 {
        spec_two_digits(n)
    } else {
        spec_digits(n)
    }
}

fn pad2(n: u32) -> (r: String)
    ensures
        r@ == spec_pad2(n as int),
{
    if n < 100 {
        two_digit_string(n as u64)
    } else {
        u64_to_string(n as u64)
    }
}

/// The short name of a day of the week, 0 = Sunday through 6 = Saturday.
pub open spec fn spec_day_name(d: u32) -> Seq<char> {
    if d == 0 {
        "Sun"@
    } else if d == 1 {
        "Mon"@
    } else if d == 2 {
        "Tue"@
    } else if d == 3 {
        "Wed"@
    } else if d == 4 {
        "Thu"@
    } else if d == 5 {
        "Fri"@
    } else if d == 6 {
        "Sat"@
    } else {
        "?"@
    }
}

fn day_name(d: u32) -> (r: &'static str)
    ensures
        r@ == spec_day_name(d),
{
    if d == 0 {
        "Sun"
    } else if d == 1 {
        "Mon"
    } else if d == 2 {
        "Tue"
    } else if d == 3 {
        "Wed"
    } else if d == 4 {
        "Thu"
    } else if d == 5 {
        "Fri"
    } else if d == 6 {
        "Sat"
    } else {
        "?"
    }
}

fn contains_u32(v: &Vec<u32>, x: u32) -> (b: bool)
    ensures
        b == v@.contains(x),
{
    let n = v.len();
    let mut i: usize = 0;
    while i < n
        invariant
            i <= n,
            n == v@.len(),
            forall|j: int| 0 <= j < i ==> v@[j] != x,
        decreases n - i,
    {
        if v[i] == x {
            return true;
        }
        i = i + 1;
    }
    false
}

fn contains_type(v: &Vec<ExerciseType>, x: ExerciseType) -> (b: bool)
    ensures
        b == v@.contains(x),
{
    let n = v.len();
    let mut i: usize = 0;
    while i < n
        invariant
            i <= n,
            n == v@.len(),
            forall|j: int| 0 <= j < i ==> v@[j] != x,
        decreases n - i,
    {
        if v[i] == x {
            return true;
        }
        i = i + 1;
    }
    false
}

impl Default for Config {
    /// The out-of-the-box configuration: hourly-to-two-hourly random
    /// reminders on weekdays from 9 to 17, three exercises enabled, and
    /// notifications on.
    fn default() -> (r: Config)
        ensures
            r.general.start_minimized == true,
            r.general.launch_on_startup == false,
            r.general.log_level@ == "info"@,
            r.reminders.min_interval_minutes == 60,
            r.reminders.max_interval_minutes == 120,
            r.reminders.use_random_intervals == true,
            r.reminders.work_start_hour == 9,
            r.reminders.work_end_hour == 17,
            r.reminders.active_days@ == seq![1u32, 2u32, 3u32, 4u32, 5u32],
            r.reminders.enabled == true,
            r.exercises.enabled_exercises@ == seq![
                ExerciseType::PushUps,
                ExerciseType::Squats,
                ExerciseType::Planks,
            ],
            r.exercises.custom_reps@.len() == 0,
            r.exercises.daily_goals@.len() == 0,
            r.notifications.enabled == true,
            r.notifications.play_sound == true,
            r.notifications.timeout_seconds == 10,
    {
        let mut active_days: Vec<u32> = Vec::new();
        active_days.push(1);
        active_days.push(2);
        active_days.push(3);
        active_days.push(4);
        active_days.push(5);
        let mut enabled_exercises: Vec<ExerciseType> = Vec::new();
        enabled_exercises.push(ExerciseType::PushUps);
        enabled_exercises.push(ExerciseType::Squats);
        enabled_exercises.push(ExerciseType::Planks);
        proof {
            assert(active_days@ =~= seq![1u32, 2u32, 3u32, 4u32, 5u32]);
            assert(enabled_exercises@ =~= seq![
                ExerciseType::PushUps,
                ExerciseType::Squats,
                ExerciseType::Planks,
            ]);
        }
        Config {
            general: GeneralConfig {
                start_minimized: true,
                launch_on_startup: false,
                log_level: String::from_str("info"),
            },
            reminders: ReminderConfig {
                min_interval_minutes: 60,
                max_interval_minutes: 120,
                use_random_intervals: true,
                work_start_hour: 9,
                work_end_hour: 17,
                active_days,
                enabled: true,
            },
            exercises: ExerciseConfig {
                enabled_exercises,
                custom_reps: Vec::new(),
                daily_goals: Vec::new(),
            },
            notifications: NotificationConfig {
                enabled: true,
                play_sound: true,
                timeout_seconds: 10,
            },
        }
    }
}

impl Config {
    /// The configuration file's path under the given configuration
    /// directory.
    pub fn config_path(config_dir: &str) -> (r: String)
        ensures
            r@ == config_dir@ + "/config.toml"@,
    {
        let mut s = String::from_str(config_dir);
        s.append("/config.toml");
        s
    }

    /// The rep count to suggest for an exercise: the configured override,
    /// or the exercise's default.
    pub open spec fn spec_get_reps(self, exercise: ExerciseType) -> u32 {
        match spec_assoc_lookup(self.exercises.custom_reps@, exercise) {
            Some(v) => v,
            None => exercise.spec_default_reps(),
        }
    }

    /// The rep count to suggest for an exercise.
    pub fn get_reps(&self, exercise: &ExerciseType) -> (r: u32)
        ensures
            r == self.spec_get_reps(*exercise),
    {
        match assoc_lookup(&self.exercises.custom_reps, *exercise) {
            Some(v) => v,
            None => exercise.default_reps(),
        }
    }

    /// Whether `now` falls on an active day and within the configured
    /// work hours.
    pub fn is_work_hours(&self, now: Timestamp) -> (r: bool)
        requires
            now.wf(),
        ensures
            r == (self.reminders.active_days@.contains(
                (((now.date.spec_weekday_from_monday() + 1) % 7) as u32),
            ) && self.reminders.work_start_hour <= now.second_of_day / 3600
                && now.second_of_day / 3600 < self.reminders.work_end_hour),
    {
        let weekday_from_sunday: u32 = (now.date.weekday_from_monday() + 1) % 7;
        let hour: u32 = now.second_of_day / 3600;
        if !contains_u32(&self.reminders.active_days, weekday_from_sunday) {
            return false;
        }
        hour >= self.reminders.work_start_hour && hour < self.reminders.work_end_hour
    }

    /// The seconds until the next reminder: drawn from the configured
    /// interval range when random intervals are on, the minimum interval
    /// otherwise.
    pub fn next_reminder_interval(&self) -> (r: u64)
        requires
            self.reminders.use_random_intervals ==> self.reminders.min_interval_minutes
                <= self.reminders.max_interval_minutes,
            self.reminders.max_interval_minutes <= 71582788,
            self.reminders.min_interval_minutes <= 71582788,
        ensures
            self.reminders.use_random_intervals ==> self.reminders.min_interval_minutes * 60 <= r
                <= self.reminders.max_interval_minutes * 60,
            !self.reminders.use_random_intervals ==> r == self.reminders.min_interval_minutes * 60,
    {
        if self.reminders.use_random_intervals {
            let minutes = random_in_range(
                self.reminders.min_interval_minutes,
                self.reminders.max_interval_minutes,
            );
            (minutes * 60) as u64
        } else {
            (self.reminders.min_interval_minutes * 60) as u64
        }
    }

    /// One of the enabled exercises, drawn at random; nothing when none is
    /// enabled.
    pub fn random_exercise(&self) -> (r: Option<ExerciseType>)
        ensures
            r is None <==> self.exercises.enabled_exercises@.len() == 0,
            r matches Some(x) ==> self.exercises.enabled_exercises@.contains(x),
    {
        if self.exercises.enabled_exercises.len() == 0 {
            None
        } else {
            choose_random(&self.exercises.enabled_exercises)
        }
    }

    /// Toggles an exercise: removes its first occurrence from the enabled
    /// list, or appends it when absent.
    pub fn toggle_exercise(&mut self, exercise: &ExerciseType)
        ensures
            !old(self).exercises.enabled_exercises@.contains(*exercise)
                ==> final(self).exercises.enabled_exercises@ == old(
                self,
            ).exercises.enabled_exercises@.push(*exercise),
            old(self).exercises.enabled_exercises@.contains(*exercise) ==> exists|i: int|
                {
                    &&& 0 <= i < old(self).exercises.enabled_exercises@.len()
                    &&& old(self).exercises.enabled_exercises@[i] == *exercise
                    &&& (forall|j: int|
                        0 <= j < i ==> old(self).exercises.enabled_exercises@[j] != *exercise)
                    &&& final(self).exercises.enabled_exercises@ == old(
                        self,
                    ).exercises.enabled_exercises@.remove(i)
                },
            final(self).exercises.custom_reps == old(self).exercises.custom_reps,
            final(self).exercises.daily_goals == old(self).exercises.daily_goals,
            final(self).general == old(self).general,
            final(self).reminders == old(self).reminders,
            final(self).notifications == old(self).notifications,
    {
        let n = self.exercises.enabled_exercises.len();
        let mut i: usize = 0;
        while i < n
            invariant
                *self == *old(self),
                i <= n,
                n == self.exercises.enabled_exercises@.len(),
                forall|j: int| 0 <= j < i ==> self.exercises.enabled_exercises@[j] != *exercise,
            decreases n - i,
        {
            if self.exercises.enabled_exercises[i] == *exercise {
                self.exercises.enabled_exercises.remove(i);
                return ;
            }
            i = i + 1;
        }
        self.exercises.enabled_exercises.push(*exercise);
    }

    /// Whether an exercise is on the enabled list.
    pub fn is_exercise_enabled(&self, exercise: &ExerciseType) -> (r: bool)
        ensures
            r == self.exercises.enabled_exercises@.contains(*exercise),
    {
        contains_type(&self.exercises.enabled_exercises, *exercise)
    }

    /// Sets the reminder interval range; the maximum is raised to the
    /// minimum when it falls below it.
    pub fn set_reminder_interval(&mut self, min_minutes: u32, max_minutes: u32)
        ensures
            final(self).reminders.min_interval_minutes == min_minutes,
            final(self).reminders.max_interval_minutes == (if max_minutes >= min_minutes {
                max_minutes
            } else {
                min_minutes
            }),
            final(self).reminders.use_random_intervals == old(self).reminders.use_random_intervals,
            final(self).reminders.work_start_hour == old(self).reminders.work_start_hour,
            final(self).reminders.work_end_hour == old(self).reminders.work_end_hour,
            final(self).reminders.active_days == old(self).reminders.active_days,
            final(self).reminders.enabled == old(self).reminders.enabled,
            final(self).general == old(self).general,
            final(self).exercises == old(self).exercises,
            final(self).notifications == old(self).notifications,
    {
        self.reminders.min_interval_minutes = min_minutes;
        self.reminders.max_interval_minutes = if max_minutes >= min_minutes {
            max_minutes
        } else {
            min_minutes
        };
    }

    /// The rendering of the summary's day list: the active day names
    /// joined by commas.
    pub open spec fn spec_day_list_rest(days: Seq<u32>, i: int) -> Seq<char>
        decreases days.len() - i,
    {
        if i < 0 || i >= days.len() {
            Seq::empty()
        } else {
            ", "@ + spec_day_name(days[i]) + Config::spec_day_list_rest(days, i + 1)
        }
    }

    /// The active day names joined by commas.
    pub open spec fn spec_day_list(days: Seq<u32>) -> Seq<char> {
        if days.len() == 0 {
            Seq::empty()
        } else {
            spec_day_name(days[0]) + Config::spec_day_list_rest(days, 1)
        }
    }

    /// The summary's enabled-exercise lines from position `i` on.
    pub open spec fn spec_exercise_lines(self, i: int) -> Seq<char>
        decreases self.exercises.enabled_exercises@.len() - i,
    {
        if i < 0 || i >= self.exercises.enabled_exercises@.len() {
            Seq::empty()
        } else {
            let t = self.exercises.enabled_exercises@[i];
            "  - "@ + t.spec_display_name() + " ("@ + spec_digits(self.spec_get_reps(t) as int)
                + " reps)\n"@ + self.spec_exercise_lines(i + 1)
        }
    }

    /// The full settings summary the configuration renders to.
    pub open spec fn spec_settings_summary(self) -> Seq<char> {
        "=== Geekfit Settings ===\n\n"@ + "Reminders: "@ + spec_on_off(self.reminders.enabled)
            + "\n"@ + (if self.reminders.use_random_intervals {
            "Interval: "@ + spec_digits(self.reminders.min_interval_minutes as int) + "-"@
                + spec_digits(self.reminders.max_interval_minutes as int) + " minutes (random)\n"@
        } else {
            "Interval: "@ + spec_digits(self.reminders.min_interval_minutes as int)
                + " minutes (fixed)\n"@
        }) + "Work hours: "@ + spec_pad2(self.reminders.work_start_hour as int) + ":00 - "@
            + spec_pad2(self.reminders.work_end_hour as int) + ":00\n"@ + "Active days: "@
            + Config::spec_day_list(self.reminders.active_days@) + "\n"@
            + "\nEnabled exercises:\n"@ + self.spec_exercise_lines(0) + "\nNotifications: "@
            + spec_on_off(self.notifications.enabled) + "\n"@
    }

    /// Renders a human-readable summary of the current settings.
    pub fn settings_summary(&self) -> (r: String)
        ensures
            r@ == self.spec_settings_summary(),
    {
        let mut s = String::from_str("=== Geekfit Settings ===\n\n");
        s.append("Reminders: ");
        s.append(on_off(self.reminders.enabled));
        s.append("\n");
        if self.reminders.use_random_intervals {
            s.append("Interval: ");
            let a = u64_to_string(self.reminders.min_interval_minutes as u64);
            s.append(a.as_str());
            s.append("-");
            let b = u64_to_string(self.reminders.max_interval_minutes as u64);
            s.append(b.as_str());
            s.append(" minutes (random)\n");
        } else {
            s.append("Interval: ");
            let a = u64_to_string(self.reminders.min_interval_minutes as u64);
            s.append(a.as_str());
            s.append(" minutes (fixed)\n");
        }
        s.append("Work hours: ");
        let ws = pad2(self.reminders.work_start_hour);
        s.append(ws.as_str());
        s.append(":00 - ");
        let we = pad2(self.reminders.work_end_hour);
        s.append(we.as_str());
        s.append(":00\n");
        s.append("Active days: ");
        let n_days = self.reminders.active_days.len();
        if n_days > 0 {
            s.append(day_name(self.reminders.active_days[0]));
            let mut i: usize = 1;
            let ghost header = s@;
            while i < n_days
                invariant
                    1 <= i <= n_days,
                    n_days == self.reminders.active_days@.len(),
                    header + Config::spec_day_list_rest(self.reminders.active_days@, 1) == s@
                        + Config::spec_day_list_rest(self.reminders.active_days@, i as int),
                decreases n_days - i,
            {
                let ghost before = s@;
                let ghost piece = ", "@ + spec_day_name(self.reminders.active_days@[i as int]);
                s.append(", ");
                s.append(day_name(self.reminders.active_days[i]));
                i = i + 1;
                proof {
                    assert(s@ =~= before + piece);
                    assert(Config::spec_day_list_rest(self.reminders.active_days@, i - 1) == piece
                        + Config::spec_day_list_rest(self.reminders.active_days@, i as int));
                    assert(before + (piece + Config::spec_day_list_rest(
                        self.reminders.active_days@,
                        i as int,
                    )) =~= (before + piece) + Config::spec_day_list_rest(
                        self.reminders.active_days@,
                        i as int,
                    ));
                }
            }
            proof {
                assert(Config::spec_day_list_rest(self.reminders.active_days@, n_days as int)
                    =~= Seq::<char>::empty());
                assert(s@ =~= s@ + Config::spec_day_list_rest(
                    self.reminders.active_days@,
                    n_days as int,
                ));
                assert(s@ =~= header + Config::spec_day_list_rest(self.reminders.active_days@, 1));
            }
        }
        s.append("\n");
        s.append("\nEnabled exercises:\n");
        let ghost mid = s@;
        let n_ex = self.exercises.enabled_exercises.len();
        let mut i: usize = 0;
        while i < n_ex
            invariant
                i <= n_ex,
                n_ex == self.exercises.enabled_exercises@.len(),
                mid + self.spec_exercise_lines(0) == s@ + self.spec_exercise_lines(i as int),
            decreases n_ex - i,
        {
            let ghost before = s@;
            let t = self.exercises.enabled_exercises[i];
            let reps = self.get_reps(&t);
            let ghost piece = "  - "@ + t.spec_display_name() + " ("@ + spec_digits(reps as int)
                + " reps)\n"@;
            s.append("  - ");
            s.append(t.display_name());
            s.append(" (");
            let rs = u64_to_string(reps as u64);
            s.append(rs.as_str());
            s.append(" reps)\n");
            i = i + 1;
            proof {
                assert(s@ =~= before + piece);
                assert(self.spec_exercise_lines(i - 1) == piece + self.spec_exercise_lines(
                    i as int,
                ));
                assert(before + (piece + self.spec_exercise_lines(i as int)) =~= (before + piece)
                    + self.spec_exercise_lines(i as int));
            }
        }
        proof {
            assert(self.spec_exercise_lines(n_ex as int) =~= Seq::<char>::empty());
            assert(s@ =~= s@ + self.spec_exercise_lines(n_ex as int));
        }
        s.append("\nNotifications: ");
        s.append(on_off(self.notifications.enabled));
        s.append("\n");
        proof {
            assert(s@ =~= self.spec_settings_summary());
        }
        s
    }

    /// Flips whether reminders are enabled.
    pub fn toggle_reminders(&mut self)
        ensures
            final(self).reminders.enabled == !old(self).reminders.enabled,
            final(self).reminders.min_interval_minutes == old(self).reminders.min_interval_minutes,
            final(self).reminders.max_interval_minutes == old(self).reminders.max_interval_minutes,
            final(self).reminders.use_random_intervals == old(self).reminders.use_random_intervals,
            final(self).reminders.work_start_hour == old(self).reminders.work_start_hour,
            final(self).reminders.work_end_hour == old(self).reminders.work_end_hour,
            final(self).reminders.active_days == old(self).reminders.active_days,
            final(self).general == old(self).general,
            final(self).exercises == old(self).exercises,
            final(self).notifications == old(self).notifications,
    {
        self.reminders.enabled = !self.reminders.enabled;
    }
}

} // verus!
