//! Notification composition.  The notifier decides whether a
//! notification is due and composes its exact title and body; handing the
//! result to the operating system's notification service is the shell's
//! concern.

use vstd::prelude::*;
use crate::config::Config;
use crate::models::{Badge, ExerciseType, Level};
use crate::text::{spec_digits, u64_to_string};

verus! {

/// A composed desktop notification: what to show and for how long (0
/// meaning the system default).
#[derive(Debug)]
pub struct NotificationMessage {
    pub title: String,
    pub body: String,
    pub timeout_ms: u32,
}

/// The notification manager: composes messages while enabled, stays
/// silent otherwise.
#[derive(Debug)]
pub struct Notifier {
    app_name: String,
    enabled: bool,
    timeout_ms: u32,
}

/// The lower-case form of an exercise's display name, as it appears
/// inside message bodies.
pub open spec fn spec_lower_name(e: ExerciseType) -> Seq<char> {
    match e {
        ExerciseType::PushUps => "push-ups"@,
        ExerciseType::Squats => "squats"@,
        ExerciseType::Planks => "planks"@,
        ExerciseType::JumpingJacks => "jumping jacks"@,
        ExerciseType::Stretches => "stretches"@,
    }
}

fn lower_name(e: &ExerciseType) -> (r: &'static str)
    ensures
        r@ == spec_lower_name(*e),
{
    match e {
        ExerciseType::PushUps => "push-ups",
        ExerciseType::Squats => "squats",
        ExerciseType::Planks => "planks",
        ExerciseType::JumpingJacks => "jumping jacks",
        ExerciseType::Stretches => "stretches",
    }
}

/// The motivational line for one exercise kind, spoken in spec terms.
pub open spec fn spec_motivation(e: ExerciseType) -> Seq<char> {
    match e {
        ExerciseType::PushUps => "Time for push-ups! Compile some muscle strength!"@,
        ExerciseType::Squats => "Squat time! Debug your leg day!"@,
        ExerciseType::Planks => "Plank it out! Hold strong like your code!"@,
        ExerciseType::JumpingJacks => "Jumping jacks! Jump-start your energy!"@,
        ExerciseType::Stretches => "Stretch break! Refactor those tight muscles!"@,
    }
}

/// The milestone line for a streak of `days`, if `days` is a milestone.
pub open spec fn spec_milestone_line(days: u32) -> Option<Seq<char>> {
    if days == 7 {
        Some("One week strong! You're a Marathon Coder!"@)
    } else if days == 14 {
        Some("Two weeks! Your dedication is compiling nicely!"@)
    } else if days == 30 {
        Some("30 days! You're a Consistent Shipper!"@)
    } else if days == 60 {
        Some("60 days! Your fitness routine is bug-free!"@)
    } else if days == 90 {
        Some("90 days! You've achieved fitness enlightenment!"@)
    } else if days == 100 {
        Some("100 DAYS! You are legendary!"@)
    } else {
        None
    }
}

impl Notifier {
    /// A notifier configured from the notification settings.
    pub fn new(config: &Config) -> (r: Notifier)
        requires
            config.notifications.timeout_seconds <= 4294967,
        ensures
            r.spec_enabled() == config.notifications.enabled,
            r.spec_timeout_ms() == config.notifications.timeout_seconds * 1000,
    {
        Notifier {
            app_name: String::from_str("Geekfit"),
            enabled: config.notifications.enabled,
            timeout_ms: config.notifications.timeout_seconds * 1000,
        }
    }

    /// A notifier with default settings: enabled, ten-second timeout.
    pub fn default_notifier() -> (r: Notifier)
        ensures
            r.spec_enabled() == true,
            r.spec_timeout_ms() == 10000,
    {
        Notifier { app_name: String::from_str("Geekfit"), enabled: true, timeout_ms: 10000 }
    }

    /// Whether notifications are composed at all.
    pub closed spec fn spec_enabled(self) -> bool {
        self.enabled
    }

    /// The configured display timeout in milliseconds.
    pub closed spec fn spec_timeout_ms(self) -> u32 {
        self.timeout_ms
    }

    /// Re-reads the notification settings.
    pub fn update_from_config(&mut self, config: &Config)
        requires
            config.notifications.timeout_seconds <= 4294967,
        ensures
            final(self).spec_enabled() == config.notifications.enabled,
            final(self).spec_timeout_ms() == config.notifications.timeout_seconds * 1000,
    {
        self.enabled = config.notifications.enabled;
        self.timeout_ms = config.notifications.timeout_seconds * 1000;
    }

    /// Composes a notification from a finished title and body; nothing
    /// while disabled.
    fn compose(&self, title: String, body: String) -> (r: Option<NotificationMessage>)
        ensures
            !self.spec_enabled() ==> r is None,
            self.spec_enabled() ==> (r matches Some(m) && m.title@ == title@ && m.body@ == body@
                && m.timeout_ms == self.spec_timeout_ms()),
    {
        if !self.enabled {
            return None;
        }
        Some(NotificationMessage { title, body, timeout_ms: self.timeout_ms })
    }

    /// The reminder to do an exercise now.
    pub fn exercise_reminder(&self, exercise: &ExerciseType, reps: u32) -> (r: Option<
        NotificationMessage,
    >)
        ensures
            !self.spec_enabled() ==> r is None,
            self.spec_enabled() ==> (r matches Some(m) && {
                &&& m.title@ == "Time for "@ + exercise.spec_display_name() + "!"@
                &&& m.body@ == spec_motivation(*exercise) + "\n\nDo "@ + spec_digits(reps as int)
                    + " "@ + spec_lower_name(*exercise)
                    + " now!\n\nClick the tray icon to log when done."@
                &&& m.timeout_ms == self.spec_timeout_ms()
            }),
    {
        let mut title = String::from_str("Time for ");
        title.append(exercise.display_name());
        title.append("!");
        let mut body = String::from_str(exercise.motivation_message());
        body.append("\n\nDo ");
        let d = u64_to_string(reps as u64);
        body.append(d.as_str());
        body.append(" ");
        body.append(lower_name(exercise));
        body.append(" now!\n\nClick the tray icon to log when done.");
        proof {
            assert(title@ =~= "Time for "@ + exercise.spec_display_name() + "!"@);
            assert(body@ =~= spec_motivation(*exercise) + "\n\nDo "@ + spec_digits(reps as int)
                + " "@ + spec_lower_name(*exercise)
                + " now!\n\nClick the tray icon to log when done."@);
        }
        self.compose(title, body)
    }

    /// The congratulation after an exercise is logged.
    pub fn exercise_completed(
        &self,
        exercise: &ExerciseType,
        reps: u32,
        points: u32,
        total_points: u32,
    ) -> (r: Option<NotificationMessage>)
        ensures
            !self.spec_enabled() ==> r is None,
            self.spec_enabled() ==> (r matches Some(m) && {
                &&& m.title@ == exercise.spec_display_name() + " completed!"@
                &&& m.body@ == "Great job! +"@ + spec_digits(points as int) + " points\n"@
                    + spec_digits(reps as int) + " "@ + spec_lower_name(*exercise)
                    + " logged.\nTotal points: "@ + spec_digits(total_points as int)
                &&& m.timeout_ms == self.spec_timeout_ms()
            }),
    {
        let mut title = String::from_str(exercise.display_name());
        title.append(" completed!");
        let mut body = String::from_str("Great job! +");
        let p = u64_to_string(points as u64);
        body.append(p.as_str());
        body.append(" points\n");
        let rr = u64_to_string(reps as u64);
        body.append(rr.as_str());
        body.append(" ");
        body.append(lower_name(exercise));
        body.append(" logged.\nTotal points: ");
        let t = u64_to_string(total_points as u64);
        body.append(t.as_str());
        proof {
            assert(title@ =~= exercise.spec_display_name() + " completed!"@);
            assert(body@ =~= "Great job! +"@ + spec_digits(points as int) + " points\n"@
                + spec_digits(reps as int) + " "@ + spec_lower_name(*exercise)
                + " logged.\nTotal points: "@ + spec_digits(total_points as int));
        }
        self.compose(title, body)
    }

    /// The level-up announcement.
    pub fn level_up(&self, new_level: &Level, total_points: u32) -> (r: Option<NotificationMessage>)
        ensures
            !self.spec_enabled() ==> r is None,
            self.spec_enabled() ==> (r matches Some(m) && {
                &&& m.title@ == "Level Up!"@
                &&& m.body@ == new_level.spec_level_up_message() + "\n\nYou've reached "@
                    + new_level.spec_display_name() + " ("@ + spec_digits(total_points as int)
                    + " total points)!"@
                &&& m.timeout_ms == self.spec_timeout_ms()
            }),
    {
        let title = String::from_str("Level Up!");
        let mut body = String::from_str(new_level.level_up_message());
        body.append("\n\nYou've reached ");
        body.append(new_level.display_name());
        body.append(" (");
        let t = u64_to_string(total_points as u64);
        body.append(t.as_str());
        body.append(" total points)!");
        proof {
            assert(body@ =~= new_level.spec_level_up_message() + "\n\nYou've reached "@
                + new_level.spec_display_name() + " ("@ + spec_digits(total_points as int)
                + " total points)!"@);
        }
        self.compose(title, body)
    }

    /// The exact body of one badge-unlocked announcement.
    pub open spec fn spec_badge_body(badge: Badge) -> Seq<char> {
        badge.spec_icon() + " "@ + badge.spec_display_name() + "\n\n"@ + badge.spec_description()
    }

    /// The badge-unlocked announcement.
    pub fn badge_earned(&self, badge: &Badge) -> (r: Option<NotificationMessage>)
        ensures
            !self.spec_enabled() ==> r is None,
            self.spec_enabled() ==> (r matches Some(m) && {
                &&& m.title@ == "Badge Unlocked!"@
                &&& m.body@ == Notifier::spec_badge_body(*badge)
                &&& m.timeout_ms == self.spec_timeout_ms()
            }),
    {
        let title = String::from_str("Badge Unlocked!");
        let mut body = String::from_str(badge.icon());
        body.append(" ");
        body.append(badge.display_name());
        body.append("\n\n");
        body.append(badge.description());
        proof {
            assert(body@ =~= Notifier::spec_badge_body(*badge));
        }
        self.compose(title, body)
    }

    /// One badge-unlocked announcement for each badge, in order.
    pub fn badges_earned(&self, badges: &Vec<Badge>) -> (r: Vec<NotificationMessage>)
        ensures
            !self.spec_enabled() ==> r@.len() == 0,
            self.spec_enabled() ==> r@.len() == badges@.len() && forall|i: int|
                0 <= i < r@.len() ==> {
                    &&& (#[trigger] r@[i]).title@ == "Badge Unlocked!"@
                    &&& r@[i].body@ == Notifier::spec_badge_body(badges@[i])
                    &&& r@[i].timeout_ms == self.spec_timeout_ms()
                },
    {
        let mut out: Vec<NotificationMessage> = Vec::new();
        let n = badges.len();
        let mut i: usize = 0;
        while i < n
            invariant
                i <= n,
                n == badges@.len(),
                !self.spec_enabled() ==> out@.len() == 0,
                self.spec_enabled() ==> out@.len() == i && forall|j: int|
                    0 <= j < i ==> {
                        &&& (#[trigger] out@[j]).title@ == "Badge Unlocked!"@
                        &&& out@[j].body@ == Notifier::spec_badge_body(badges@[j])
                        &&& out@[j].timeout_ms == self.spec_timeout_ms()
                    },
            decreases n - i,
        {
            match self.badge_earned(&badges[i]) {
                Some(m) => out.push(m),
                None => {},
            }
            i = i + 1;
        }
        out
    }

    /// The streak-milestone announcement; only milestone days (7, 14, 30,
    /// 60, 90, 100) produce one.
    pub fn streak_milestone(&self, days: u32) -> (r: Option<NotificationMessage>)
        ensures
            !self.spec_enabled() ==> r is None,
            spec_milestone_line(days) is None ==> r is None,
            (self.spec_enabled() && spec_milestone_line(days) is Some) ==> (r matches Some(m) && {
                &&& m.title@ == "Streak Milestone!"@
                &&& m.body@ == spec_digits(days as int) + " day streak!\n\n"@ + spec_milestone_line(
                    days,
                )->Some_0
                &&& m.timeout_ms == self.spec_timeout_ms()
            }),
    {
        let line: &'static str = if days == 7 {
            "One week strong! You're a Marathon Coder!"
        } else if days == 14 {
            "Two weeks! Your dedication is compiling nicely!"
        } else if days == 30 {
            "30 days! You're a Consistent Shipper!"
        } else if days == 60 {
            "60 days! Your fitness routine is bug-free!"
        } else if days == 90 {
            "90 days! You've achieved fitness enlightenment!"
        } else if days == 100 {
            "100 DAYS! You are legendary!"
        } else {
            return None;
        };
        let title = String::from_str("Streak Milestone!");
        let mut body = u64_to_string(days as u64);
        body.append(" day streak!\n\n");
        body.append(line);
        proof {
            assert(body@ =~= spec_digits(days as int) + " day streak!\n\n"@
                + spec_milestone_line(days)->Some_0);
        }
        self.compose(title, body)
    }

    /// The first-launch welcome.
    pub fn welcome(&self) -> (r: Option<NotificationMessage>)
        ensures
            !self.spec_enabled() ==> r is None,
            self.spec_enabled() ==> (r matches Some(m) && m.title@ == "Welcome to Geekfit!"@
                && m.body@
                == "Your fitness journey starts now!\n\nI'll remind you to exercise throughout the day.\nClick the tray icon to see your progress."@
                && m.timeout_ms == self.spec_timeout_ms()),
    {
        let title = String::from_str("Welcome to Geekfit!");
        let body = String::from_str(
            "Your fitness journey starts now!\n\nI'll remind you to exercise throughout the day.\nClick the tray icon to see your progress.",
        );
        self.compose(title, body)
    }

    /// The end-of-day summary.
    pub fn daily_summary(&self, exercises: u32, points: u32, streak: u32) -> (r: Option<
        NotificationMessage,
    >)
        ensures
            !self.spec_enabled() ==> r is None,
            self.spec_enabled() ==> (r matches Some(m) && {
                &&& m.title@ == "Geekfit Daily Summary"@
                &&& m.body@ == "Today's stats:\n- Exercises: "@ + spec_digits(exercises as int)
                    + "\n- Points earned: "@ + spec_digits(points as int)
                    + "\n- Current streak: "@ + spec_digits(streak as int)
                    + " days\n\nKeep up the great work!"@
                &&& m.timeout_ms == self.spec_timeout_ms()
            }),
    {
        let title = String::from_str("Geekfit Daily Summary");
        let mut body = String::from_str("Today's stats:\n- Exercises: ");
        let e = u64_to_string(exercises as u64);
        body.append(e.as_str());
        body.append("\n- Points earned: ");
        let p = u64_to_string(points as u64);
        body.append(p.as_str());
        body.append("\n- Current streak: ");
        let st = u64_to_string(streak as u64);
        body.append(st.as_str());
        body.append(" days\n\nKeep up the great work!");
        proof {
            assert(body@ =~= "Today's stats:\n- Exercises: "@ + spec_digits(exercises as int)
                + "\n- Points earned: "@ + spec_digits(points as int) + "\n- Current streak: "@
                + spec_digits(streak as int) + " days\n\nKeep up the great work!"@);
        }
        self.compose(title, body)
    }

    /// The keep-alive note that the tracker is still running.
    pub fn still_running(&self) -> (r: Option<NotificationMessage>)
        ensures
            !self.spec_enabled() ==> r is None,
            self.spec_enabled() ==> (r matches Some(m) && m.title@ == "Geekfit is running"@ && m.body@
                == "I'm still here, keeping you fit!\nCheck the system tray for more options."@
                && m.timeout_ms == self.spec_timeout_ms()),
    {
        let title = String::from_str("Geekfit is running");
        let body = String::from_str(
            "I'm still here, keeping you fit!\nCheck the system tray for more options.",
        );
        self.compose(title, body)
    }

    /// A notification with a caller-supplied title and body.
    pub fn custom(&self, title: &str, body: &str) -> (r: Option<NotificationMessage>)
        ensures
            !self.spec_enabled() ==> r is None,
            self.spec_enabled() ==> (r matches Some(m) && m.title@ == title@ && m.body@ == body@
                && m.timeout_ms == self.spec_timeout_ms()),
    {
        self.compose(String::from_str(title), String::from_str(body))
    }

    /// Switches notifications on or off.
    pub fn set_enabled(&mut self, enabled: bool)
        ensures
            final(self).spec_enabled() == enabled,
            final(self).spec_timeout_ms() == old(self).spec_timeout_ms(),
    {
        self.enabled = enabled;
    }

    /// Whether notifications are composed at all.
    pub fn is_enabled(&self) -> (r: bool)
        ensures
            r == self.spec_enabled(),
    {
        self.enabled
    }
}

/// Whether `s` is one of the rotating motivational lines.
pub open spec fn spec_is_motivation_line(s: Seq<char>) -> bool {
    ||| s == "Code compiles faster when you're fit!"@
    ||| s == "Debugging is easier with blood flowing!"@
    ||| s == "Every push-up makes your code stronger!"@
    ||| s == "Strong body, strong mind, clean code!"@
    ||| s == "Your IDE approves of this workout!"@
    ||| s == "Fitness: The ultimate productivity hack!"@
    ||| s == "Merge your health into main branch!"@
    ||| s == "No bugs in this workout routine!"@
    ||| s == "git commit -m 'Added gains'"@
    ||| s == "Your uptime is about to improve!"@
}

/// One of the rotating motivational lines, drawn at random.
pub fn random_motivation() -> (r: &'static str)
    ensures
        spec_is_motivation_line(r@),
{
    let mut v: Vec<&'static str> = Vec::new();
    v.push("Code compiles faster when you're fit!");
    v.push("Debugging is easier with blood flowing!");
    v.push("Every push-up makes your code stronger!");
    v.push("Strong body, strong mind, clean code!");
    v.push("Your IDE approves of this workout!");
    v.push("Fitness: The ultimate productivity hack!");
    v.push("Merge your health into main branch!");
    v.push("No bugs in this workout routine!");
    v.push("git commit -m 'Added gains'");
    v.push("Your uptime is about to improve!");
    proof {
        assert(forall|i: int| 0 <= i < v@.len() ==> spec_is_motivation_line((#[trigger] v@[i])@));
    }
    match crate::random::choose_random(&v) {
        Some(s) => s,
        None => "Code compiles faster when you're fit!",
    }
}

/// Whether `s` is one of the rotating celebration lines.
pub open spec fn spec_is_celebration_line(s: Seq<char>) -> bool {
    ||| s == "Excellent work!"@
    ||| s == "You're crushing it!"@
    ||| s == "Keep that momentum!"@
    ||| s == "Beast mode activated!"@
    ||| s == "Fitness goals: Achieved!"@
    ||| s == "Your muscles thank you!"@
    ||| s == "That's the spirit!"@
    ||| s == "Legendary performance!"@
    ||| s == "Build passing: Health check OK!"@
    ||| s == "Deployed: Gains to production!"@
}

/// One of the rotating celebration lines, drawn at random.
pub fn random_celebration() -> (r: &'static str)
    ensures
        spec_is_celebration_line(r@),
{
    let mut v: Vec<&'static str> = Vec::new();
    v.push("Excellent work!");
    v.push("You're crushing it!");
    v.push("Keep that momentum!");
    v.push("Beast mode activated!");
    v.push("Fitness goals: Achieved!");
    v.push("Your muscles thank you!");
    v.push("That's the spirit!");
    v.push("Legendary performance!");
    v.push("Build passing: Health check OK!");
    v.push("Deployed: Gains to production!");
    proof {
        assert(forall|i: int| 0 <= i < v@.len() ==> spec_is_celebration_line((#[trigger] v@[i])@));
    }
    match crate::random::choose_random(&v) {
        Some(s) => s,
        None => "Excellent work!",
    }
}

/// The encouragement line for one exercise kind.
pub fn exercise_encouragement(exercise: &ExerciseType) -> (r: &'static str)
    ensures
        *exercise is PushUps ==> r@ == "Push your way to better code!"@,
        *exercise is Squats ==> r@ == "Squat deep, code deeper!"@,
        *exercise is Planks ==> r@ == "Hold strong like your architecture!"@,
        *exercise is JumpingJacks ==> r@ == "Jump-start your productivity!"@,
        *exercise is Stretches ==> r@ == "Stretch away the bugs!"@,
{
    match exercise {
        ExerciseType::PushUps => "Push your way to better code!",
        ExerciseType::Squats => "Squat deep, code deeper!",
        ExerciseType::Planks => "Hold strong like your architecture!",
        ExerciseType::JumpingJacks => "Jump-start your productivity!",
        ExerciseType::Stretches => "Stretch away the bugs!",
    }
}

} // verus!
