use geekfit::config::Config;
use geekfit::date::{Date, Timestamp};
use geekfit::gui::EditableConfig;
use geekfit::engine::EngineError;
use geekfit::models::{Badge, ExerciseType, Level};
use geekfit::notify::{exercise_encouragement, random_celebration, random_motivation, Notifier};
use geekfit::sched::{format_duration, time_until_work_hours};
use geekfit::store::StorageStats;
use geekfit::text::parse_i32;
use geekfit::tray::{show_settings_info, TrayAction};

fn ts(year: i32, month: u8, day: u8, second_of_day: u32) -> Timestamp {
    Timestamp {
        date: Date { year, month, day },
        second_of_day,
    }
}

#[test]
fn test_default_config() {
    let config = Config::default();
    assert!(config.reminders.enabled);
    assert_eq!(config.reminders.min_interval_minutes, 60);
    assert!(!config.exercises.enabled_exercises.is_empty());
}

#[test]
fn test_toggle_exercise() {
    let mut config = Config::default();
    let initial_count = config.exercises.enabled_exercises.len();

    config.toggle_exercise(&ExerciseType::PushUps);
    assert_eq!(config.exercises.enabled_exercises.len(), initial_count - 1);

    config.toggle_exercise(&ExerciseType::PushUps);
    assert_eq!(config.exercises.enabled_exercises.len(), initial_count);
}

#[test]
fn test_get_reps_override() {
    let mut config = Config::default();
    assert_eq!(config.get_reps(&ExerciseType::Squats), 15);
    config.exercises.custom_reps.push((ExerciseType::Squats, 25));
    assert_eq!(config.get_reps(&ExerciseType::Squats), 25);
}

#[test]
fn test_is_work_hours() {
    let config = Config::default();
    // 2024-03-04 was a Monday.
    assert!(config.is_work_hours(ts(2024, 3, 4, 10 * 3600)));
    assert!(!config.is_work_hours(ts(2024, 3, 4, 8 * 3600)));
    assert!(!config.is_work_hours(ts(2024, 3, 4, 17 * 3600)));
    // 2024-03-03 was a Sunday: not an active day by default.
    assert!(!config.is_work_hours(ts(2024, 3, 3, 10 * 3600)));
}

#[test]
fn test_next_reminder_interval_bounds() {
    let mut config = Config::default();
    for _ in 0..20 {
        let secs = config.next_reminder_interval();
        assert!(secs >= 60 * 60 && secs <= 120 * 60);
    }
    // A collapsed range pins the draw exactly.
    config.set_reminder_interval(90, 90);
    assert_eq!(config.next_reminder_interval(), 90 * 60);
    config.reminders.use_random_intervals = false;
    config.set_reminder_interval(45, 120);
    assert_eq!(config.next_reminder_interval(), 45 * 60);
}

#[test]
fn test_random_exercise_membership() {
    let mut config = Config::default();
    for _ in 0..20 {
        let drawn = config.random_exercise().unwrap();
        assert!(config.exercises.enabled_exercises.contains(&drawn));
    }
    config.exercises.enabled_exercises = vec![ExerciseType::Stretches];
    assert_eq!(config.random_exercise(), Some(ExerciseType::Stretches));
    config.exercises.enabled_exercises.clear();
    assert_eq!(config.random_exercise(), None);
}

#[test]
fn test_set_reminder_interval_orders_bounds() {
    let mut config = Config::default();
    config.set_reminder_interval(100, 40);
    assert_eq!(config.reminders.min_interval_minutes, 100);
    assert_eq!(config.reminders.max_interval_minutes, 100);
}

#[test]
fn test_settings_summary_exact() {
    let config = Config::default();
    let expected = "=== Geekfit Settings ===\n\n\
                    Reminders: ON\n\
                    Interval: 60-120 minutes (random)\n\
                    Work hours: 09:00 - 17:00\n\
                    Active days: Mon, Tue, Wed, Thu, Fri\n\
                    \nEnabled exercises:\n\
                    \x20 - Push-ups (10 reps)\n\
                    \x20 - Squats (15 reps)\n\
                    \x20 - Planks (1 reps)\n\
                    \nNotifications: ON\n";
    assert_eq!(config.settings_summary(), expected);
}

#[test]
fn test_show_settings_info_mentions_path() {
    let config = Config::default();
    let info = show_settings_info(&config, "/home/u/.config/geekfit/config.toml");
    assert!(info.contains("=== Geekfit Settings ==="));
    assert!(info.contains("/home/u/.config/geekfit/config.toml"));
}

#[test]
fn test_editable_config_round_trip() {
    let config = Config::default();
    let editable = EditableConfig::from_config(&config);
    assert!(editable.active_days == [false, true, true, true, true, true, false]);
    assert!(editable.enabled_exercises == [true, true, true, false, false]);

    let mut edited = editable;
    edited.active_days[0] = true;
    edited.enabled_exercises[4] = true;
    edited.work_end = 18;
    let mut back = Config::default();
    edited.apply_to(&mut back);
    assert_eq!(back.reminders.active_days, vec![0, 1, 2, 3, 4, 5]);
    assert_eq!(back.reminders.work_end_hour, 18);
    assert!(back
        .exercises
        .enabled_exercises
        .contains(&ExerciseType::Stretches));
}

#[test]
fn test_config_path_join() {
    assert_eq!(
        Config::config_path("/home/u/.config/geekfit"),
        "/home/u/.config/geekfit/config.toml"
    );
}

#[test]
fn test_format_duration() {
    assert_eq!(format_duration(60), "1m");
    assert_eq!(format_duration(3600), "1h 0m");
    assert_eq!(format_duration(3660), "1h 1m");
    assert_eq!(format_duration(7200), "2h 0m");
}

#[test]
fn test_time_until_work_hours_cases() {
    let config = Config::default();
    assert_eq!(time_until_work_hours(&config, 7), Some(2 * 3600));
    assert_eq!(time_until_work_hours(&config, 12), None);
    assert_eq!(time_until_work_hours(&config, 20), Some((4 + 9) * 3600));
}

#[test]
fn test_notifier_creation() {
    let config = Config::default();
    let notifier = Notifier::new(&config);
    assert!(notifier.is_enabled());
}

#[test]
fn test_disabled_notifier() {
    let mut notifier = Notifier::default_notifier();
    notifier.set_enabled(false);
    assert!(!notifier.is_enabled());

    // A disabled notifier composes nothing.
    let result = notifier.custom("Test", "This should not show");
    assert!(result.is_none());
}

#[test]
fn test_random_messages() {
    // Just verify they produce lines from their fixed sets.
    let m = random_motivation();
    assert!(!m.is_empty());
    let c = random_celebration();
    assert!(!c.is_empty());
    let e = exercise_encouragement(&ExerciseType::PushUps);
    assert_eq!(e, "Push your way to better code!");
}

#[test]
fn test_exercise_reminder_message() {
    let notifier = Notifier::default_notifier();
    let m = notifier
        .exercise_reminder(&ExerciseType::PushUps, 10)
        .unwrap();
    assert_eq!(m.title, "Time for Push-ups!");
    assert_eq!(
        m.body,
        "Time for push-ups! Compile some muscle strength!\n\nDo 10 push-ups now!\n\nClick the tray icon to log when done."
    );
    assert_eq!(m.timeout_ms, 10000);
}

#[test]
fn test_streak_milestone_messages() {
    let notifier = Notifier::default_notifier();
    assert!(notifier.streak_milestone(6).is_none());
    let m = notifier.streak_milestone(7).unwrap();
    assert_eq!(m.title, "Streak Milestone!");
    assert_eq!(m.body, "7 day streak!\n\nOne week strong! You're a Marathon Coder!");
}

#[test]
fn test_tray_action_parsing() {
    assert!(matches!(
        TrayAction::from_menu_id("quit"),
        TrayAction::Quit
    ));

    assert!(matches!(
        TrayAction::from_menu_id("log_pushups"),
        TrayAction::LogExercise(ExerciseType::PushUps)
    ));

    assert!(matches!(
        TrayAction::from_menu_id("unknown"),
        TrayAction::Unknown(_)
    ));
}

#[test]
fn test_storage_stats_format() {
    let stats = StorageStats {
        data_path: "/data/progress.json".to_string(),
        data_size_bytes: 1234,
        backup_size_bytes: 0,
        has_backup: false,
    };
    assert_eq!(
        stats.format(),
        "Data file: \"/data/progress.json\"\nData size: 1234 bytes\nBackup size: 0 bytes\nHas backup: false"
    );
}

#[test]
fn test_parse_i32_syntax() {
    assert_eq!(parse_i32("0"), Some(0));
    assert_eq!(parse_i32("007"), Some(7));
    assert_eq!(parse_i32("-120"), Some(-120));
    assert_eq!(parse_i32("+15"), Some(15));
    assert_eq!(parse_i32("2147483647"), Some(i32::MAX));
    assert_eq!(parse_i32("-2147483648"), Some(i32::MIN));
    assert_eq!(parse_i32("2147483648"), None);
    assert_eq!(parse_i32("-2147483649"), None);
    assert_eq!(parse_i32(""), None);
    assert_eq!(parse_i32("-"), None);
    assert_eq!(parse_i32("12a"), None);
    assert_eq!(parse_i32(" 12"), None);
    assert_eq!(parse_i32("999999999999999999999"), None);
}

#[test]
fn test_date_rendering_and_days() {
    let d = Date {
        year: 2024,
        month: 3,
        day: 1,
    };
    assert!(d.is_valid());
    assert_eq!(d.render(), "2024-03-01");
    let next = Date {
        year: 2024,
        month: 3,
        day: 2,
    };
    assert_eq!(next.day_number() - d.day_number(), 1);
    // 2024 is a leap year: February 29th exists and leads into March 1st.
    let leap = Date {
        year: 2024,
        month: 2,
        day: 29,
    };
    assert!(leap.is_valid());
    assert_eq!(d.day_number() - leap.day_number(), 1);
    assert!(!Date {
        year: 2023,
        month: 2,
        day: 29
    }
    .is_valid());
    assert_eq!(ts(2024, 3, 1, 3661).render(), "2024-03-01 01:01:01");
}

#[test]
fn test_error_messages() {
    assert_eq!(EngineError::NotFound.message(), "no matching exercise");
    assert_eq!(EngineError::InvalidInput.message(), "invalid input");
    assert_eq!(EngineError::PersistenceFailure.message(), "persistence failure");
}

#[test]
fn test_level_up_and_badge_messages() {
    let notifier = Notifier::default_notifier();
    let m = notifier.level_up(&Level::JuniorDev, 150).unwrap();
    assert_eq!(m.title, "Level Up!");
    assert_eq!(
        m.body,
        "Level up! You're now a Junior Dev! Keep pushing!\n\nYou've reached Junior Dev (150 total points)!"
    );
    let b = notifier.badge_earned(&Badge::FirstCommit).unwrap();
    assert_eq!(b.title, "Badge Unlocked!");
    assert_eq!(b.body, "[*] First Commit\n\nComplete your first exercise");
    let all = notifier.badges_earned(&vec![Badge::FirstCommit, Badge::NightOwl]);
    assert_eq!(all.len(), 2);
    assert_eq!(all[1].body, "[N] Night Owl\n\nExercise after 9 PM");
}

#[test]
fn test_daily_summary_message() {
    let notifier = Notifier::default_notifier();
    let m = notifier.daily_summary(3, 45, 2).unwrap();
    assert_eq!(m.title, "Geekfit Daily Summary");
    assert_eq!(
        m.body,
        "Today's stats:\n- Exercises: 3\n- Points earned: 45\n- Current streak: 2 days\n\nKeep up the great work!"
    );
}

#[test]
fn test_completed_and_welcome_messages() {
    let notifier = Notifier::default_notifier();
    let m = notifier
        .exercise_completed(&ExerciseType::Squats, 15, 10, 30)
        .unwrap();
    assert_eq!(m.title, "Squats completed!");
    assert_eq!(
        m.body,
        "Great job! +10 points\n15 squats logged.\nTotal points: 30"
    );
    assert!(notifier.welcome().unwrap().body.contains("fitness journey"));
    assert_eq!(notifier.still_running().unwrap().title, "Geekfit is running");
}

#[test]
fn test_early_year_padding() {
    let d = Date {
        year: 985,
        month: 1,
        day: 7,
    };
    assert!(d.is_valid());
    assert_eq!(d.render(), "0985-01-07");
}
