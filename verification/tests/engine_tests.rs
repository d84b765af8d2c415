use geekfit::curve::level_from_xp;
use geekfit::date::{Date, Timestamp};
use geekfit::engine::{EngineError, EngineState};

fn ts(year: i32, month: u8, day: u8, second_of_day: u32) -> Timestamp {
    Timestamp {
        date: Date { year, month, day },
        second_of_day,
    }
}

fn fresh() -> EngineState {
    EngineState::new(ts(2024, 3, 1, 36000))
}

#[test]
fn test_database_initialization() {
    let state = fresh();
    assert!(state.get_exercises().len() > 0);
}

#[test]
fn test_default_exercises_created() {
    let state = fresh();
    let count = state.get_exercises().len();
    assert!(
        count > 20,
        "Should have at least 20 default exercises, got {}",
        count
    );
}

#[test]
fn test_default_achievements_created() {
    let state = fresh();
    let count = state.get_achievements().len();
    assert!(
        count >= 9,
        "Should have at least 9 achievements, got {}",
        count
    );
}

#[test]
fn test_user_stats_initialized() {
    let state = fresh();
    let stats = state.get_stats();
    assert_eq!(stats.current_streak, 0);
    assert_eq!(stats.longest_streak, 0);
}

#[test]
fn test_settings_initialized() {
    let state = fresh();
    let settings = state.get_settings();
    assert!(settings.reminder_enabled);
}

#[test]
fn test_log_exercise_scenario() {
    // The flagship exercise: 10 XP per rep, empty ledger; 20 reps earn 200 XP.
    let mut state = fresh();
    let found = state.find_exercise("pushups").unwrap();
    assert_eq!(found.1, "Pushups");
    assert_eq!(found.2, 10);
    let result = state
        .log_exercise(found.0, 20, ts(2024, 3, 1, 36000), true)
        .unwrap();
    assert_eq!(result.xp_earned, 200);
    assert_eq!(result.new_exercise_level, level_from_xp(200));
    assert_eq!(result.leveled_up, result.new_exercise_level > 1);
    assert!(result
        .newly_unlocked
        .iter()
        .any(|k| k == "first-exercise"));
}

#[test]
fn test_find_exercise_matching() {
    let state = fresh();
    // Case-insensitive exact match wins.
    let exact = state.find_exercise("SQUATS").unwrap();
    assert_eq!(exact.1, "Squats");
    // Substring match when no exact name fits.
    let partial = state.find_exercise("jump").unwrap();
    assert_eq!(partial.1, "Jumping Jacks");
    // No match at all.
    assert_eq!(
        state.find_exercise("swimming").unwrap_err(),
        EngineError::NotFound
    );
}

#[test]
fn test_log_exercise_not_found() {
    let mut state = fresh();
    let r = state.log_exercise(9999, 10, ts(2024, 3, 1, 100), true);
    assert_eq!(r.unwrap_err(), EngineError::NotFound);
}

#[test]
fn test_log_exercise_invalid_reps() {
    let mut state = fresh();
    let r = state.log_exercise(1, 0, ts(2024, 3, 1, 100), true);
    assert_eq!(r.unwrap_err(), EngineError::InvalidInput);
    let r = state.log_exercise(1, -5, ts(2024, 3, 1, 100), true);
    assert_eq!(r.unwrap_err(), EngineError::InvalidInput);
}

#[test]
fn test_atomicity_under_failure_injection() {
    let mut state = fresh();
    state
        .log_exercise(1, 10, ts(2024, 3, 1, 100), true)
        .unwrap();
    let before_stats = state.get_stats();
    let before_history = state.get_exercise_history(36500, ts(2024, 3, 1, 200));
    let before_unlocked: Vec<bool> = state
        .get_achievements()
        .iter()
        .map(|a| a.unlocked_at.is_some())
        .collect();

    // The durable write fails: the transaction must be rejected in full.
    let r = state.log_exercise(1, 10, ts(2024, 3, 2, 100), false);
    assert_eq!(r.unwrap_err(), EngineError::PersistenceFailure);

    let after_stats = state.get_stats();
    assert_eq!(before_stats.total_xp, after_stats.total_xp);
    assert_eq!(before_stats.total_level, after_stats.total_level);
    assert_eq!(before_stats.current_streak, after_stats.current_streak);
    assert_eq!(
        before_history.len(),
        state.get_exercise_history(36500, ts(2024, 3, 1, 200)).len()
    );
    let after_unlocked: Vec<bool> = state
        .get_achievements()
        .iter()
        .map(|a| a.unlocked_at.is_some())
        .collect();
    assert_eq!(before_unlocked, after_unlocked);
}

#[test]
fn test_century_unlocks_at_hundred_reps() {
    // 99 flagship reps within one day do not unlock the century rule.
    let mut state = fresh();
    let r = state.log_exercise(1, 99, ts(2024, 3, 1, 100), true).unwrap();
    assert!(!r.newly_unlocked.iter().any(|k| k == "century"));
    // The hundredth rep on the same date does.
    let r = state.log_exercise(1, 1, ts(2024, 3, 1, 200), true).unwrap();
    assert!(r.newly_unlocked.iter().any(|k| k == "century"));
}

#[test]
fn test_century_needs_same_day() {
    let mut state = fresh();
    state.log_exercise(1, 99, ts(2024, 3, 1, 100), true).unwrap();
    // The next day starts the count afresh.
    let r = state.log_exercise(1, 1, ts(2024, 3, 2, 100), true).unwrap();
    assert!(!r.newly_unlocked.iter().any(|k| k == "century"));
}

#[test]
fn test_week_streak_on_seventh_day() {
    let mut state = fresh();
    for day in 1..=7u8 {
        let r = state
            .log_exercise(2, 5, ts(2024, 3, day, 100), true)
            .unwrap();
        let has = r.newly_unlocked.iter().any(|k| k == "week-streak");
        if day == 7 {
            assert!(has, "week-streak should unlock on the seventh day");
        } else {
            assert!(!has, "week-streak must not unlock on day {}", day);
        }
    }
    assert_eq!(state.get_stats().current_streak, 7);
}

#[test]
fn test_achievement_idempotent_across_logs() {
    let mut state = fresh();
    let r = state.log_exercise(1, 5, ts(2024, 3, 1, 100), true).unwrap();
    assert!(r.newly_unlocked.iter().any(|k| k == "first-exercise"));
    let stamp = state.get_achievements()[0].unlocked_at;
    assert!(stamp.is_some());

    // Later transactions never change the stamp nor re-emit the key.
    let r = state.log_exercise(1, 5, ts(2024, 3, 5, 200), true).unwrap();
    assert!(!r.newly_unlocked.iter().any(|k| k == "first-exercise"));
    assert_eq!(state.get_achievements()[0].unlocked_at, stamp);
}

#[test]
fn test_streak_same_day_unchanged() {
    let mut state = fresh();
    state.log_exercise(1, 5, ts(2024, 3, 1, 100), true).unwrap();
    assert_eq!(state.get_stats().current_streak, 1);
    state.log_exercise(1, 5, ts(2024, 3, 1, 50000), true).unwrap();
    assert_eq!(state.get_stats().current_streak, 1);
}

#[test]
fn test_streak_gap_resets() {
    let mut state = fresh();
    for day in 1..=3u8 {
        state.log_exercise(1, 5, ts(2024, 3, day, 100), true).unwrap();
    }
    assert_eq!(state.get_stats().current_streak, 3);
    // A gap of two days resets the count but keeps the longest.
    state.log_exercise(1, 5, ts(2024, 3, 6, 100), true).unwrap();
    let stats = state.get_stats();
    assert_eq!(stats.current_streak, 1);
    assert_eq!(stats.longest_streak, 3);
}

#[test]
fn test_skill_achievements() {
    let mut state = fresh();
    // 1155 XP reaches level 10 on the curve; 116 reps at 10 XP give 1160.
    let r = state.log_exercise(1, 116, ts(2024, 3, 1, 100), true).unwrap();
    assert!(r.new_exercise_level >= 10);
    assert!(r.newly_unlocked.iter().any(|k| k == "skill-10"));
}

#[test]
fn test_variety_achievement() {
    let mut state = fresh();
    for id in 1..=4i64 {
        let r = state.log_exercise(id, 5, ts(2024, 3, 1, 100), true).unwrap();
        assert!(!r.newly_unlocked.iter().any(|k| k == "variety"));
    }
    let r = state.log_exercise(5, 5, ts(2024, 3, 1, 100), true).unwrap();
    assert!(r.newly_unlocked.iter().any(|k| k == "variety"));
}

#[test]
fn test_add_and_delete_exercise() {
    let mut state = fresh();
    let n = state.get_exercises().len();
    state
        .add_exercise("Row".to_string(), 12, ts(2024, 3, 1, 100))
        .unwrap();
    assert_eq!(state.get_exercises().len(), n + 1);
    let (id, name, xp) = state.find_exercise("row").unwrap();
    assert_eq!(name, "Row");
    assert_eq!(xp, 12);

    // Duplicate names and non-positive rates are rejected.
    assert_eq!(
        state
            .add_exercise("Row".to_string(), 3, ts(2024, 3, 1, 100))
            .unwrap_err(),
        EngineError::InvalidInput
    );
    assert_eq!(
        state
            .add_exercise("Plyo".to_string(), 0, ts(2024, 3, 1, 100))
            .unwrap_err(),
        EngineError::InvalidInput
    );

    state.log_exercise(id, 4, ts(2024, 3, 1, 100), true).unwrap();
    state.delete_exercise(id).unwrap();
    assert_eq!(state.get_exercises().len(), n);
    assert!(state.find_exercise("row").is_err());
    // Its log entries leave with it.
    assert_eq!(
        state.get_exercise_history(36500, ts(2024, 3, 1, 200)).len(),
        0
    );
}

#[test]
fn test_get_exercise_history_window() {
    let mut state = fresh();
    state.log_exercise(1, 5, ts(2024, 3, 1, 100), true).unwrap();
    state.log_exercise(2, 5, ts(2024, 3, 5, 100), true).unwrap();
    let now = ts(2024, 3, 6, 100);
    // A two-day window sees only the later entry, newest first.
    let recent = state.get_exercise_history(2, now);
    assert_eq!(recent.len(), 1);
    assert_eq!(recent[0].exercise_id, 2);
    let all = state.get_exercise_history(30, now);
    assert_eq!(all.len(), 2);
    assert_eq!(all[0].exercise_id, 2);
    assert_eq!(all[1].exercise_id, 1);
}

#[test]
fn test_update_setting_and_parsing() {
    let mut state = fresh();
    state.update_setting("reminder_interval_minutes", "42").unwrap();
    assert_eq!(state.get_settings().reminder_interval_minutes, 42);
    // A value that does not parse falls back to the default.
    state.update_setting("reminder_interval_minutes", "soon").unwrap();
    assert_eq!(state.get_settings().reminder_interval_minutes, 120);
    state.update_setting("reminder_enabled", "false").unwrap();
    assert!(!state.get_settings().reminder_enabled);
    state.update_setting("daily_goal_xp", "-10").unwrap();
    assert_eq!(state.get_settings().daily_goal_xp, -10);
    state.update_setting("theme_mode", "light").unwrap();
    assert_eq!(state.get_settings().theme_mode.as_deref(), Some("light"));
    // Unknown keys are accepted with no visible effect.
    state.update_setting("volume", "11").unwrap();
    assert_eq!(state.get_settings().daily_goal_xp, -10);
}

#[test]
fn test_export_import_round_trip() {
    let mut state = fresh();
    state.log_exercise(1, 116, ts(2024, 3, 1, 100), true).unwrap();
    state.log_exercise(2, 9, ts(2024, 3, 2, 100), true).unwrap();
    let before = state.get_stats();
    let snapshot = state.export_data(ts(2024, 3, 2, 200));
    assert_eq!(snapshot.version, "1.0.0");

    let mut other = fresh();
    other.import_data(&snapshot).unwrap();
    let after = other.get_stats();
    assert_eq!(before.total_xp, after.total_xp);
    assert_eq!(before.total_level, after.total_level);
    assert_eq!(before.current_streak, after.current_streak);
    assert_eq!(before.longest_streak, after.longest_streak);
    assert_eq!(before.exercise_count, after.exercise_count);
    let unlocked: Vec<bool> = other
        .get_achievements()
        .iter()
        .map(|a| a.unlocked_at.is_some())
        .collect();
    let expected: Vec<bool> = state
        .get_achievements()
        .iter()
        .map(|a| a.unlocked_at.is_some())
        .collect();
    assert_eq!(unlocked, expected);
}

#[test]
fn test_import_rejects_broken_references() {
    let mut state = fresh();
    state.log_exercise(1, 5, ts(2024, 3, 1, 100), true).unwrap();
    let mut snapshot = state.export_data(ts(2024, 3, 1, 200));
    // Point the log entry at a missing exercise: the whole import must
    // be rejected and the live state left alone.
    snapshot.exercise_logs[0].exercise_id = 424242;
    let mut other = fresh();
    assert_eq!(
        other.import_data(&snapshot).unwrap_err(),
        EngineError::InvalidInput
    );
    assert_eq!(other.get_stats().total_xp, 0);
}

#[test]
fn test_import_rejects_inconsistent_level() {
    let state = fresh();
    let mut snapshot = state.export_data(ts(2024, 3, 1, 200));
    snapshot.exercises[0].current_level = 50;
    let mut other = fresh();
    assert_eq!(
        other.import_data(&snapshot).unwrap_err(),
        EngineError::InvalidInput
    );
}

#[test]
fn test_reset_all_data() {
    let mut state = fresh();
    state.log_exercise(1, 200, ts(2024, 3, 1, 100), true).unwrap();
    state.update_setting("daily_goal_xp", "900").unwrap();
    state.reset_all_data(ts(2024, 4, 1, 0)).unwrap();
    let stats = state.get_stats();
    assert_eq!(stats.total_xp, 0);
    assert_eq!(stats.current_streak, 0);
    assert!(state
        .get_achievements()
        .iter()
        .all(|a| a.unlocked_at.is_none()));
    // Settings survive a reset.
    assert_eq!(state.get_settings().daily_goal_xp, 900);
}

#[test]
fn test_total_level_achievement() {
    let mut state = fresh();
    // Seeded: 28 exercises at level 1 gives total level 28.
    assert_eq!(state.get_stats().total_level, 28);
    // Driving one exercise to level 73 lifts the total to 100.
    let r = state
        .log_exercise(1, 100_000, ts(2024, 3, 1, 100), true)
        .unwrap();
    assert!(state.get_stats().total_level >= 100);
    assert!(r.newly_unlocked.iter().any(|k| k == "total-100"));
}
