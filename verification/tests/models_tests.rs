use geekfit::date::{Date, Timestamp};
use geekfit::models::{Badge, DailyStats, ExerciseEntry, ExerciseType, Level, UserProgress};

fn ts(year: i32, month: u8, day: u8, second_of_day: u32) -> Timestamp {
    Timestamp {
        date: Date { year, month, day },
        second_of_day,
    }
}

#[test]
fn test_level_from_points() {
    assert_eq!(Level::from_points(0), Level::NewbieCoder);
    assert_eq!(Level::from_points(100), Level::NewbieCoder);
    assert_eq!(Level::from_points(101), Level::JuniorDev);
    assert_eq!(Level::from_points(500), Level::JuniorDev);
    assert_eq!(Level::from_points(501), Level::MidLevelEngineer);
    assert_eq!(Level::from_points(20000), Level::CTO);
}

#[test]
fn test_level_progression() {
    assert_eq!(Level::from_points(0), Level::NewbieCoder);
    assert_eq!(Level::from_points(50), Level::NewbieCoder);
    assert_eq!(Level::from_points(101), Level::JuniorDev);
    assert_eq!(Level::from_points(502), Level::MidLevelEngineer);
}

#[test]
fn test_exercise_points() {
    let pushups = ExerciseType::PushUps;
    assert_eq!(pushups.points_per_set(), 10);

    let planks = ExerciseType::Planks;
    assert_eq!(planks.points_per_set(), 15);
}

#[test]
fn test_record_exercise() {
    let mut progress = UserProgress::default();
    let badges = progress.record_exercise(ExerciseType::PushUps, 10, ts(2024, 3, 1, 36000));

    assert_eq!(progress.total_exercises, 1);
    assert_eq!(progress.total_points, 10);
    assert!(badges.contains(&Badge::FirstCommit));
}

#[test]
fn test_daily_stats() {
    let mut stats = DailyStats::new(Date {
        year: 2024,
        month: 3,
        day: 1,
    });
    let entry = ExerciseEntry::new(ExerciseType::Squats, 15, ts(2024, 3, 1, 36000));
    stats.add_exercise(entry);

    assert_eq!(stats.total_exercises(), 1);
    assert_eq!(stats.get_exercise_count(&ExerciseType::Squats), 15);
}

#[test]
fn test_weekend_and_time_badges() {
    let mut progress = UserProgress::default();
    // 2024-03-02 was a Saturday; 8 in the morning is before 9.
    let badges = progress.record_exercise(ExerciseType::Squats, 10, ts(2024, 3, 2, 8 * 3600));
    assert!(badges.contains(&Badge::WeekendWarrior));
    assert!(badges.contains(&Badge::EarlyBird));
    // 2024-03-04 was a Monday; ten in the evening is after 21.
    let badges = progress.record_exercise(ExerciseType::Squats, 10, ts(2024, 3, 4, 22 * 3600));
    assert!(!badges.contains(&Badge::WeekendWarrior));
    assert!(badges.contains(&Badge::NightOwl));
}

#[test]
fn test_streak_badges_and_reset() {
    let mut progress = UserProgress::default();
    for day in 1..=7u8 {
        let badges = progress.record_exercise(ExerciseType::PushUps, 5, ts(2024, 3, day, 43200));
        if day < 7 {
            assert!(!badges.contains(&Badge::MarathonCoder));
        } else {
            assert!(badges.contains(&Badge::MarathonCoder));
        }
    }
    assert_eq!(progress.current_streak, 7);
    // A gap resets the streak; the longest stays.
    progress.record_exercise(ExerciseType::PushUps, 5, ts(2024, 3, 15, 43200));
    assert_eq!(progress.current_streak, 1);
    assert_eq!(progress.longest_streak, 7);
}

#[test]
fn test_diversified_badge() {
    let mut progress = UserProgress::default();
    let when = ts(2024, 3, 5, 43200);
    progress.record_exercise(ExerciseType::PushUps, 5, when);
    progress.record_exercise(ExerciseType::Squats, 5, when);
    progress.record_exercise(ExerciseType::Planks, 5, when);
    progress.record_exercise(ExerciseType::JumpingJacks, 5, when);
    let badges = progress.record_exercise(ExerciseType::Stretches, 5, when);
    assert!(badges.contains(&Badge::Diversified));
}

#[test]
fn test_thousand_pushups_badge() {
    let mut progress = UserProgress::default();
    let when = ts(2024, 3, 5, 43200);
    progress.record_exercise(ExerciseType::PushUps, 999, when);
    let badges = progress.record_exercise(ExerciseType::PushUps, 1, when);
    assert!(badges.contains(&Badge::ThousandPushUps));
}

#[test]
fn test_badge_not_granted_twice() {
    let mut progress = UserProgress::default();
    let when = ts(2024, 3, 5, 43200);
    let first = progress.record_exercise(ExerciseType::PushUps, 5, when);
    assert!(first.contains(&Badge::FirstCommit));
    let second = progress.record_exercise(ExerciseType::PushUps, 5, when);
    assert!(!second.contains(&Badge::FirstCommit));
    assert_eq!(
        progress.badges.iter().filter(|b| **b == Badge::FirstCommit).count(),
        1
    );
}

#[test]
fn test_today_stats_accumulates() {
    let mut progress = UserProgress::default();
    let when = ts(2024, 3, 5, 43200);
    progress.record_exercise(ExerciseType::Planks, 2, when);
    progress.record_exercise(ExerciseType::Planks, 3, when);
    let today = progress.today_stats(when.date).unwrap();
    assert_eq!(today.total_exercises(), 2);
    assert_eq!(today.total_points, 30);
    assert_eq!(today.get_exercise_count(&ExerciseType::Planks), 5);
    assert!(progress
        .today_stats(Date {
            year: 2024,
            month: 3,
            day: 6
        })
        .is_none());
}

#[test]
fn test_enum_tables() {
    assert_eq!(ExerciseType::all().len(), 5);
    assert_eq!(Badge::all().len(), 10);
    assert_eq!(ExerciseType::JumpingJacks.display_name(), "Jumping Jacks");
    assert_eq!(ExerciseType::Planks.default_reps(), 1);
    assert_eq!(Level::TechLead.numeric(), 5);
    assert_eq!(Level::CTO.points_for_next(), None);
    assert_eq!(Level::SeniorDev.points_for_next(), Some(5001));
    assert_eq!(Badge::IronWill.description(), "Complete 100 plank sessions");
    assert_eq!(Badge::Diversified.display_name(), "Diversified Portfolio");
    assert_eq!(Badge::FirstCommit.icon(), "[*]");
}
