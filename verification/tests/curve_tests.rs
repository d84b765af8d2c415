use geekfit::curve::{level_from_xp, xp_for_level};

#[test]
fn test_xp_for_level_1() {
    assert_eq!(xp_for_level(1), 0);
}

#[test]
fn test_xp_for_level_2() {
    // Level 2 should require some XP
    let xp = xp_for_level(2);
    assert!(xp > 0);
    assert!(xp < 100); // Should be relatively small
}

#[test]
fn test_xp_increases_with_level() {
    // XP requirements should increase with each level
    for level in 2..99 {
        assert!(
            xp_for_level(level + 1) > xp_for_level(level),
            "XP for level {} should be greater than level {}",
            level + 1,
            level
        );
    }
}

#[test]
fn test_xp_for_level_99() {
    // Level 99 should require significant XP
    let xp = xp_for_level(99);
    assert!(xp > 10_000_000, "Level 99 should require over 10M XP");
}

#[test]
fn test_level_from_xp_zero() {
    assert_eq!(level_from_xp(0), 1);
}

#[test]
fn test_level_from_xp_basic() {
    // With 0 XP, should be level 1
    assert_eq!(level_from_xp(0), 1);

    // With some XP, should level up
    let xp_for_2 = xp_for_level(2);
    assert_eq!(level_from_xp(xp_for_2), 2);
    assert_eq!(level_from_xp(xp_for_2 - 1), 1);
}

#[test]
fn test_level_from_xp_max() {
    // Even with huge XP, max level is 99
    assert_eq!(level_from_xp(100_000_000), 99);
    assert_eq!(level_from_xp(i64::MAX / 2), 99);
}

#[test]
fn test_level_xp_roundtrip() {
    // For each level, getting XP for that level and converting back should give same level
    for level in 1..=99 {
        let xp = xp_for_level(level);
        assert_eq!(
            level_from_xp(xp),
            level,
            "XP {} should give level {}",
            xp,
            level
        );
    }
}

#[test]
fn test_known_curve_values() {
    assert_eq!(xp_for_level(2), 83);
    assert_eq!(xp_for_level(3), 174);
    assert_eq!(xp_for_level(10), 1155);
    assert_eq!(xp_for_level(99), 13_034_440);
}

#[test]
fn test_one_below_threshold_is_previous_level() {
    for level in 2..=99 {
        let xp = xp_for_level(level);
        assert_eq!(level_from_xp(xp - 1), level - 1);
    }
}

#[test]
fn test_saturation_at_extremes() {
    assert_eq!(level_from_xp(xp_for_level(99)), 99);
    assert_eq!(level_from_xp(i64::MAX), 99);
    assert_eq!(level_from_xp(-5), 1);
}
