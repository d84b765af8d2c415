//! The experience curve: cumulative XP thresholds for levels 1 through 99
//! and the saturating inverse that derives a level from accumulated XP.
//!
//! Level 1 costs nothing.  The threshold for each later level `L` is
//! `floor(sum_{i=1}^{L-1} (i + 300 * 2^(i/7)) / 4)`, a game-style curve with
//! cheap early levels and steeply growing late ones.  The closed sums are
//! irrational-valued, so the thresholds are fixed here as a literal table;
//! every property of the curve is proved directly over that table.

use vstd::prelude::*;

verus! {

/// Cumulative XP needed to hold `level`.  Levels at or below 1 cost 0;
/// the table extends one step past the 99 cap so that progress toward the
/// next level is well defined even at level 99.
pub open spec fn spec_xp_for_level(level: int) -> int {
    if level <= 1 {
        0
    } else if level == 2 {
        83
    } else if level == 3 {
        174
    } else if level == 4 {
        276
    } else if level == 5 {
        389
    } else if level == 6 {
        513
    } else if level == 7 {
        650
    } else if level == 8 {
        802
    } else if level == 9 {
        970
    } else if level == 10 {
        1155
    } else if level == 11 {
        1359
    } else if level == 12 {
        1585
    } else if level == 13 {
        1834
    } else if level == 14 {
        2109
    } else if level == 15 {
        2412
    } else if level == 16 {
        2747
    } else if level == 17 {
        3117
    } else if level == 18 {
        3525
    } else if level == 19 {
        3975
    } else if level == 20 {
        4472
    } else if level == 21 {
        5021
    } else if level == 22 {
        5626
    } else if level == 23 {
        6294
    } else if level == 24 {
        7031
    } else if level == 25 {
        7845
    } else if level == 26 {
        8742
    } else if level == 27 {
        9733
    } else if level == 28 {
        10827
    } else if level == 29 {
        12034
    } else if level == 30 {
        13366
    } else if level == 31 {
        14836
    } else if level == 32 {
        16459
    } else if level == 33 {
        18251
    } else if level == 34 {
        20228
    } else if level == 35 {
        22410
    } else if level == 36 {
        24819
    } else if level == 37 {
        27477
    } else if level == 38 {
        30412
    } else if level == 39 {
        33652
    } else if level == 40 {
        37228
    } else if level == 41 {
        41176
    } else if level == 42 {
        45533
    } else if level == 43 {
        50344
    } else if level == 44 {
        55654
    } else if level == 45 {
        61517
    } else if level == 46 {
        67988
    } else if level == 47 {
        75132
    } else if level == 48 {
        83019
    } else if level == 49 {
        91726
    } else if level == 50 {
        101339
    } else if level == 51 {
        111950
    } else if level == 52 {
        123666
    } else if level == 53 {
        136599
    } else if level == 54 {
        150878
    } else if level == 55 {
        166642
    } else if level == 56 {
        184046
    } else if level == 57 {
        203260
    } else if level == 58 {
        224472
    } else if level == 59 {
        247892
    } else if level == 60 {
        273748
    } else if level == 61 {
        302294
    } else if level == 62 {
        333810
    } else if level == 63 {
        368605
    } else if level == 64 {
        407021
    } else if level == 65 {
        449434
    } else if level == 66 {
        496261
    } else if level == 67 {
        547960
    } else if level == 68 {
        605039
    } else if level == 69 {
        668057
    } else if level == 70 {
        737634
    } else if level == 71 {
        814452
    } else if level == 72 {
        899264
    } else if level == 73 {
        992902
    } else if level == 74 {
        1096285
    } else if level == 75 {
        1210428
    } else if level == 76 {
        1336450
    } else if level == 77 {
        1475588
    } else if level == 78 {
        1629208
    } else if level == 79 {
        1798815
    } else if level == 80 {
        1986076
    } else if level == 81 {
        2192826
    } else if level == 82 {
        2421095
    } else if level == 83 {
        2673122
    } else if level == 84 {
        2951381
    } else if level == 85 {
        3258602
    } else if level == 86 {
        3597800
    } else if level == 87 {
        3972302
    } else if level == 88 {
        4385785
    } else if level == 89 {
        4842304
    } else if level == 90 {
        5346340
    } else if level == 91 {
        5902840
    } else if level == 92 {
        6517262
    } else if level == 93 {
        7195638
    } else if level == 94 {
        7944623
    } else if level == 95 {
        8771568
    } else if level == 96 {
        9684586
    } else if level == 97 {
        10692638
    } else if level == 98 {
        11805616
    } else if level == 99 {
        13034440
    } else {
        14391170
    }
}

/// Scans upward from `level`, returning the last level at or below 99 whose
/// threshold is within `xp`.
pub open spec fn level_scan(xp: int, level: int) -> int
    decreases 99 - level,
{
    if level >= 99 {
        99
    } else if spec_xp_for_level(level + 1) <= xp {
        level_scan(xp, level + 1)
    } else {
        level
    }
}

/// The largest level in [1, 99] whose threshold is at most `xp`; 1 for any
/// XP below the level-2 threshold and 99 for anything at or past the cap.
pub open spec fn spec_level_from_xp(xp: int) -> int {
    level_scan(xp, 1)
}

/// Cumulative XP needed to hold `level` (0 for levels at or below 1).
pub fn xp_for_level(level: i32) -> (r: i64)
    requires
        level <= 100,
    ensures
        r == spec_xp_for_level(level as int),
{
    if level <= 1 {
        0
    } else if level == 2 {
        83
    } else if level == 3 {
        174
    } else if level == 4 {
        276
    } else if level == 5 {
        389
    } else if level == 6 {
        513
    } else if level == 7 {
        650
    } else if level == 8 {
        802
    } else if level == 9 {
        970
    } else if level == 10 {
        1155
    } else if level == 11 {
        1359
    } else if level == 12 {
        1585
    } else if level == 13 {
        1834
    } else if level == 14 {
        2109
    } else if level == 15 {
        2412
    } else if level == 16 {
        2747
    } else if level == 17 {
        3117
    } else if level == 18 {
        3525
    } else if level == 19 {
        3975
    } else if level == 20 {
        4472
    } else if level == 21 {
        5021
    } else if level == 22 {
        5626
    } else if level == 23 {
        6294
    } else if level == 24 {
        7031
    } else if level == 25 {
        7845
    } else if level == 26 {
        8742
    } else if level == 27 {
        9733
    } else if level == 28 {
        10827
    } else if level == 29 {
        12034
    } else if level == 30 {
        13366
    } else if level == 31 {
        14836
    } else if level == 32 {
        16459
    } else if level == 33 {
        18251
    } else if level == 34 {
        20228
    } else if level == 35 {
        22410
    } else if level == 36 {
        24819
    } else if level == 37 {
        27477
    } else if level == 38 {
        30412
    } else if level == 39 {
        33652
    } else if level == 40 {
        37228
    } else if level == 41 {
        41176
    } else if level == 42 {
        45533
    } else if level == 43 {
        50344
    } else if level == 44 {
        55654
    } else if level == 45 {
        61517
    } else if level == 46 {
        67988
    } else if level == 47 {
        75132
    } else if level == 48 {
        83019
    } else if level == 49 {
        91726
    } else if level == 50 {
        101339
    } else if level == 51 {
        111950
    } else if level == 52 {
        123666
    } else if level == 53 {
        136599
    } else if level == 54 {
        150878
    } else if level == 55 {
        166642
    } else if level == 56 {
        184046
    } else if level == 57 {
        203260
    } else if level == 58 {
        224472
    } else if level == 59 {
        247892
    } else if level == 60 {
        273748
    } else if level == 61 {
        302294
    } else if level == 62 {
        333810
    } else if level == 63 {
        368605
    } else if level == 64 {
        407021
    } else if level == 65 {
        449434
    } else if level == 66 {
        496261
    } else if level == 67 {
        547960
    } else if level == 68 {
        605039
    } else if level == 69 {
        668057
    } else if level == 70 {
        737634
    } else if level == 71 {
        814452
    } else if level == 72 {
        899264
    } else if level == 73 {
        992902
    } else if level == 74 {
        1096285
    } else if level == 75 {
        1210428
    } else if level == 76 {
        1336450
    } else if level == 77 {
        1475588
    } else if level == 78 {
        1629208
    } else if level == 79 {
        1798815
    } else if level == 80 {
        1986076
    } else if level == 81 {
        2192826
    } else if level == 82 {
        2421095
    } else if level == 83 {
        2673122
    } else if level == 84 {
        2951381
    } else if level == 85 {
        3258602
    } else if level == 86 {
        3597800
    } else if level == 87 {
        3972302
    } else if level == 88 {
        4385785
    } else if level == 89 {
        4842304
    } else if level == 90 {
        5346340
    } else if level == 91 {
        5902840
    } else if level == 92 {
        6517262
    } else if level == 93 {
        7195638
    } else if level == 94 {
        7944623
    } else if level == 95 {
        8771568
    } else if level == 96 {
        9684586
    } else if level == 97 {
        10692638
    } else if level == 98 {
        11805616
    } else if level == 99 {
        13034440
    } else {
        14391170
    }
}

/// Strict growth of the curve: every level past the first costs strictly
/// more than its predecessor, over the whole table.
pub proof fn lemma_xp_curve_strictly_increasing(level: int)
    requires
        1 <= level < 100,
    ensures
        spec_xp_for_level(level) < spec_xp_for_level(level + 1),
{
}

/// Weak monotonicity between any two levels of the table.
pub proof fn lemma_xp_curve_monotonic(lo: int, hi: int)
    requires
        1 <= lo <= hi <= 100,
    ensures
        spec_xp_for_level(lo) <= spec_xp_for_level(hi),
    decreases hi - lo,
{
    if lo < hi {
        lemma_xp_curve_strictly_increasing(lo);
        lemma_xp_curve_monotonic(lo + 1, hi);
    }
}

/// A level that brackets `xp` (its own threshold paid, the next one not yet
/// reached) is exactly what the scan returns, from any starting point at or
/// below it.
proof fn lemma_level_scan_pins(xp: int, from: int, r: int)
    requires
        1 <= from <= r <= 99,
        r > 1 ==> spec_xp_for_level(r) <= xp,
        r < 99 ==> xp < spec_xp_for_level(r + 1),
    ensures
        level_scan(xp, from) == r,
    decreases r - from,
{
    if from < r {
        lemma_xp_curve_monotonic(from + 1, r);
        lemma_level_scan_pins(xp, from + 1, r);
    }
}

/// Round trip between the two directions of the curve: the threshold of a
/// level maps back to exactly that level, and one XP short of it maps to the
/// level below.
pub proof fn lemma_level_round_trip(level: int)
    requires
        1 <= level <= 99,
    ensures
        spec_level_from_xp(spec_xp_for_level(level)) == level,
        level > 1 ==> spec_level_from_xp(spec_xp_for_level(level) - 1) == level - 1,
{
    let xp = spec_xp_for_level(level);
    if level < 99 {
        lemma_xp_curve_strictly_increasing(level);
    }
    lemma_level_scan_pins(xp, 1, level);
    if level > 1 {
        lemma_xp_curve_strictly_increasing(level - 1);
        lemma_level_scan_pins(xp - 1, 1, level - 1);
    }
}

/// Saturation: any XP at or past the level-99 threshold, however large,
/// derives level 99.
pub proof fn lemma_level_saturates(xp: int)
    requires
        spec_xp_for_level(99) <= xp,
    ensures
        spec_level_from_xp(xp) == 99,
{
    lemma_xp_curve_monotonic(2, 99);
    lemma_level_scan_pins(xp, 1, 99);
}

/// The scan never leaves the level range it starts in.
pub proof fn lemma_level_scan_bounds(xp: int, l: int)
    requires
        1 <= l <= 99,
    ensures
        l <= level_scan(xp, l) <= 99,
    decreases 99 - l,
{
    if l < 99 && spec_xp_for_level(l + 1) <= xp {
        lemma_level_scan_bounds(xp, l + 1);
    }
}

/// Every derived level lies in [1, 99].
pub proof fn lemma_level_from_xp_bounds(xp: int)
    ensures
        1 <= spec_level_from_xp(xp) <= 99,
{
    lemma_level_scan_bounds(xp, 1);
}

/// The level derived from `xp`: the largest level in [1, 99] whose threshold
/// is at most `xp`.
pub fn level_from_xp(xp: i64) -> (level: i32)
    ensures
        1 <= level <= 99,
        level as int == spec_level_from_xp(xp as int),
{
    let mut level: i32 = 1;
    while level < 99 && xp_for_level(level + 1) <= xp
        invariant
            1 <= level <= 99,
            spec_level_from_xp(xp as int) == level_scan(xp as int, level as int),
        decreases 99 - level,
    {
        level = level + 1;
    }
    level
}

} // verus!
