//! The desk tracker's own progress model: exercise kinds with per-set
//! points, a points-based user level, achievement badges, per-day
//! statistics and the lifetime progress record that ties them together.

use vstd::prelude::*;
use crate::date::{Date, Timestamp};

verus! {

/// A kind of exercise the user can perform.
#[derive(Clone, Copy, Debug, PartialEq, Eq, Hash, Structural)]
pub enum ExerciseType {
    PushUps,
    Squats,
    Planks,
    JumpingJacks,
    Stretches,
}

impl ExerciseType {
    /// All exercise kinds, in display order.
    pub fn all() -> (r: Vec<ExerciseType>)
        ensures
            r@ == seq![
                ExerciseType::PushUps,
                ExerciseType::Squats,
                ExerciseType::Planks,
                ExerciseType::JumpingJacks,
                ExerciseType::Stretches,
            ],
    {
        let mut v: Vec<ExerciseType> = Vec::new();
        v.push(ExerciseType::PushUps);
        v.push(ExerciseType::Squats);
        v.push(ExerciseType::Planks);
        v.push(ExerciseType::JumpingJacks);
        v.push(ExerciseType::Stretches);
        proof {
            assert(v@ =~= seq![
                ExerciseType::PushUps,
                ExerciseType::Squats,
                ExerciseType::Planks,
                ExerciseType::JumpingJacks,
                ExerciseType::Stretches,
            ]);
        }
        v
    }

    /// The display name of the exercise.
    pub open spec fn spec_display_name(self) -> Seq<char> {
        match self {
            ExerciseType::PushUps => "Push-ups"@,
            ExerciseType::Squats => "Squats"@,
            ExerciseType::Planks => "Planks"@,
            ExerciseType::JumpingJacks => "Jumping Jacks"@,
            ExerciseType::Stretches => "Stretches"@,
        }
    }

    /// The display name of the exercise.
    pub fn display_name(&self) -> (r: &'static str)
        ensures
            r@ == self.spec_display_name(),
    {
        match self {
            ExerciseType::PushUps => "Push-ups",
            ExerciseType::Squats => "Squats",
            ExerciseType::Planks => "Planks",
            ExerciseType::JumpingJacks => "Jumping Jacks",
            ExerciseType::Stretches => "Stretches",
        }
    }

    /// The default rep count suggested for the exercise.
    pub open spec fn spec_default_reps(self) -> u32 {
        match self {
            ExerciseType::PushUps => 10,
            ExerciseType::Squats => 15,
            ExerciseType::Planks => 1,
            ExerciseType::JumpingJacks => 20,
            ExerciseType::Stretches => 5,
        }
    }

    /// The default rep count suggested for the exercise.
    pub fn default_reps(&self) -> (r: u32)
        ensures
            r == self.spec_default_reps(),
    {
        match self {
            ExerciseType::PushUps => 10,
            ExerciseType::Squats => 15,
            ExerciseType::Planks => 1,
            ExerciseType::JumpingJacks => 20,
            ExerciseType::Stretches => 5,
        }
    }

    /// Points awarded for one completed set.
    pub open spec fn spec_points_per_set(self) -> u32 {
        match self {
            ExerciseType::PushUps => 10,
            ExerciseType::Squats => 10,
            ExerciseType::Planks => 15,
            ExerciseType::JumpingJacks => 8,
            ExerciseType::Stretches => 5,
        }
    }

    /// Points awarded for one completed set.
    pub fn points_per_set(&self) -> (r: u32)
        ensures
            r == self.spec_points_per_set(),
    {
        match self {
            ExerciseType::PushUps => 10,
            ExerciseType::Squats => 10,
            ExerciseType::Planks => 15,
            ExerciseType::JumpingJacks => 8,
            ExerciseType::Stretches => 5,
        }
    }

    /// A motivational line for the exercise.
    pub fn motivation_message(&self) -> (r: &'static str)
        ensures
            *self is PushUps ==> r@ == "Time for push-ups! Compile some muscle strength!"@,
            *self is Squats ==> r@ == "Squat time! Debug your leg day!"@,
            *self is Planks ==> r@ == "Plank it out! Hold strong like your code!"@,
            *self is JumpingJacks ==> r@ == "Jumping jacks! Jump-start your energy!"@,
            *self is Stretches ==> r@ == "Stretch break! Refactor those tight muscles!"@,
    {
        match self {
            ExerciseType::PushUps => "Time for push-ups! Compile some muscle strength!",
            ExerciseType::Squats => "Squat time! Debug your leg day!",
            ExerciseType::Planks => "Plank it out! Hold strong like your code!",
            ExerciseType::JumpingJacks => "Jumping jacks! Jump-start your energy!",
            ExerciseType::Stretches => "Stretch break! Refactor those tight muscles!",
        }
    }
}

/// One completed exercise entry.
#[derive(Clone, Copy, Debug, PartialEq, Eq, Structural)]
pub struct ExerciseEntry {
    pub exercise_type: ExerciseType,
    pub reps: u32,
    pub completed_at: Timestamp,
    pub points_earned: u32,
}

impl ExerciseEntry {
    /// A new entry completed at `now`, charged with the exercise's
    /// per-set points.
    pub fn new(exercise_type: ExerciseType, reps: u32, now: Timestamp) -> (r: ExerciseEntry)
        ensures
            r == (ExerciseEntry {
                exercise_type,
                reps,
                completed_at: now,
                points_earned: exercise_type.spec_points_per_set(),
            }),
    {
        let points_earned = exercise_type.points_per_set();
        ExerciseEntry { exercise_type, reps, completed_at: now, points_earned }
    }
}

/// The user's level, derived from total points.
#[derive(Clone, Copy, Debug, PartialEq, Eq, Structural)]
pub enum Level {
    NewbieCoder,
    JuniorDev,
    MidLevelEngineer,
    SeniorDev,
    TechLead,
    CTO,
}

impl Level {
    /// The level a point total earns.
    pub open spec fn spec_from_points(points: u32) -> Level {
        if points <= 100 {
            Level::NewbieCoder
        } else if points <= 500 {
            Level::JuniorDev
        } else if points <= 1500 {
            Level::MidLevelEngineer
        } else if points <= 5000 {
            Level::SeniorDev
        } else if points <= 15000 {
            Level::TechLead
        } else {
            Level::CTO
        }
    }

    /// The level a point total earns.
    pub fn from_points(points: u32) -> (r: Level)
        ensures
            r == Level::spec_from_points(points),
    {
        if points <= 100 {
            Level::NewbieCoder
        } else if points <= 500 {
            Level::JuniorDev
        } else if points <= 1500 {
            Level::MidLevelEngineer
        } else if points <= 5000 {
            Level::SeniorDev
        } else if points <= 15000 {
            Level::TechLead
        } else {
            Level::CTO
        }
    }

    /// The display name of the level.
    pub open spec fn spec_display_name(self) -> Seq<char> {
        match self {
            Level::NewbieCoder => "Newbie Coder"@,
            Level::JuniorDev => "Junior Dev"@,
            Level::MidLevelEngineer => "Mid-Level Engineer"@,
            Level::SeniorDev => "Senior Dev"@,
            Level::TechLead => "Tech Lead"@,
            Level::CTO => "CTO"@,
        }
    }

    /// The display name of the level.
    pub fn display_name(&self) -> (r: &'static str)
        ensures
            r@ == self.spec_display_name(),
    {
        match self {
            Level::NewbieCoder => "Newbie Coder",
            Level::JuniorDev => "Junior Dev",
            Level::MidLevelEngineer => "Mid-Level Engineer",
            Level::SeniorDev => "Senior Dev",
            Level::TechLead => "Tech Lead",
            Level::CTO => "CTO",
        }
    }

    /// The numeric rank of the level, 1 through 6.
    pub open spec fn spec_numeric(self) -> u32 {
        match self {
            Level::NewbieCoder => 1,
            Level::JuniorDev => 2,
            Level::MidLevelEngineer => 3,
            Level::SeniorDev => 4,
            Level::TechLead => 5,
            Level::CTO => 6,
        }
    }

    /// The numeric rank of the level, 1 through 6.
    pub fn numeric(&self) -> (r: u32)
        ensures
            r == self.spec_numeric(),
    {
        match self {
            Level::NewbieCoder => 1,
            Level::JuniorDev => 2,
            Level::MidLevelEngineer => 3,
            Level::SeniorDev => 4,
            Level::TechLead => 5,
            Level::CTO => 6,
        }
    }

    /// The point total at which the next level starts, if any.
    pub fn points_for_next(&self) -> (r: Option<u32>)
        ensures
            r == (match *self {
                Level::NewbieCoder => Some(101u32),
                Level::JuniorDev => Some(501u32),
                Level::MidLevelEngineer => Some(1501u32),
                Level::SeniorDev => Some(5001u32),
                Level::TechLead => Some(15001u32),
                Level::CTO => None,
            }),
    {
        match self {
            Level::NewbieCoder => Some(101),
            Level::JuniorDev => Some(501),
            Level::MidLevelEngineer => Some(1501),
            Level::SeniorDev => Some(5001),
            Level::TechLead => Some(15001),
            Level::CTO => None,
        }
    }

    /// The congratulation shown on reaching the level.
    pub open spec fn spec_level_up_message(self) -> Seq<char> {
        match self {
            Level::NewbieCoder => "Welcome to the fitness journey, Newbie Coder!"@,
            Level::JuniorDev => "Level up! You're now a Junior Dev! Keep pushing!"@,
            Level::MidLevelEngineer => "Impressive! Mid-Level Engineer unlocked! Your code stamina grows!"@,
            Level::SeniorDev => "Senior Dev achieved! You're a fitness debugging expert!"@,
            Level::TechLead => "Tech Lead status! Leading by healthy example!"@,
            Level::CTO => "LEGENDARY! CTO level reached! You've mastered the art of fit coding!"@,
        }
    }

    /// The congratulation shown on reaching the level.
    pub fn level_up_message(&self) -> (r: &'static str)
        ensures
            r@ == self.spec_level_up_message(),
    {
        match self {
            Level::NewbieCoder => "Welcome to the fitness journey, Newbie Coder!",
            Level::JuniorDev => "Level up! You're now a Junior Dev! Keep pushing!",
            Level::MidLevelEngineer => "Impressive! Mid-Level Engineer unlocked! Your code stamina grows!",
            Level::SeniorDev => "Senior Dev achieved! You're a fitness debugging expert!",
            Level::TechLead => "Tech Lead status! Leading by healthy example!",
            Level::CTO => "LEGENDARY! CTO level reached! You've mastered the art of fit coding!",
        }
    }
}

/// An achievement badge of the desk tracker.
#[derive(Clone, Copy, Debug, PartialEq, Eq, Hash, Structural)]
pub enum Badge {
    FirstCommit,
    WeekendWarrior,
    MarathonCoder,
    CenturyClub,
    EarlyBird,
    NightOwl,
    Diversified,
    ConsistentShipper,
    ThousandPushUps,
    IronWill,
}

/// The `i`-th badge in display order.
pub open spec fn spec_badge_at(i: int) -> Badge {
    if i == 0 {
        Badge::FirstCommit
    } else if i == 1 {
        Badge::WeekendWarrior
    } else if i == 2 {
        Badge::MarathonCoder
    } else if i == 3 {
        Badge::CenturyClub
    } else if i == 4 {
        Badge::EarlyBird
    } else if i == 5 {
        Badge::NightOwl
    } else if i == 6 {
        Badge::Diversified
    } else if i == 7 {
        Badge::ConsistentShipper
    } else if i == 8 {
        Badge::ThousandPushUps
    } else {
        Badge::IronWill
    }
}

impl Badge {
    /// All badges, in display order.
    pub fn all() -> (r: Vec<Badge>)
        ensures
            r@.len() == 10,
            forall|i: int| 0 <= i < 10 ==> r@[i] == spec_badge_at(i),
    {
        let mut v: Vec<Badge> = Vec::new();
        v.push(Badge::FirstCommit);
        v.push(Badge::WeekendWarrior);
        v.push(Badge::MarathonCoder);
        v.push(Badge::CenturyClub);
        v.push(Badge::EarlyBird);
        v.push(Badge::NightOwl);
        v.push(Badge::Diversified);
        v.push(Badge::ConsistentShipper);
        v.push(Badge::ThousandPushUps);
        v.push(Badge::IronWill);
        v
    }

    /// The display name of the badge.
    pub open spec fn spec_display_name(self) -> Seq<char> {
        match self {
            Badge::FirstCommit => "First Commit"@,
            Badge::WeekendWarrior => "Weekend Warrior"@,
            Badge::MarathonCoder => "Marathon Coder"@,
            Badge::CenturyClub => "Century Club"@,
            Badge::EarlyBird => "Early Bird"@,
            Badge::NightOwl => "Night Owl"@,
            Badge::Diversified => "Diversified Portfolio"@,
            Badge::ConsistentShipper => "Consistent Shipper"@,
            Badge::ThousandPushUps => "1K Push-ups Club"@,
            Badge::IronWill => "Iron Will"@,
        }
    }

    /// The display name of the badge.
    pub fn display_name(&self) -> (r: &'static str)
        ensures
            r@ == self.spec_display_name(),
    {
        match self {
            Badge::FirstCommit => "First Commit",
            Badge::WeekendWarrior => "Weekend Warrior",
            Badge::MarathonCoder => "Marathon Coder",
            Badge::CenturyClub => "Century Club",
            Badge::EarlyBird => "Early Bird",
            Badge::NightOwl => "Night Owl",
            Badge::Diversified => "Diversified Portfolio",
            Badge::ConsistentShipper => "Consistent Shipper",
            Badge::ThousandPushUps => "1K Push-ups Club",
            Badge::IronWill => "Iron Will",
        }
    }

    /// What the badge is earned for.
    pub open spec fn spec_description(self) -> Seq<char> {
        match self {
            Badge::FirstCommit => "Complete your first exercise"@,
            Badge::WeekendWarrior => "Exercise on a weekend"@,
            Badge::MarathonCoder => "Maintain a 7-day exercise streak"@,
            Badge::CenturyClub => "Complete 100 total exercises"@,
            Badge::EarlyBird => "Exercise before 9 AM"@,
            Badge::NightOwl => "Exercise after 9 PM"@,
            Badge::Diversified => "Complete all exercise types"@,
            Badge::ConsistentShipper => "Maintain a 30-day streak"@,
            Badge::ThousandPushUps => "Complete 1000 total push-ups"@,
            Badge::IronWill => "Complete 100 plank sessions"@,
        }
    }

    /// What the badge is earned for.
    pub fn description(&self) -> (r: &'static str)
        ensures
            r@ == self.spec_description(),
    {
        match self {
            Badge::FirstCommit => "Complete your first exercise",
            Badge::WeekendWarrior => "Exercise on a weekend",
            Badge::MarathonCoder => "Maintain a 7-day exercise streak",
            Badge::CenturyClub => "Complete 100 total exercises",
            Badge::EarlyBird => "Exercise before 9 AM",
            Badge::NightOwl => "Exercise after 9 PM",
            Badge::Diversified => "Complete all exercise types",
            Badge::ConsistentShipper => "Maintain a 30-day streak",
            Badge::ThousandPushUps => "Complete 1000 total push-ups",
            Badge::IronWill => "Complete 100 plank sessions",
        }
    }

    /// Whether `v` holds this badge.
    pub fn held_in(&self, v: &Vec<Badge>) -> (b: bool)
        ensures
            b == v@.contains(*self),
    {
        let n = v.len();
        let mut i: usize = 0;
        while i < n
            invariant
                i <= n,
                n == v@.len(),
                forall|j: int| 0 <= j < i ==> v@[j] != *self,
            decreases n - i,
        {
            if v[i] == *self {
                return true;
            }
            i = i + 1;
        }
        false
    }

    /// A short icon tag for the badge.
    pub open spec fn spec_icon(self) -> Seq<char> {
        match self {
            Badge::FirstCommit => "[*]"@,
            Badge::WeekendWarrior => "[W]"@,
            Badge::MarathonCoder => "[M]"@,
            Badge::CenturyClub => "[C]"@,
            Badge::EarlyBird => "[E]"@,
            Badge::NightOwl => "[N]"@,
            Badge::Diversified => "[D]"@,
            Badge::ConsistentShipper => "[S]"@,
            Badge::ThousandPushUps => "[P]"@,
            Badge::IronWill => "[I]"@,
        }
    }

    /// A short icon tag for the badge.
    pub fn icon(&self) -> (r: &'static str)
        ensures
            r@ == self.spec_icon(),
    {
        match self {
            Badge::FirstCommit => "[*]",
            Badge::WeekendWarrior => "[W]",
            Badge::MarathonCoder => "[M]",
            Badge::CenturyClub => "[C]",
            Badge::EarlyBird => "[E]",
            Badge::NightOwl => "[N]",
            Badge::Diversified => "[D]",
            Badge::ConsistentShipper => "[S]",
            Badge::ThousandPushUps => "[P]",
            Badge::IronWill => "[I]",
        }
    }
}

/// The count an association list assigns to an exercise kind (0 when the
/// kind has no entry; the first entry wins).
pub open spec fn spec_assoc_count(counts: Seq<(ExerciseType, u32)>, t: ExerciseType) -> int
    decreases counts.len(),
{
    if counts.len() == 0 {
        0
    } else if counts[0].0 == t {
        counts[0].1 as int
    } else {
        spec_assoc_count(counts.drop_first(), t)
    }
}

/// Looks up the count an association list assigns to an exercise kind.
pub fn assoc_count(counts: &Vec<(ExerciseType, u32)>, t: ExerciseType) -> (r: u32)
    ensures
        r == spec_assoc_count(counts@, t),
{
    let n = counts.len();
    proof {
        assert(counts@.subrange(0, n as int) =~= counts@);
    }
    let mut i: usize = 0;
    while i < n
        invariant
            i <= n,
            n == counts@.len(),
            spec_assoc_count(counts@, t) == spec_assoc_count(counts@.subrange(i as int, n as int), t),
        decreases n - i,
    {
        proof {
            assert(counts@.subrange(i as int, n as int).drop_first() =~= counts@.subrange(
                i as int + 1,
                n as int,
            ));
            assert(counts@.subrange(i as int, n as int)[0] == counts@[i as int]);
        }
        if counts[i].0 == t {
            return counts[i].1;
        }
        i = i + 1;
    }
    proof {
        assert(counts@.subrange(n as int, n as int) =~= Seq::<(ExerciseType, u32)>::empty());
    }
    0
}

fn assoc_add(counts: &mut Vec<(ExerciseType, u32)>, t: ExerciseType, amount: u32)
    requires
        forall|i: int, j: int|
            0 <= i < j < old(counts)@.len() ==> (#[trigger] old(counts)@[i]).0 != (
            #[trigger] old(counts)@[j]).0,
        spec_assoc_count(old(counts)@, t) + amount <= u32::MAX,
    ensures
        forall|i: int, j: int|
            0 <= i < j < final(counts)@.len() ==> (#[trigger] final(counts)@[i]).0 != (
            #[trigger] final(counts)@[j]).0,
        spec_assoc_count(final(counts)@, t) == spec_assoc_count(old(counts)@, t) + amount,
        forall|u: ExerciseType|
            u != t ==> spec_assoc_count(final(counts)@, u) == spec_assoc_count(old(counts)@, u),
{
    let n = counts.len();
    let mut i: usize = 0;
    while i < n
        invariant
            i <= n,
            n == counts@.len(),
            *counts == *old(counts),
            forall|a: int, b: int|
                0 <= a < b < counts@.len() ==> (#[trigger] counts@[a]).0 != (
                #[trigger] counts@[b]).0,
            spec_assoc_count(counts@, t) + amount <= u32::MAX,
            forall|j: int| 0 <= j < i ==> (#[trigger] counts@[j]).0 != t,
        decreases n - i,
    {
        if counts[i].0 == t {
            let cur = counts[i].1;
            proof {
                lemma_assoc_count_at(counts@, t, i as int);
            }
            counts[i] = (t, cur + amount);
            proof {
                lemma_assoc_update(old(counts)@, t, i as int, (cur + amount) as u32);
            }
            return ;
        }
        i = i + 1;
    }
    proof {
        lemma_assoc_absent(counts@, t);
    }
    counts.push((t, amount));
    proof {
        lemma_assoc_push(old(counts)@, t, amount);
    }
}

/// Where the first entry for a kind sits, the count is that entry's.
proof fn lemma_assoc_count_at(counts: Seq<(ExerciseType, u32)>, t: ExerciseType, i: int)
    requires
        0 <= i < counts.len(),
        counts[i].0 == t,
        forall|j: int| 0 <= j < i ==> (#[trigger] counts[j]).0 != t,
    ensures
        spec_assoc_count(counts, t) == counts[i].1,
    decreases i,
{
    if i > 0 {
        lemma_assoc_count_at(counts.drop_first(), t, i - 1);
    }
}

/// Replacing the entry at a kind's first position moves only that kind's
/// count.
proof fn lemma_assoc_update(counts: Seq<(ExerciseType, u32)>, t: ExerciseType, i: int, v: u32)
    requires
        0 <= i < counts.len(),
        counts[i].0 == t,
        forall|j: int| 0 <= j < i ==> (#[trigger] counts[j]).0 != t,
    ensures
        spec_assoc_count(counts.update(i, (t, v)), t) == v,
        forall|u: ExerciseType|
            u != t ==> spec_assoc_count(counts.update(i, (t, v)), u) == spec_assoc_count(counts, u),
    decreases i,
{
    let updated = counts.update(i, (t, v));
    if i == 0 {
        assert(updated[0] == (t, v));
        assert forall|u: ExerciseType| u != t implies spec_assoc_count(updated, u)
            == spec_assoc_count(counts, u) by {
            assert(updated.drop_first() =~= counts.drop_first());
        }
    } else {
        lemma_assoc_update(counts.drop_first(), t, i - 1, v);
        assert(updated.drop_first() =~= counts.drop_first().update(i - 1, (t, v)));
        assert(updated[0] == counts[0]);
        assert(counts[0].0 != t);
        assert(spec_assoc_count(updated, t) == spec_assoc_count(updated.drop_first(), t));
        assert forall|u: ExerciseType| u != t implies spec_assoc_count(updated, u)
            == spec_assoc_count(counts, u) by {
            if counts[0].0 == u {
            } else {
                assert(spec_assoc_count(updated, u) == spec_assoc_count(updated.drop_first(), u));
                assert(spec_assoc_count(counts, u) == spec_assoc_count(counts.drop_first(), u));
            }
        }
    }
}

/// A kind with no entry counts zero.
proof fn lemma_assoc_absent(counts: Seq<(ExerciseType, u32)>, t: ExerciseType)
    requires
        forall|j: int| 0 <= j < counts.len() ==> (#[trigger] counts[j]).0 != t,
    ensures
        spec_assoc_count(counts, t) == 0,
    decreases counts.len(),
{
    if counts.len() > 0 {
        lemma_assoc_absent(counts.drop_first(), t);
    }
}

/// Appending a fresh entry affects only that kind's count.
proof fn lemma_assoc_push(counts: Seq<(ExerciseType, u32)>, t: ExerciseType, v: u32)
    ensures
        forall|u: ExerciseType|
            u != t ==> spec_assoc_count(counts.push((t, v)), u) == spec_assoc_count(counts, u),
        (forall|j: int| 0 <= j < counts.len() ==> (#[trigger] counts[j]).0 != t)
            ==> spec_assoc_count(counts.push((t, v)), t) == v,
    decreases counts.len(),
{
    let pushed = counts.push((t, v));
    if counts.len() == 0 {
        assert(pushed[0] == (t, v));
        assert(pushed.drop_first() =~= Seq::<(ExerciseType, u32)>::empty());
        assert forall|u: ExerciseType| u != t implies spec_assoc_count(pushed, u)
            == spec_assoc_count(counts, u) by {
            assert(spec_assoc_count(pushed, u) == spec_assoc_count(pushed.drop_first(), u));
        }
    } else {
        lemma_assoc_push(counts.drop_first(), t, v);
        assert(pushed.drop_first() =~= counts.drop_first().push((t, v)));
        assert(pushed[0] == counts[0]);
        assert forall|u: ExerciseType| u != t implies spec_assoc_count(pushed, u)
            == spec_assoc_count(counts, u) by {
            if counts[0].0 == u {
            } else {
                assert(spec_assoc_count(pushed, u) == spec_assoc_count(pushed.drop_first(), u));
                assert(spec_assoc_count(counts, u) == spec_assoc_count(counts.drop_first(), u));
            }
        }
        if forall|j: int| 0 <= j < counts.len() ==> (#[trigger] counts[j]).0 != t {
            assert(counts[0].0 != t);
            assert(spec_assoc_count(pushed, t) == spec_assoc_count(pushed.drop_first(), t));
            assert forall|j: int|
                0 <= j < counts.drop_first().len() implies (
            #[trigger] counts.drop_first()[j]).0 != t by {
                assert(counts.drop_first()[j] == counts[j + 1]);
            }
        }
    }
}

/// Statistics for one calendar day.
#[derive(Debug)]
pub struct DailyStats {
    pub date: Date,
    pub exercises: Vec<ExerciseEntry>,
    pub total_points: u32,
    pub exercise_counts: Vec<(ExerciseType, u32)>,
}

impl DailyStats {
    /// One kind appears at most once in the per-day counts, and the entry
    /// list stays countable in `u32`.
    pub open spec fn wf(self) -> bool {
        &&& forall|i: int, j: int|
            0 <= i < j < self.exercise_counts@.len() ==> (#[trigger] self.exercise_counts@[i]).0
                != (#[trigger] self.exercise_counts@[j]).0
        &&& self.exercises@.len() <= u32::MAX
    }

    /// Empty statistics for `date`.
    pub fn new(date: Date) -> (r: DailyStats)
        ensures
            r.date == date,
            r.exercises@.len() == 0,
            r.total_points == 0,
            r.exercise_counts@.len() == 0,
            r.wf(),
    {
        DailyStats { date, exercises: Vec::new(), total_points: 0, exercise_counts: Vec::new() }
    }

    /// Adds one entry to the day: the points total grows by the entry's
    /// points, the entry's kind counts its reps, and the entry itself is
    /// appended.
    pub fn add_exercise(&mut self, entry: ExerciseEntry)
        requires
            old(self).wf(),
            old(self).total_points + entry.points_earned <= u32::MAX,
            spec_assoc_count(old(self).exercise_counts@, entry.exercise_type) + entry.reps
                <= u32::MAX,
            old(self).exercises@.len() < u32::MAX,
        ensures
            final(self).wf(),
            final(self).date == old(self).date,
            final(self).total_points == old(self).total_points + entry.points_earned,
            final(self).exercises@ == old(self).exercises@.push(entry),
            spec_assoc_count(final(self).exercise_counts@, entry.exercise_type)
                == spec_assoc_count(old(self).exercise_counts@, entry.exercise_type) + entry.reps,
            forall|u: ExerciseType|
                u != entry.exercise_type ==> spec_assoc_count(final(self).exercise_counts@, u)
                    == spec_assoc_count(old(self).exercise_counts@, u),
    {
        self.total_points = self.total_points + entry.points_earned;
        assoc_add(&mut self.exercise_counts, entry.exercise_type, entry.reps);
        self.exercises.push(entry);
    }

    /// The number of entries logged this day.
    pub fn total_exercises(&self) -> (r: u32)
        requires
            self.wf(),
        ensures
            r == self.exercises@.len(),
    {
        self.exercises.len() as u32
    }

    /// The reps counted for one kind this day.
    pub fn get_exercise_count(&self, exercise_type: &ExerciseType) -> (r: u32)
        ensures
            r == spec_assoc_count(self.exercise_counts@, *exercise_type),
    {
        assoc_count(&self.exercise_counts, *exercise_type)
    }
}

/// The aggregate numbers a badge rule looks at.
pub ghost struct BadgeMetrics {
    pub total_exercises: int,
    pub streak: int,
    pub hour: int,
    pub is_weekend: bool,
    pub types_completed: int,
    pub pushups: int,
    pub planks: int,
}

/// Whether the `i`-th badge's rule holds of the metrics.
pub open spec fn spec_badge_condition(i: int, m: BadgeMetrics) -> bool {
    if i == 0 {
        m.total_exercises == 1
    } else if i == 1 {
        m.is_weekend
    } else if i == 2 {
        m.streak >= 7
    } else if i == 3 {
        m.total_exercises >= 100
    } else if i == 4 {
        m.hour < 9
    } else if i == 5 {
        m.hour >= 21
    } else if i == 6 {
        m.types_completed >= 5
    } else if i == 7 {
        m.streak >= 30
    } else if i == 8 {
        m.pushups >= 1000
    } else {
        m.planks >= 100
    }
}

/// The badges from position `i` on that are not yet held and whose rules
/// hold, in display order.
pub open spec fn spec_new_badges(have: Seq<Badge>, m: BadgeMetrics, i: int) -> Seq<Badge>
    decreases 10 - i,
{
    if i < 0 || i >= 10 {
        Seq::empty()
    } else {
        (if spec_badge_condition(i, m) && !have.contains(spec_badge_at(i)) {
            seq![spec_badge_at(i)]
        } else {
            Seq::empty()
        }) + spec_new_badges(have, m, i + 1)
    }
}

/// The streak count after one entry on `today`, under the desk tracker's
/// rule: the day after the last active date extends the streak, a longer
/// gap resets it to 1, and any other date (the same day, or an earlier
/// one after a clock anomaly) leaves the count alone; the first entry
/// ever starts at 1.
pub open spec fn spec_desk_streak(cur: int, last: Option<Date>, today: Date) -> int {
    match last {
        None => 1,
        Some(l) => {
            let diff = today.spec_day_number() - l.spec_day_number();
            if diff == 1 {
                cur + 1
            } else if diff > 1 {
                1
            } else {
                cur
            }
        },
    }
}

/// The user's lifetime progress record.
#[derive(Debug)]
pub struct UserProgress {
    pub total_points: u32,
    pub current_level: Level,
    pub current_streak: u32,
    pub longest_streak: u32,
    pub total_exercises: u32,
    pub badges: Vec<Badge>,
    pub daily_history: Vec<DailyStats>,
    pub lifetime_counts: Vec<(ExerciseType, u32)>,
    pub last_exercise_date: Option<Date>,
    pub exercise_types_completed: Vec<ExerciseType>,
}

impl Default for UserProgress {
    /// The empty record: no points, the lowest level, no streak, nothing
    /// logged.
    fn default() -> (r: UserProgress)
        ensures
            r.total_points == 0,
            r.current_level == Level::NewbieCoder,
            r.current_streak == 0,
            r.longest_streak == 0,
            r.total_exercises == 0,
            r.badges@.len() == 0,
            r.daily_history@.len() == 0,
            r.lifetime_counts@.len() == 0,
            r.last_exercise_date is None,
            r.exercise_types_completed@.len() == 0,
            r.wf(),
    {
        UserProgress {
            total_points: 0,
            current_level: Level::NewbieCoder,
            current_streak: 0,
            longest_streak: 0,
            total_exercises: 0,
            badges: Vec::new(),
            daily_history: Vec::new(),
            lifetime_counts: Vec::new(),
            last_exercise_date: None,
            exercise_types_completed: Vec::new(),
        }
    }
}

impl UserProgress {
    /// Well-formedness of the record: consistent streak counts, at most
    /// one history entry per date and one counter per kind, no badge held
    /// twice, and dates valid.
    pub open spec fn wf(self) -> bool {
        &&& self.current_streak <= self.longest_streak
        &&& (self.last_exercise_date matches Some(d) ==> d.wf())
        &&& forall|i: int, j: int|
            0 <= i < j < self.daily_history@.len() ==> (#[trigger] self.daily_history@[i]).date
                != (#[trigger] self.daily_history@[j]).date
        &&& forall|i: int| 0 <= i < self.daily_history@.len() ==> (
        #[trigger] self.daily_history@[i]).wf()
        &&& forall|i: int, j: int|
            0 <= i < j < self.lifetime_counts@.len() ==> (#[trigger] self.lifetime_counts@[i]).0
                != (#[trigger] self.lifetime_counts@[j]).0
        &&& forall|i: int, j: int|
            0 <= i < j < self.badges@.len() ==> #[trigger] self.badges@[i]
                != #[trigger] self.badges@[j]
    }

    /// Whether the history holds an entry for `d`.
    pub open spec fn has_day(self, d: Date) -> bool {
        exists|i: int|
            0 <= i < self.daily_history@.len() && (#[trigger] self.daily_history@[i]).date == d
    }

    /// The history index of the entry for `d` (meaningful only when
    /// `has_day` holds; dates are unique under `wf`).
    pub open spec fn day_index(self, d: Date) -> int {
        choose|i: int|
            0 <= i < self.daily_history@.len() && (#[trigger] self.daily_history@[i]).date == d
    }

    /// The badge metrics the record presents after an entry at `now` has
    /// been absorbed, given the streak it produced.
    pub open spec fn spec_metrics(self, now: Timestamp) -> BadgeMetrics {
        BadgeMetrics {
            total_exercises: self.total_exercises as int,
            streak: self.current_streak as int,
            hour: now.second_of_day as int / 3600,
            is_weekend: now.date.spec_weekday_from_monday() >= 5,
            types_completed: self.exercise_types_completed@.len() as int,
            pushups: spec_assoc_count(self.lifetime_counts@, ExerciseType::PushUps),
            planks: spec_assoc_count(self.lifetime_counts@, ExerciseType::Planks),
        }
    }

    /// Whether one more entry of `reps` for `exercise_type` stays within
    /// every counter's range.
    pub open spec fn spec_can_record(self, exercise_type: ExerciseType, reps: u32, now: Timestamp)
        -> bool {
        &&& self.total_points + exercise_type.spec_points_per_set() <= u32::MAX
        &&& self.total_exercises < u32::MAX
        &&& self.current_streak < u32::MAX
        &&& spec_assoc_count(self.lifetime_counts@, exercise_type) + reps <= u32::MAX
        &&& (self.has_day(now.date) ==> {
            let day = self.daily_history@[self.day_index(now.date)];
            &&& day.total_points + exercise_type.spec_points_per_set() <= u32::MAX
            &&& spec_assoc_count(day.exercise_counts@, exercise_type) + reps <= u32::MAX
            &&& day.exercises@.len() < u32::MAX
        })
    }

    /// Records one completed exercise at local time `now`: the entry joins
    /// the day's statistics and the lifetime totals, the streak advances
    /// under the desk tracker's rule, the level is re-derived from the new
    /// point total, and every badge whose rule now holds and is not yet
    /// held is granted.  Returns the badges granted by this call, in
    /// display order.
    pub fn record_exercise(&mut self, exercise_type: ExerciseType, reps: u32, now: Timestamp) -> (r:
        Vec<Badge>)
        requires
            old(self).wf(),
            now.wf(),
            old(self).spec_can_record(exercise_type, reps, now),
        ensures
            final(self).wf(),
            final(self).total_points == old(self).total_points
                + exercise_type.spec_points_per_set(),
            final(self).total_exercises == old(self).total_exercises + 1,
            final(self).current_level == Level::spec_from_points(final(self).total_points),
            final(self).current_streak == spec_desk_streak(
                old(self).current_streak as int,
                old(self).last_exercise_date,
                now.date,
            ),
            final(self).longest_streak == (if final(self).current_streak > old(
                self,
            ).longest_streak {
                final(self).current_streak as int
            } else {
                old(self).longest_streak as int
            }),
            final(self).last_exercise_date == Some(now.date),
            spec_assoc_count(final(self).lifetime_counts@, exercise_type) == spec_assoc_count(
                old(self).lifetime_counts@,
                exercise_type,
            ) + reps,
            forall|u: ExerciseType|
                u != exercise_type ==> spec_assoc_count(final(self).lifetime_counts@, u)
                    == spec_assoc_count(old(self).lifetime_counts@, u),
            final(self).exercise_types_completed@ == (if old(
                self,
            ).exercise_types_completed@.contains(exercise_type) {
                old(self).exercise_types_completed@
            } else {
                old(self).exercise_types_completed@.push(exercise_type)
            }),
            old(self).has_day(now.date) ==> {
                let i = old(self).day_index(now.date);
                let oday = old(self).daily_history@[i];
                let nday = final(self).daily_history@[i];
                &&& final(self).daily_history@.len() == old(self).daily_history@.len()
                &&& (forall|j: int|
                    0 <= j < old(self).daily_history@.len() && j != i
                        ==> final(self).daily_history@[j] == old(self).daily_history@[j])
                &&& nday.date == now.date
                &&& nday.total_points == oday.total_points + exercise_type.spec_points_per_set()
                &&& nday.exercises@ == oday.exercises@.push(
                    ExerciseEntry {
                        exercise_type,
                        reps,
                        completed_at: now,
                        points_earned: exercise_type.spec_points_per_set(),
                    },
                )
                &&& spec_assoc_count(nday.exercise_counts@, exercise_type) == spec_assoc_count(
                    oday.exercise_counts@,
                    exercise_type,
                ) + reps
            },
            !old(self).has_day(now.date) ==> {
                let nday = final(self).daily_history@.last();
                &&& final(self).daily_history@.len() == old(self).daily_history@.len() + 1
                &&& final(self).daily_history@.subrange(0, old(self).daily_history@.len() as int)
                    == old(self).daily_history@
                &&& nday.date == now.date
                &&& nday.total_points == exercise_type.spec_points_per_set()
                &&& nday.exercises@ == seq![
                    ExerciseEntry {
                        exercise_type,
                        reps,
                        completed_at: now,
                        points_earned: exercise_type.spec_points_per_set(),
                    },
                ]
                &&& spec_assoc_count(nday.exercise_counts@, exercise_type) == reps
            },
            final(self).badges@ == old(self).badges@ + spec_new_badges(
                old(self).badges@,
                final(self).spec_metrics(now),
                0,
            ),
            r@ == spec_new_badges(old(self).badges@, final(self).spec_metrics(now), 0),
    {
        let entry = ExerciseEntry::new(exercise_type, reps, now);
        let today = now.date;
        let hour: u32 = now.second_of_day / 3600;
        let is_weekend = today.weekday_from_monday() >= 5;

        // Day statistics: extend today's entry or open a fresh one.
        let n_days = self.daily_history.len();
        let mut found = false;
        let mut idx: usize = 0;
        let mut i: usize = 0;
        while i < n_days
            invariant
                *self == *old(self),
                i <= n_days,
                n_days == self.daily_history@.len(),
                !found ==> forall|j: int|
                    0 <= j < i ==> (#[trigger] self.daily_history@[j]).date != today,
                found ==> idx < n_days && self.daily_history@[idx as int].date == today,
            decreases n_days - i,
        {
            if !found && self.daily_history[i].date == today {
                found = true;
                idx = i;
            }
            i = i + 1;
        }
        let ghost pre = *self;
        proof {
            if found {
                assert(self.has_day(today));
                let c = self.day_index(today);
                assert(self.daily_history@[c].date == today);
                if c != idx as int {
                    assert(false);
                }
            } else {
                assert(!self.has_day(today));
            }
        }
        if found {
            self.daily_history[idx].add_exercise(entry);
        } else {
            let mut day = DailyStats::new(today);
            day.add_exercise(entry);
            self.daily_history.push(day);
        }

        // Lifetime totals.
        self.total_points = self.total_points + entry.points_earned;
        self.total_exercises = self.total_exercises + 1;
        assoc_add(&mut self.lifetime_counts, exercise_type, reps);
        if !type_held(&self.exercise_types_completed, exercise_type) {
            self.exercise_types_completed.push(exercise_type);
        }

        // Streak.
        match &self.last_exercise_date {
            Some(last) => {
                let diff = today.day_number() - last.day_number();
                if diff == 1 {
                    self.current_streak = self.current_streak + 1;
                } else if diff > 1 {
                    self.current_streak = 1;
                }
            },
            None => {
                self.current_streak = 1;
            },
        }
        self.last_exercise_date = Some(today);
        if self.current_streak > self.longest_streak {
            self.longest_streak = self.current_streak;
        }

        // Level.
        self.current_level = Level::from_points(self.total_points);

        // Badges.
        let ghost have = pre.badges@;
        let ghost metrics = BadgeMetrics {
            total_exercises: self.total_exercises as int,
            streak: self.current_streak as int,
            hour: hour as int,
            is_weekend: is_weekend,
            types_completed: self.exercise_types_completed@.len() as int,
            pushups: spec_assoc_count(self.lifetime_counts@, ExerciseType::PushUps),
            planks: spec_assoc_count(self.lifetime_counts@, ExerciseType::Planks),
        };
        let pushups_total = assoc_count(&self.lifetime_counts, ExerciseType::PushUps);
        let planks_total = assoc_count(&self.lifetime_counts, ExerciseType::Planks);
        let types_count = self.exercise_types_completed.len();
        let ghost mid = *self;
        let mut new_badges: Vec<Badge> = Vec::new();
        let mut b: usize = 0;
        while b < 10
            invariant
                b <= 10,
                self.total_points == mid.total_points,
                self.current_level == mid.current_level,
                self.current_streak == mid.current_streak,
                self.longest_streak == mid.longest_streak,
                self.total_exercises == mid.total_exercises,
                self.daily_history == mid.daily_history,
                self.lifetime_counts == mid.lifetime_counts,
                self.last_exercise_date == mid.last_exercise_date,
                self.exercise_types_completed == mid.exercise_types_completed,
                self.badges@ == have + new_badges@,
                forall|i2: int, j2: int|
                    0 <= i2 < j2 < self.badges@.len() ==> #[trigger] self.badges@[i2]
                        != #[trigger] self.badges@[j2],
                forall|k: int|
                    0 <= k < new_badges@.len() ==> exists|i2: int|
                        0 <= i2 < b && #[trigger] new_badges@[k] == spec_badge_at(i2),
                spec_new_badges(have, metrics, 0) == new_badges@ + spec_new_badges(
                    have,
                    metrics,
                    b as int,
                ),
                metrics.total_exercises == self.total_exercises,
                metrics.streak == self.current_streak,
                metrics.hour == hour,
                metrics.is_weekend == is_weekend,
                metrics.types_completed == types_count,
                types_count == self.exercise_types_completed@.len(),
                metrics.pushups == pushups_total,
                metrics.planks == planks_total,
            decreases 10 - b,
        {
            let badge = badge_at(b);
            let holds: bool = if b == 0 {
                self.total_exercises == 1
            } else if b == 1 {
                is_weekend
            } else if b == 2 {
                self.current_streak >= 7
            } else if b == 3 {
                self.total_exercises >= 100
            } else if b == 4 {
                hour < 9
            } else if b == 5 {
                hour >= 21
            } else if b == 6 {
                types_count >= 5
            } else if b == 7 {
                self.current_streak >= 30
            } else if b == 8 {
                pushups_total >= 1000
            } else {
                planks_total >= 100
            };
            let ghost prev_new = new_badges@;
            if holds && !badge.held_in(&self.badges) {
                proof {
                    assert forall|k: int| 0 <= k < prev_new.len() implies prev_new[k] != badge by {
                        let i2 = choose|i2: int| 0 <= i2 < b && prev_new[k] == spec_badge_at(i2);
                    }
                    assert(!have.contains(badge)) by {
                        if have.contains(badge) {
                            let w = choose|w: int| 0 <= w < have.len() && have[w] == badge;
                            assert(self.badges@[w] == badge);
                        }
                    }
                }
                new_badges.push(badge);
                self.badges.push(badge);
                proof {
                    assert(self.badges@ =~= have + new_badges@);
                }
            } else {
                proof {
                    if holds {
                        assert(have.contains(badge)) by {
                            let w = choose|w: int|
                                0 <= w < self.badges@.len() && self.badges@[w] == badge;
                            if w < have.len() {
                            } else {
                                let i2 = choose|i2: int|
                                    0 <= i2 < b && prev_new[w - have.len()] == spec_badge_at(i2);
                                assert(false);
                            }
                        }
                    }
                }
            }
            b = b + 1;
            proof {
                let ghost contribution: Seq<Badge> = if spec_badge_condition(b - 1, metrics)
                    && !have.contains(spec_badge_at(b - 1)) {
                    seq![spec_badge_at(b - 1)]
                } else {
                    Seq::empty()
                };
                assert(new_badges@ =~= prev_new + contribution);
                assert(spec_new_badges(have, metrics, b - 1) == contribution + spec_new_badges(
                    have,
                    metrics,
                    b as int,
                ));
                assert(prev_new + (contribution + spec_new_badges(have, metrics, b as int)) =~= (
                prev_new + contribution) + spec_new_badges(have, metrics, b as int));
            }
        }
        proof {
            assert(spec_new_badges(have, metrics, 10) =~= Seq::<Badge>::empty());
            assert(new_badges@ =~= new_badges@ + spec_new_badges(have, metrics, 10));
            assert(metrics == final(self).spec_metrics(now));
        }
        new_badges
    }

    /// Today's statistics, if anything was logged on `today`.
    pub fn today_stats(&self, today: Date) -> (r: Option<&DailyStats>)
        requires
            self.wf(),
        ensures
            self.has_day(today) ==> (r matches Some(d) && *d == self.daily_history@[self.day_index(
                today,
            )]),
            !self.has_day(today) ==> r is None,
    {
        let n = self.daily_history.len();
        let mut i: usize = 0;
        while i < n
            invariant
                self.wf(),
                i <= n,
                n == self.daily_history@.len(),
                forall|j: int| 0 <= j < i ==> (#[trigger] self.daily_history@[j]).date != today,
            decreases n - i,
        {
            if self.daily_history[i].date == today {
                proof {
                    assert(self.has_day(today));
                    let c = self.day_index(today);
                    assert(self.daily_history@[c].date == today);
                    if c != i as int {
                        assert(false);
                    }
                }
                return Some(&self.daily_history[i]);
            }
            i = i + 1;
        }
        None
    }
}

fn type_held(v: &Vec<ExerciseType>, t: ExerciseType) -> (b: bool)
    ensures
        b == v@.contains(t),
{
    let n = v.len();
    let mut i: usize = 0;
    while i < n
        invariant
            i <= n,
            n == v@.len(),
            forall|j: int| 0 <= j < i ==> v@[j] != t,
        decreases n - i,
    {
        if v[i] == t {
            return true;
        }
        i = i + 1;
    }
    false
}

fn badge_at(i: usize) -> (r: Badge)
    requires
        i < 10,
    ensures
        r == spec_badge_at(i as int),
{
    if i == 0 {
        Badge::FirstCommit
    } else if i == 1 {
        Badge::WeekendWarrior
    } else if i == 2 {
        Badge::MarathonCoder
    } else if i == 3 {
        Badge::CenturyClub
    } else if i == 4 {
        Badge::EarlyBird
    } else if i == 5 {
        Badge::NightOwl
    } else if i == 6 {
        Badge::Diversified
    } else if i == 7 {
        Badge::ConsistentShipper
    } else if i == 8 {
        Badge::ThousandPushUps
    } else {
        Badge::IronWill
    }
}

} // verus!
