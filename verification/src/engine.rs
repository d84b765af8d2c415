//! The progress engine: the owned aggregate of exercises, the append-only
//! exercise log, the streak record, the achievement table and the settings,
//! together with the single write path that charges XP, advances the
//! streak, evaluates the achievement rules and reports the outcome as one
//! atomic transaction.
//!
//! Durability is a collaborator, not a concern of this module: the caller
//! owns the durable copy of the state and reports whether its write
//! succeeded; a failed write leaves the in-memory aggregate exactly as it
//! was.

use vstd::prelude::*;
use crate::curve::{level_from_xp, spec_level_from_xp};
use crate::date::{Date, Timestamp};
use crate::streak::{spec_streak_update, streak_update, StreakState};
use crate::rules::{check_achievements, spec_distinct_upto, spec_flagship_upto, spec_newly_from, spec_rule_holds, RuleSnapshot};
use crate::text::{contains_ignore_case, spec_contains_seq, spec_lower, str_eq, str_eq_ignore_case};

verus! {

/// One exercise of the catalog, with its per-rep XP value and its private
/// XP ledger and derived level.
#[derive(Debug)]
pub struct Exercise {
    pub id: i64,
    pub name: String,
    pub xp_per_rep: i32,
    pub total_xp: i64,
    pub current_level: i32,
    pub icon: Option<String>,
    pub created_at: String,
}

/// One logged exercise event; append-only ground truth for every derived
/// aggregate.
#[derive(Debug)]
pub struct ExerciseLog {
    pub id: i64,
    pub exercise_id: i64,
    pub reps: i32,
    pub xp_earned: i32,
    pub logged_at: Timestamp,
}

/// The aggregate statistics snapshot handed to readers.
#[derive(Debug)]
pub struct UserStats {
    pub total_xp: i64,
    pub total_level: i32,
    pub current_streak: i32,
    pub longest_streak: i32,
    pub last_exercise_date: Option<Date>,
    pub exercise_count: i32,
}

/// One achievement: a fixed definition plus the timestamp of its unlock,
/// absent until the first time its rule holds and permanent afterwards.
#[derive(Debug)]
pub struct Achievement {
    pub id: i64,
    pub key: String,
    pub name: String,
    pub description: Option<String>,
    pub icon: Option<String>,
    pub unlocked_at: Option<Timestamp>,
}

/// User-tunable settings.
#[derive(Debug)]
pub struct Settings {
    pub reminder_enabled: bool,
    pub reminder_interval_minutes: i32,
    pub sound_enabled: bool,
    pub daily_goal_xp: i32,
    pub theme_mode: Option<String>,
}

/// The summary returned by one successful progress transaction.
#[derive(Debug)]
pub struct LogExerciseResult {
    pub xp_earned: i32,
    pub new_exercise_level: i32,
    pub leveled_up: bool,
    pub newly_unlocked: Vec<String>,
}

/// The three ways an engine call can be refused.
#[derive(Clone, Copy, Debug, PartialEq, Eq, Structural)]
pub enum EngineError {
    /// An exercise reference did not resolve.
    NotFound,
    /// An input was rejected before any mutation: non-positive reps, a
    /// value that cannot be represented, or an invalid import payload.
    InvalidInput,
    /// The durable write failed; the transaction was rejected in full.
    PersistenceFailure,
}

impl EngineError {
    /// A short human-readable description of the error.
    pub fn message(&self) -> (r: &'static str)
        ensures
            *self is NotFound ==> r@ == "no matching exercise"@,
            *self is InvalidInput ==> r@ == "invalid input"@,
            *self is PersistenceFailure ==> r@ == "persistence failure"@,
    {
        match self {
            EngineError::NotFound => "no matching exercise",
            EngineError::InvalidInput => "invalid input",
            EngineError::PersistenceFailure => "persistence failure",
        }
    }
}

/// The number of exercises the catalog is seeded with.
pub open spec fn seed_len() -> int {
    28
}

/// The name of the `i`-th seeded exercise.
pub open spec fn spec_seed_name(i: int) -> Seq<char> {
    if i == 0 {
        "Pushups"@
    } else if i == 1 {
        "Arm Circles"@
    } else if i == 2 {
        "Sit-ups"@
    } else if i == 3 {
        "Crunches"@
    } else if i == 4 {
        "Plank (10 sec)"@
    } else if i == 5 {
        "Leg Raises"@
    } else if i == 6 {
        "Mountain Climbers"@
    } else if i == 7 {
        "Squats"@
    } else if i == 8 {
        "Lunges"@
    } else if i == 9 {
        "Calf Raises"@
    } else if i == 10 {
        "Wall Sit (10 sec)"@
    } else if i == 11 {
        "Side Leg Raises"@
    } else if i == 12 {
        "Step-ups"@
    } else if i == 13 {
        "Jumping Jacks"@
    } else if i == 14 {
        "High Knees"@
    } else if i == 15 {
        "Burpees"@
    } else if i == 16 {
        "Stair Climbs"@
    } else if i == 17 {
        "Marching in Place"@
    } else if i == 18 {
        "Neck Stretches"@
    } else if i == 19 {
        "Shoulder Shrugs"@
    } else if i == 20 {
        "Wrist Circles"@
    } else if i == 21 {
        "Toe Touches"@
    } else if i == 22 {
        "Hip Circles"@
    } else if i == 23 {
        "Torso Twists"@
    } else if i == 24 {
        "Ankle Rotations"@
    } else if i == 25 {
        "Cat-Cow Stretch"@
    } else if i == 26 {
        "Chest Opener"@
    } else {
        "Quad Stretch"@
    }
}

/// The per-rep XP value of the `i`-th seeded exercise.
pub open spec fn spec_seed_xp(i: int) -> int {
    if i == 0 {
        10
    } else if i == 1 {
        3
    } else if i == 2 {
        8
    } else if i == 3 {
        6
    } else if i == 4 {
        5
    } else if i == 5 {
        8
    } else if i == 6 {
        10
    } else if i == 7 {
        8
    } else if i == 8 {
        10
    } else if i == 9 {
        4
    } else if i == 10 {
        4
    } else if i == 11 {
        6
    } else if i == 12 {
        8
    } else if i == 13 {
        6
    } else if i == 14 {
        6
    } else if i == 15 {
        15
    } else if i == 16 {
        10
    } else if i == 17 {
        4
    } else if i == 18 {
        2
    } else if i == 19 {
        3
    } else if i == 20 {
        2
    } else if i == 21 {
        4
    } else if i == 22 {
        3
    } else if i == 23 {
        3
    } else if i == 24 {
        2
    } else if i == 25 {
        3
    } else if i == 26 {
        3
    } else {
        3
    }
}

/// The icon tag of the `i`-th seeded exercise.
pub open spec fn spec_seed_icon(i: int) -> Seq<char> {
    if i == 0 {
        "fitness_center"@
    } else if 1 <= i <= 6 {
        "self_improvement"@
    } else if 7 <= i <= 12 {
        "fitness_center"@
    } else if 13 <= i <= 17 {
        "directions_run"@
    } else {
        "accessibility"@
    }
}

/// The stable key of the `i`-th achievement.
pub open spec fn spec_achievement_key(i: int) -> Seq<char> {
    if i == 0 {
        "first-exercise"@
    } else if i == 1 {
        "century"@
    } else if i == 2 {
        "week-streak"@
    } else if i == 3 {
        "month-streak"@
    } else if i == 4 {
        "skill-10"@
    } else if i == 5 {
        "skill-25"@
    } else if i == 6 {
        "skill-50"@
    } else if i == 7 {
        "total-100"@
    } else {
        "variety"@
    }
}

/// The display name of the `i`-th achievement.
pub open spec fn spec_achievement_name(i: int) -> Seq<char> {
    if i == 0 {
        "First Steps"@
    } else if i == 1 {
        "Century"@
    } else if i == 2 {
        "Dedicated"@
    } else if i == 3 {
        "Committed"@
    } else if i == 4 {
        "Rising Star"@
    } else if i == 5 {
        "Fitness Warrior"@
    } else if i == 6 {
        "Legend"@
    } else if i == 7 {
        "Century Club"@
    } else {
        "Well-Rounded"@
    }
}

/// The description of the `i`-th achievement.
pub open spec fn spec_achievement_desc(i: int) -> Seq<char> {
    if i == 0 {
        "Complete your first exercise"@
    } else if i == 1 {
        "Complete 100 pushups in a single day"@
    } else if i == 2 {
        "Maintain a 7-day exercise streak"@
    } else if i == 3 {
        "Maintain a 30-day exercise streak"@
    } else if i == 4 {
        "Get any exercise to level 10"@
    } else if i == 5 {
        "Get any exercise to level 25"@
    } else if i == 6 {
        "Get any exercise to level 50"@
    } else if i == 7 {
        "Reach 100 total level"@
    } else {
        "Log 5 different types of exercises"@
    }
}

impl Exercise {
    /// Per-exercise well-formedness: a positive per-rep value, a
    /// non-negative ledger, and a level that always equals the one derived
    /// from the ledger.
    pub open spec fn wf(self) -> bool {
        &&& 1 <= self.id
        &&& 1 <= self.xp_per_rep
        &&& 0 <= self.total_xp
        &&& self.current_level == spec_level_from_xp(self.total_xp as int)
    }

    /// A field-for-field copy.
    pub fn duplicate(&self) -> (r: Exercise)
        ensures
            r == *self,
    {
        Exercise {
            id: self.id,
            name: self.name.clone(),
            xp_per_rep: self.xp_per_rep,
            total_xp: self.total_xp,
            current_level: self.current_level,
            icon: match &self.icon {
                Some(s) => Some(s.clone()),
                None => None,
            },
            created_at: self.created_at.clone(),
        }
    }
}

impl ExerciseLog {
    /// Per-entry well-formedness: positive reps, a non-negative XP charge
    /// and a valid timestamp.
    pub open spec fn wf(self) -> bool {
        &&& 1 <= self.id
        &&& 1 <= self.reps
        &&& 0 <= self.xp_earned
        &&& self.logged_at.wf()
    }

    /// A field-for-field copy.
    pub fn duplicate(&self) -> (r: ExerciseLog)
        ensures
            r == *self,
    {
        ExerciseLog {
            id: self.id,
            exercise_id: self.exercise_id,
            reps: self.reps,
            xp_earned: self.xp_earned,
            logged_at: self.logged_at,
        }
    }
}

impl Achievement {
    /// A field-for-field copy.
    pub fn duplicate(&self) -> (r: Achievement)
        ensures
            r == *self,
    {
        Achievement {
            id: self.id,
            key: self.key.clone(),
            name: self.name.clone(),
            description: match &self.description {
                Some(s) => Some(s.clone()),
                None => None,
            },
            icon: match &self.icon {
                Some(s) => Some(s.clone()),
                None => None,
            },
            unlocked_at: self.unlocked_at,
        }
    }
}

impl Settings {
    /// A field-for-field copy.
    pub fn duplicate(&self) -> (r: Settings)
        ensures
            r == *self,
    {
        Settings {
            reminder_enabled: self.reminder_enabled,
            reminder_interval_minutes: self.reminder_interval_minutes,
            sound_enabled: self.sound_enabled,
            daily_goal_xp: self.daily_goal_xp,
            theme_mode: match &self.theme_mode {
                Some(s) => Some(s.clone()),
                None => None,
            },
        }
    }
}

/// Sum of the XP ledgers of a catalog prefix.
pub open spec fn spec_total_xp(exs: Seq<Exercise>) -> int
    decreases exs.len(),
{
    if exs.len() == 0 {
        0
    } else {
        spec_total_xp(exs.drop_last()) + exs.last().total_xp
    }
}

/// Sum of the levels of a catalog prefix.
pub open spec fn spec_total_level(exs: Seq<Exercise>) -> int
    decreases exs.len(),
{
    if exs.len() == 0 {
        0
    } else {
        spec_total_level(exs.drop_last()) + exs.last().current_level
    }
}

/// The whole engine state: the one owned aggregate that the progress
/// transaction mutates.  Durable storage holds a copy of exactly this.
#[derive(Debug)]
pub struct EngineState {
    pub exercises: Vec<Exercise>,
    pub logs: Vec<ExerciseLog>,
    pub streak: StreakState,
    pub achievements: Vec<Achievement>,
    pub settings: Settings,
    pub next_exercise_id: i64,
    pub next_log_id: i64,
}

impl EngineState {
    /// Whether some catalog entry carries `id`.
    pub open spec fn has_exercise(self, id: i64) -> bool {
        exists|i: int| 0 <= i < self.exercises@.len() && #[trigger] self.exercises@[i].id == id
    }

    /// The catalog index of the entry carrying `id` (meaningful only when
    /// `has_exercise` holds; ids are unique under `wf`).
    pub open spec fn exercise_index(self, id: i64) -> int {
        choose|i: int| 0 <= i < self.exercises@.len() && #[trigger] self.exercises@[i].id == id
    }

    /// Whether the catalog entry at a position matches the query exactly,
    /// up to ASCII case.
    pub open spec fn exact_match_at(self, q: Seq<char>, i: int) -> bool {
        spec_lower(self.exercises@[i].name@) == spec_lower(q)
    }

    /// Whether the query occurs inside the name of the catalog entry at a
    /// position, up to ASCII case.
    pub open spec fn partial_match_at(self, q: Seq<char>, i: int) -> bool {
        spec_contains_seq(spec_lower(self.exercises@[i].name@), spec_lower(q))
    }

    /// Well-formedness of the aggregate: each entry valid, ids unique and
    /// below the id counters, every log referring to a live exercise, the
    /// streak record valid, the achievement table carrying exactly the
    /// nine fixed definitions, and the totals small enough that every
    /// derived aggregate fits its machine type.
    pub open spec fn wf(self) -> bool {
        &&& self.exercises@.len() <= 10000000
        &&& self.logs@.len() <= 100000000
        &&& spec_total_xp(self.exercises@) <= i64::MAX
        &&& forall|i: int|
            0 <= i < self.exercises@.len() ==> (#[trigger] self.exercises@[i]).wf()
                && self.exercises@[i].id < self.next_exercise_id
        &&& forall|i: int, j: int|
            0 <= i < j < self.exercises@.len() ==> #[trigger] self.exercises@[i].id
                != #[trigger] self.exercises@[j].id
        &&& forall|i: int|
            0 <= i < self.logs@.len() ==> (#[trigger] self.logs@[i]).wf() && self.logs@[i].id
                < self.next_log_id && self.has_exercise(self.logs@[i].exercise_id)
        &&& forall|i: int, j: int|
            0 <= i < j < self.logs@.len() ==> #[trigger] self.logs@[i].id
                != #[trigger] self.logs@[j].id
        &&& self.streak.wf()
        &&& self.achievements@.len() == 9
        &&& forall|i: int|
            0 <= i < 9 ==> {
                let a = #[trigger] self.achievements@[i];
                &&& a.id == i + 1
                &&& a.key@ == spec_achievement_key(i)
                &&& a.name@ == spec_achievement_name(i)
                &&& (a.description matches Some(d) && d@ == spec_achievement_desc(i))
                &&& a.icon is None
                &&& (a.unlocked_at matches Some(t) ==> t.wf())
            }
        &&& 1 <= self.next_exercise_id
        &&& 1 <= self.next_log_id
    }
}

/// Sums of non-negative ledgers are non-negative.
pub proof fn lemma_total_xp_nonneg(exs: Seq<Exercise>)
    requires
        forall|i: int| 0 <= i < exs.len() ==> 0 <= (#[trigger] exs[i]).total_xp,
    ensures
        0 <= spec_total_xp(exs),
    decreases exs.len(),
{
    if exs.len() > 0 {
        lemma_total_xp_nonneg(exs.drop_last());
    }
}

/// A prefix of the catalog never sums past the whole catalog.
pub proof fn lemma_total_xp_prefix_le(exs: Seq<Exercise>, n: int)
    requires
        0 <= n <= exs.len(),
        forall|i: int| 0 <= i < exs.len() ==> 0 <= (#[trigger] exs[i]).total_xp,
    ensures
        spec_total_xp(exs.subrange(0, n)) <= spec_total_xp(exs),
    decreases exs.len() - n,
{
    if n == exs.len() {
        assert(exs.subrange(0, n) =~= exs);
    } else {
        lemma_total_xp_prefix_le(exs, n + 1);
        assert(exs.subrange(0, n + 1).drop_last() =~= exs.subrange(0, n));
    }
}

/// One element never exceeds the sum of a non-negative catalog.
pub proof fn lemma_total_xp_elem_le(exs: Seq<Exercise>, i: int)
    requires
        0 <= i < exs.len(),
        forall|j: int| 0 <= j < exs.len() ==> 0 <= (#[trigger] exs[j]).total_xp,
    ensures
        exs[i].total_xp <= spec_total_xp(exs),
    decreases exs.len(),
{
    if i == exs.len() - 1 {
        lemma_total_xp_nonneg(exs.drop_last());
    } else {
        lemma_total_xp_elem_le(exs.drop_last(), i);
    }
}

/// Replacing one catalog entry moves the XP sum by exactly the ledger
/// difference.
pub proof fn lemma_total_xp_update(exs: Seq<Exercise>, i: int, e: Exercise)
    requires
        0 <= i < exs.len(),
    ensures
        spec_total_xp(exs.update(i, e)) == spec_total_xp(exs) - exs[i].total_xp + e.total_xp,
    decreases exs.len(),
{
    if i == exs.len() - 1 {
        assert(exs.update(i, e).drop_last() =~= exs.drop_last());
        assert(exs.update(i, e).last() == e);
    } else {
        assert(exs.update(i, e).drop_last() =~= exs.drop_last().update(i, e));
        assert(exs.update(i, e).last() == exs.last());
        lemma_total_xp_update(exs.drop_last(), i, e);
    }
}

/// The catalog with every entry carrying `id` removed, in order.
pub open spec fn spec_remove_exercises(exs: Seq<Exercise>, id: i64) -> Seq<Exercise>
    decreases exs.len(),
{
    if exs.len() == 0 {
        exs
    } else {
        let rest = spec_remove_exercises(exs.drop_last(), id);
        if exs.last().id == id {
            rest
        } else {
            rest.push(exs.last())
        }
    }
}

/// The log with every entry referring to exercise `id` removed, in order.
pub open spec fn spec_remove_logs(logs: Seq<ExerciseLog>, id: i64) -> Seq<ExerciseLog>
    decreases logs.len(),
{
    if logs.len() == 0 {
        logs
    } else {
        let rest = spec_remove_logs(logs.drop_last(), id);
        if logs.last().exercise_id == id {
            rest
        } else {
            rest.push(logs.last())
        }
    }
}

/// Every survivor of a catalog removal comes from the input catalog and
/// avoids the removed id.
pub proof fn lemma_remove_exercises_from(exs: Seq<Exercise>, id: i64)
    ensures
        spec_remove_exercises(exs, id).len() <= exs.len(),
        forall|k: int|
            0 <= k < spec_remove_exercises(exs, id).len() ==> (exists|j: int|
                0 <= j < exs.len() && #[trigger] spec_remove_exercises(exs, id)[k] == exs[j])
                && (#[trigger] spec_remove_exercises(exs, id)[k]).id != id,
    decreases exs.len(),
{
    if exs.len() > 0 {
        let prefix = exs.drop_last();
        lemma_remove_exercises_from(prefix, id);
        let rest = spec_remove_exercises(prefix, id);
        let res = spec_remove_exercises(exs, id);
        assert forall|k: int| 0 <= k < res.len() implies (exists|j: int|
            0 <= j < exs.len() && #[trigger] res[k] == exs[j]) && res[k].id != id by {
            if k < rest.len() {
                let j = choose|j: int| 0 <= j < prefix.len() && rest[k] == prefix[j];
                assert(res[k] == exs[j]);
            } else {
                assert(res[k] == exs[exs.len() - 1]);
            }
        }
    }
}

/// Every catalog entry with another id survives the removal.
pub proof fn lemma_remove_exercises_keeps(exs: Seq<Exercise>, id: i64)
    ensures
        forall|j: int|
            0 <= j < exs.len() && (#[trigger] exs[j]).id != id ==> exists|k: int|
                0 <= k < spec_remove_exercises(exs, id).len() && spec_remove_exercises(exs, id)[k]
                    == exs[j],
    decreases exs.len(),
{
    if exs.len() > 0 {
        let prefix = exs.drop_last();
        lemma_remove_exercises_keeps(prefix, id);
        let rest = spec_remove_exercises(prefix, id);
        let res = spec_remove_exercises(exs, id);
        assert forall|j: int| 0 <= j < exs.len() && (#[trigger] exs[j]).id != id implies exists|
            k: int,
        | 0 <= k < res.len() && res[k] == exs[j] by {
            if j < exs.len() - 1 {
                let k = choose|k: int| 0 <= k < rest.len() && rest[k] == prefix[j];
                assert(res[k] == exs[j]);
            } else {
                assert(res[res.len() - 1] == exs[j]);
            }
        }
    }
}

/// Removal keeps catalog ids pairwise distinct.
pub proof fn lemma_remove_exercises_distinct(exs: Seq<Exercise>, id: i64)
    requires
        forall|i: int, j: int|
            0 <= i < j < exs.len() ==> #[trigger] exs[i].id != #[trigger] exs[j].id,
    ensures
        forall|a: int, b: int|
            0 <= a < b < spec_remove_exercises(exs, id).len()
                ==> #[trigger] spec_remove_exercises(exs, id)[a].id
                != #[trigger] spec_remove_exercises(exs, id)[b].id,
    decreases exs.len(),
{
    if exs.len() > 0 {
        let prefix = exs.drop_last();
        lemma_remove_exercises_distinct(prefix, id);
        lemma_remove_exercises_from(prefix, id);
        let rest = spec_remove_exercises(prefix, id);
        let res = spec_remove_exercises(exs, id);
        if exs.last().id != id {
            assert forall|a: int, b: int| 0 <= a < b < res.len() implies #[trigger] res[a].id
                != #[trigger] res[b].id by {
                if b == res.len() - 1 {
                    let j = choose|j: int| 0 <= j < prefix.len() && rest[a] == prefix[j];
                    assert(exs[j].id != exs[exs.len() - 1].id);
                }
            }
        }
    }
}

/// Every surviving log entry comes from the input log and avoids the
/// removed exercise id.
pub proof fn lemma_remove_logs_from(logs: Seq<ExerciseLog>, id: i64)
    ensures
        spec_remove_logs(logs, id).len() <= logs.len(),
        forall|k: int|
            0 <= k < spec_remove_logs(logs, id).len() ==> (exists|j: int|
                0 <= j < logs.len() && #[trigger] spec_remove_logs(logs, id)[k] == logs[j]) && (
            #[trigger] spec_remove_logs(logs, id)[k]).exercise_id != id,
    decreases logs.len(),
{
    if logs.len() > 0 {
        let prefix = logs.drop_last();
        lemma_remove_logs_from(prefix, id);
        let rest = spec_remove_logs(prefix, id);
        let res = spec_remove_logs(logs, id);
        assert forall|k: int| 0 <= k < res.len() implies (exists|j: int|
            0 <= j < logs.len() && #[trigger] res[k] == logs[j]) && res[k].exercise_id != id by {
            if k < rest.len() {
                let j = choose|j: int| 0 <= j < prefix.len() && rest[k] == prefix[j];
                assert(res[k] == logs[j]);
            } else {
                assert(res[k] == logs[logs.len() - 1]);
            }
        }
    }
}

/// Removal keeps log ids pairwise distinct.
pub proof fn lemma_remove_logs_distinct(logs: Seq<ExerciseLog>, id: i64)
    requires
        forall|i: int, j: int|
            0 <= i < j < logs.len() ==> #[trigger] logs[i].id != #[trigger] logs[j].id,
    ensures
        forall|a: int, b: int|
            0 <= a < b < spec_remove_logs(logs, id).len() ==> #[trigger] spec_remove_logs(
                logs,
                id,
            )[a].id != #[trigger] spec_remove_logs(logs, id)[b].id,
    decreases logs.len(),
{
    if logs.len() > 0 {
        let prefix = logs.drop_last();
        lemma_remove_logs_distinct(prefix, id);
        lemma_remove_logs_from(prefix, id);
        let rest = spec_remove_logs(prefix, id);
        let res = spec_remove_logs(logs, id);
        if logs.last().exercise_id != id {
            assert forall|a: int, b: int| 0 <= a < b < res.len() implies #[trigger] res[a].id
                != #[trigger] res[b].id by {
                if b == res.len() - 1 {
                    let j = choose|j: int| 0 <= j < prefix.len() && rest[a] == prefix[j];
                    assert(logs[j].id != logs[logs.len() - 1].id);
                }
            }
        }
    }
}

/// Removal never grows the XP sum of a non-negative catalog.
pub proof fn lemma_remove_exercises_total_xp(exs: Seq<Exercise>, id: i64)
    requires
        forall|i: int| 0 <= i < exs.len() ==> 0 <= (#[trigger] exs[i]).total_xp,
    ensures
        spec_total_xp(spec_remove_exercises(exs, id)) <= spec_total_xp(exs),
        0 <= spec_total_xp(spec_remove_exercises(exs, id)),
    decreases exs.len(),
{
    if exs.len() == 0 {
    } else {
        let prefix = exs.drop_last();
        lemma_remove_exercises_total_xp(prefix, id);
        if exs.last().id != id {
            assert(spec_remove_exercises(exs, id).drop_last() =~= spec_remove_exercises(
                prefix,
                id,
            ));
        }
    }
}

fn seed_entry(i: usize) -> (r: (String, i32, String))
    requires
        i < 28,
    ensures
        r.0@ == spec_seed_name(i as int),
        r.1 == spec_seed_xp(i as int),
        r.2@ == spec_seed_icon(i as int),
{
    if i == 0 {
        (String::from_str("Pushups"), 10, String::from_str("fitness_center"))
    } else if i == 1 {
        (String::from_str("Arm Circles"), 3, String::from_str("self_improvement"))
    } else if i == 2 {
        (String::from_str("Sit-ups"), 8, String::from_str("self_improvement"))
    } else if i == 3 {
        (String::from_str("Crunches"), 6, String::from_str("self_improvement"))
    } else if i == 4 {
        (String::from_str("Plank (10 sec)"), 5, String::from_str("self_improvement"))
    } else if i == 5 {
        (String::from_str("Leg Raises"), 8, String::from_str("self_improvement"))
    } else if i == 6 {
        (String::from_str("Mountain Climbers"), 10, String::from_str("self_improvement"))
    } else if i == 7 {
        (String::from_str("Squats"), 8, String::from_str("fitness_center"))
    } else if i == 8 {
        (String::from_str("Lunges"), 10, String::from_str("fitness_center"))
    } else if i == 9 {
        (String::from_str("Calf Raises"), 4, String::from_str("fitness_center"))
    } else if i == 10 {
        (String::from_str("Wall Sit (10 sec)"), 4, String::from_str("fitness_center"))
    } else if i == 11 {
        (String::from_str("Side Leg Raises"), 6, String::from_str("fitness_center"))
    } else if i == 12 {
        (String::from_str("Step-ups"), 8, String::from_str("fitness_center"))
    } else if i == 13 {
        (String::from_str("Jumping Jacks"), 6, String::from_str("directions_run"))
    } else if i == 14 {
        (String::from_str("High Knees"), 6, String::from_str("directions_run"))
    } else if i == 15 {
        (String::from_str("Burpees"), 15, String::from_str("directions_run"))
    } else if i == 16 {
        (String::from_str("Stair Climbs"), 10, String::from_str("directions_run"))
    } else if i == 17 {
        (String::from_str("Marching in Place"), 4, String::from_str("directions_run"))
    } else if i == 18 {
        (String::from_str("Neck Stretches"), 2, String::from_str("accessibility"))
    } else if i == 19 {
        (String::from_str("Shoulder Shrugs"), 3, String::from_str("accessibility"))
    } else if i == 20 {
        (String::from_str("Wrist Circles"), 2, String::from_str("accessibility"))
    } else if i == 21 {
        (String::from_str("Toe Touches"), 4, String::from_str("accessibility"))
    } else if i == 22 {
        (String::from_str("Hip Circles"), 3, String::from_str("accessibility"))
    } else if i == 23 {
        (String::from_str("Torso Twists"), 3, String::from_str("accessibility"))
    } else if i == 24 {
        (String::from_str("Ankle Rotations"), 2, String::from_str("accessibility"))
    } else if i == 25 {
        (String::from_str("Cat-Cow Stretch"), 3, String::from_str("accessibility"))
    } else if i == 26 {
        (String::from_str("Chest Opener"), 3, String::from_str("accessibility"))
    } else {
        (String::from_str("Quad Stretch"), 3, String::from_str("accessibility"))
    }
}

fn achievement_entry(i: usize) -> (r: (String, String, String))
    requires
        i < 9,
    ensures
        r.0@ == spec_achievement_key(i as int),
        r.1@ == spec_achievement_name(i as int),
        r.2@ == spec_achievement_desc(i as int),
{
    if i == 0 {
        (
            String::from_str("first-exercise"),
            String::from_str("First Steps"),
            String::from_str("Complete your first exercise"),
        )
    } else if i == 1 {
        (
            String::from_str("century"),
            String::from_str("Century"),
            String::from_str("Complete 100 pushups in a single day"),
        )
    } else if i == 2 {
        (
            String::from_str("week-streak"),
            String::from_str("Dedicated"),
            String::from_str("Maintain a 7-day exercise streak"),
        )
    } else if i == 3 {
        (
            String::from_str("month-streak"),
            String::from_str("Committed"),
            String::from_str("Maintain a 30-day exercise streak"),
        )
    } else if i == 4 {
        (
            String::from_str("skill-10"),
            String::from_str("Rising Star"),
            String::from_str("Get any exercise to level 10"),
        )
    } else if i == 5 {
        (
            String::from_str("skill-25"),
            String::from_str("Fitness Warrior"),
            String::from_str("Get any exercise to level 25"),
        )
    } else if i == 6 {
        (
            String::from_str("skill-50"),
            String::from_str("Legend"),
            String::from_str("Get any exercise to level 50"),
        )
    } else if i == 7 {
        (
            String::from_str("total-100"),
            String::from_str("Century Club"),
            String::from_str("Reach 100 total level"),
        )
    } else {
        (
            String::from_str("variety"),
            String::from_str("Well-Rounded"),
            String::from_str("Log 5 different types of exercises"),
        )
    }
}

impl EngineState {
    /// The freshly seeded state: the default desk-exercise catalog at
    /// level 1 with empty ledgers, no logs, no streak, the nine locked
    /// achievements and the default settings.  `now` stamps the catalog's
    /// creation time.
    pub fn new(now: Timestamp) -> (r: EngineState)
        requires
            now.wf(),
        ensures
            r.wf(),
            r.exercises@.len() == seed_len(),
            forall|i: int|
                0 <= i < seed_len() ==> {
                    let e = #[trigger] r.exercises@[i];
                    &&& e.id == i + 1
                    &&& e.name@ == spec_seed_name(i)
                    &&& e.xp_per_rep == spec_seed_xp(i)
                    &&& e.total_xp == 0
                    &&& e.current_level == 1
                    &&& (e.icon matches Some(ic) && ic@ == spec_seed_icon(i))
                    &&& e.created_at@ == now.spec_render()
                },
            r.logs@.len() == 0,
            r.streak == StreakState::spec_initial(),
            forall|i: int| 0 <= i < 9 ==> (#[trigger] r.achievements@[i]).unlocked_at is None,
            r.settings.reminder_enabled == true,
            r.settings.reminder_interval_minutes == 120,
            r.settings.sound_enabled == true,
            r.settings.daily_goal_xp == 500,
            r.settings.theme_mode is None,
            r.next_exercise_id == seed_len() + 1,
            r.next_log_id == 1,
    {
        let mut exercises: Vec<Exercise> = Vec::new();
        let mut i: usize = 0;
        while i < 28
            invariant
                now.wf(),
                i <= 28,
                exercises@.len() == i,
                forall|j: int|
                    0 <= j < i ==> {
                        let e = #[trigger] exercises@[j];
                        &&& e.id == j + 1
                        &&& e.name@ == spec_seed_name(j)
                        &&& e.xp_per_rep == spec_seed_xp(j)
                        &&& e.total_xp == 0
                        &&& e.current_level == 1
                        &&& (e.icon matches Some(ic) && ic@ == spec_seed_icon(j))
                        &&& e.created_at@ == now.spec_render()
                    },
                spec_total_xp(exercises@) == 0,
            decreases 28 - i,
        {
            let (name, xp, icon) = seed_entry(i);
            let created = now.render();
            let e = Exercise {
                id: (i as i64) + 1,
                name,
                xp_per_rep: xp,
                total_xp: 0,
                current_level: 1,
                icon: Some(icon),
                created_at: created,
            };
            proof {
                assert(exercises@.push(e).drop_last() =~= exercises@);
            }
            exercises.push(e);
            i = i + 1;
        }
        let mut achievements: Vec<Achievement> = Vec::new();
        let mut i: usize = 0;
        while i < 9
            invariant
                i <= 9,
                achievements@.len() == i,
                forall|j: int|
                    0 <= j < i ==> {
                        let a = #[trigger] achievements@[j];
                        &&& a.id == j + 1
                        &&& a.key@ == spec_achievement_key(j)
                        &&& a.name@ == spec_achievement_name(j)
                        &&& (a.description matches Some(d) && d@ == spec_achievement_desc(j))
                        &&& a.icon is None
                        &&& a.unlocked_at is None
                    },
            decreases 9 - i,
        {
            let (key, aname, desc) = achievement_entry(i);
            achievements.push(
                Achievement {
                    id: (i as i64) + 1,
                    key,
                    name: aname,
                    description: Some(desc),
                    icon: None,
                    unlocked_at: None,
                },
            );
            i = i + 1;
        }
        let r = EngineState {
            exercises,
            logs: Vec::new(),
            streak: StreakState::initial(),
            achievements,
            settings: Settings {
                reminder_enabled: true,
                reminder_interval_minutes: 120,
                sound_enabled: true,
                daily_goal_xp: 500,
                theme_mode: None,
            },
            next_exercise_id: 29,
            next_log_id: 1,
        };
        proof {
            assert forall|i: int| 0 <= i < r.exercises@.len() implies (
            #[trigger] r.exercises@[i]).wf() && r.exercises@[i].id < r.next_exercise_id by {
                crate::curve::lemma_level_from_xp_bounds(0);
            }
            assert(r.wf());
        }
        r
    }

    /// Clears every log, every XP ledger, the streak and every unlock
    /// timestamp, and re-seeds the default catalog; settings survive the
    /// reset.
    pub fn reset_all_data(&mut self, now: Timestamp) -> (r: Result<(), EngineError>)
        requires
            old(self).wf(),
            now.wf(),
        ensures
            r is Ok,
            final(self).wf(),
            final(self).exercises@.len() == seed_len(),
            forall|i: int|
                0 <= i < seed_len() ==> {
                    let e = #[trigger] final(self).exercises@[i];
                    &&& e.id == i + 1
                    &&& e.name@ == spec_seed_name(i)
                    &&& e.xp_per_rep == spec_seed_xp(i)
                    &&& e.total_xp == 0
                    &&& e.current_level == 1
                },
            final(self).logs@.len() == 0,
            final(self).streak == StreakState::spec_initial(),
            forall|i: int|
                0 <= i < 9 ==> (#[trigger] final(self).achievements@[i]).unlocked_at is None,
            final(self).settings == old(self).settings,
            final(self).next_exercise_id == seed_len() + 1,
            final(self).next_log_id == 1,
    {
        let fresh = EngineState::new(now);
        self.exercises = fresh.exercises;
        self.logs = fresh.logs;
        self.streak = fresh.streak;
        self.achievements = fresh.achievements;
        self.next_exercise_id = fresh.next_exercise_id;
        self.next_log_id = fresh.next_log_id;
        Ok(())
    }

    /// The catalog, in insertion order.
    pub fn get_exercises(&self) -> (r: Vec<Exercise>)
        ensures
            r@ == self.exercises@,
    {
        let mut r: Vec<Exercise> = Vec::new();
        let mut i: usize = 0;
        while i < self.exercises.len()
            invariant
                i <= self.exercises@.len(),
                r@ =~= self.exercises@.subrange(0, i as int),
            decreases self.exercises@.len() - i,
        {
            let e = self.exercises[i].duplicate();
            proof {
                assert(self.exercises@.subrange(0, i as int + 1) =~= self.exercises@.subrange(
                    0,
                    i as int,
                ).push(self.exercises@[i as int]));
            }
            r.push(e);
            i = i + 1;
        }
        proof {
            assert(r@ =~= self.exercises@);
        }
        r
    }

    /// The achievement table, definitions and unlock timestamps alike.
    pub fn get_achievements(&self) -> (r: Vec<Achievement>)
        ensures
            r@ == self.achievements@,
    {
        let mut r: Vec<Achievement> = Vec::new();
        let mut i: usize = 0;
        while i < self.achievements.len()
            invariant
                i <= self.achievements@.len(),
                r@ =~= self.achievements@.subrange(0, i as int),
            decreases self.achievements@.len() - i,
        {
            let a = self.achievements[i].duplicate();
            proof {
                assert(self.achievements@.subrange(0, i as int + 1) =~= self.achievements@.subrange(
                    0,
                    i as int,
                ).push(self.achievements@[i as int]));
            }
            r.push(a);
            i = i + 1;
        }
        proof {
            assert(r@ =~= self.achievements@);
        }
        r
    }

    /// The aggregate statistics: XP and level totals over the catalog,
    /// the streak record, and the exercise count.
    pub fn get_stats(&self) -> (r: UserStats)
        requires
            self.wf(),
        ensures
            r.total_xp == spec_total_xp(self.exercises@),
            r.total_level == spec_total_level(self.exercises@),
            r.current_streak == self.streak.current_streak,
            r.longest_streak == self.streak.longest_streak,
            r.last_exercise_date == self.streak.last_exercise_date,
            r.exercise_count == self.exercises@.len(),
    {
        let n = self.exercises.len();
        let mut total_xp: i64 = 0;
        let mut total_level: i32 = 0;
        let mut i: usize = 0;
        while i < n
            invariant
                self.wf(),
                i <= n,
                n == self.exercises@.len(),
                total_xp == spec_total_xp(self.exercises@.subrange(0, i as int)),
                total_level == spec_total_level(self.exercises@.subrange(0, i as int)),
                0 <= total_level <= 99 * i,
                0 <= total_xp,
            decreases n - i,
        {
            proof {
                assert(self.exercises@.subrange(0, i as int + 1).drop_last()
                    =~= self.exercises@.subrange(0, i as int));
                lemma_total_xp_prefix_le(self.exercises@, i as int + 1);
                lemma_total_xp_nonneg(self.exercises@.subrange(0, i as int + 1));
                crate::curve::lemma_level_from_xp_bounds(self.exercises@[i as int].total_xp as int);
            }
            total_xp = total_xp + self.exercises[i].total_xp;
            total_level = total_level + self.exercises[i].current_level;
            i = i + 1;
        }
        proof {
            assert(self.exercises@.subrange(0, n as int) =~= self.exercises@);
        }
        UserStats {
            total_xp,
            total_level,
            current_streak: self.streak.current_streak,
            longest_streak: self.streak.longest_streak,
            last_exercise_date: self.streak.last_exercise_date,
            exercise_count: n as i32,
        }
    }

    /// The current settings, with the theme falling back to `dark` when it
    /// was never chosen.
    pub fn get_settings(&self) -> (r: Settings)
        ensures
            r.reminder_enabled == self.settings.reminder_enabled,
            r.reminder_interval_minutes == self.settings.reminder_interval_minutes,
            r.sound_enabled == self.settings.sound_enabled,
            r.daily_goal_xp == self.settings.daily_goal_xp,
            r.theme_mode matches Some(t) && (match self.settings.theme_mode {
                Some(u) => t@ == u@,
                None => t@ == "dark"@,
            }),
    {
        let theme = match &self.settings.theme_mode {
            Some(u) => u.clone(),
            None => String::from_str("dark"),
        };
        Settings {
            reminder_enabled: self.settings.reminder_enabled,
            reminder_interval_minutes: self.settings.reminder_interval_minutes,
            sound_enabled: self.settings.sound_enabled,
            daily_goal_xp: self.settings.daily_goal_xp,
            theme_mode: Some(theme),
        }
    }

    /// Stores one setting by key.  Boolean settings hold exactly when the
    /// stored text is `true`; numeric settings fall back to their defaults
    /// when the text does not parse; an unknown key has no visible effect.
    pub fn update_setting(&mut self, key: &str, value: &str) -> (r: Result<(), EngineError>)
        requires
            old(self).wf(),
        ensures
            r is Ok,
            final(self).wf(),
            final(self).exercises == old(self).exercises,
            final(self).logs == old(self).logs,
            final(self).streak == old(self).streak,
            final(self).achievements == old(self).achievements,
            final(self).next_exercise_id == old(self).next_exercise_id,
            final(self).next_log_id == old(self).next_log_id,
            key@ == "reminder_enabled"@ ==> final(self).settings == (Settings {
                reminder_enabled: value@ == "true"@,
                ..old(self).settings
            }),
            key@ == "reminder_interval_minutes"@ ==> final(self).settings == (Settings {
                reminder_interval_minutes: match crate::text::spec_parse_i32(value@) {
                    Some(v) => v,
                    None => 120,
                },
                ..old(self).settings
            }),
            key@ == "sound_enabled"@ ==> final(self).settings == (Settings {
                sound_enabled: value@ == "true"@,
                ..old(self).settings
            }),
            key@ == "daily_goal_xp"@ ==> final(self).settings == (Settings {
                daily_goal_xp: match crate::text::spec_parse_i32(value@) {
                    Some(v) => v,
                    None => 500,
                },
                ..old(self).settings
            }),
            key@ == "theme_mode"@ ==> {
                &&& final(self).settings.theme_mode matches Some(t) && t@ == value@
                &&& final(self).settings.reminder_enabled == old(self).settings.reminder_enabled
                &&& final(self).settings.reminder_interval_minutes == old(
                    self,
                ).settings.reminder_interval_minutes
                &&& final(self).settings.sound_enabled == old(self).settings.sound_enabled
                &&& final(self).settings.daily_goal_xp == old(self).settings.daily_goal_xp
            },
            (key@ != "reminder_enabled"@ && key@ != "reminder_interval_minutes"@ && key@
                != "sound_enabled"@ && key@ != "daily_goal_xp"@ && key@ != "theme_mode"@)
                ==> final(self).settings == old(self).settings,
    {
        proof {
            reveal_strlit("reminder_enabled");
            reveal_strlit("reminder_interval_minutes");
            reveal_strlit("sound_enabled");
            reveal_strlit("daily_goal_xp");
            reveal_strlit("theme_mode");
            assert("reminder_enabled"@.len() == 16);
            assert("reminder_interval_minutes"@.len() == 25);
            assert("sound_enabled"@.len() == 13);
            assert("daily_goal_xp"@.len() == 13);
            assert("theme_mode"@.len() == 10);
            assert("sound_enabled"@[0] != "daily_goal_xp"@[0]);
        }
        if str_eq(key, "reminder_enabled") {
            self.settings.reminder_enabled = str_eq(value, "true");
        } else if str_eq(key, "reminder_interval_minutes") {
            self.settings.reminder_interval_minutes = match crate::text::parse_i32(value) {
                Some(v) => v,
                None => 120,
            };
        } else if str_eq(key, "sound_enabled") {
            self.settings.sound_enabled = str_eq(value, "true");
        } else if str_eq(key, "daily_goal_xp") {
            self.settings.daily_goal_xp = match crate::text::parse_i32(value) {
                Some(v) => v,
                None => 500,
            };
        } else if str_eq(key, "theme_mode") {
            self.settings.theme_mode = Some(String::from_str(value));
        }
        Ok(())
    }

    /// Resolves an exercise reference: the first catalog entry whose name
    /// equals `search` up to ASCII case wins; failing that, the first
    /// entry whose name contains `search` up to ASCII case; failing both,
    /// the reference does not resolve.  Returns the id, name and per-rep
    /// XP of the match.
    pub fn find_exercise(&self, search: &str) -> (r: Result<(i64, String, i32), EngineError>)
        ensures
            (exists|i: int| 0 <= i < self.exercises@.len() && self.exact_match_at(search@, i))
                ==> (r matches Ok(t) && exists|i: int|
                {
                    &&& 0 <= i < self.exercises@.len()
                    &&& self.exact_match_at(search@, i)
                    &&& forall|j: int| 0 <= j < i ==> !self.exact_match_at(search@, j)
                    &&& t.0 == self.exercises@[i].id
                    &&& t.1@ == self.exercises@[i].name@
                    &&& t.2 == self.exercises@[i].xp_per_rep
                }),
            ((forall|i: int|
                0 <= i < self.exercises@.len() ==> !self.exact_match_at(search@, i)) && (exists|
                i: int,
            | 0 <= i < self.exercises@.len() && self.partial_match_at(search@, i))) ==> (r matches
                Ok(t) && exists|i: int|
                {
                    &&& 0 <= i < self.exercises@.len()
                    &&& self.partial_match_at(search@, i)
                    &&& forall|j: int| 0 <= j < i ==> !self.partial_match_at(search@, j)
                    &&& t.0 == self.exercises@[i].id
                    &&& t.1@ == self.exercises@[i].name@
                    &&& t.2 == self.exercises@[i].xp_per_rep
                }),
            (forall|i: int|
                0 <= i < self.exercises@.len() ==> !self.exact_match_at(search@, i)
                    && !self.partial_match_at(search@, i)) ==> r == Err::<
                (i64, String, i32),
                EngineError,
            >(EngineError::NotFound),
    {
        let n = self.exercises.len();
        let mut i: usize = 0;
        while i < n
            invariant
                i <= n,
                n == self.exercises@.len(),
                forall|j: int| 0 <= j < i ==> !self.exact_match_at(search@, j),
            decreases n - i,
        {
            if str_eq_ignore_case(self.exercises[i].name.as_str(), search) {
                let e = &self.exercises[i];
                proof {
                    assert(self.exact_match_at(search@, i as int));
                }
                return Ok((e.id, e.name.clone(), e.xp_per_rep));
            }
            i = i + 1;
        }
        let mut i: usize = 0;
        while i < n
            invariant
                i <= n,
                n == self.exercises@.len(),
                forall|j: int| 0 <= j < n ==> !self.exact_match_at(search@, j),
                forall|j: int| 0 <= j < i ==> !self.partial_match_at(search@, j),
            decreases n - i,
        {
            if contains_ignore_case(self.exercises[i].name.as_str(), search) {
                let e = &self.exercises[i];
                proof {
                    assert(self.partial_match_at(search@, i as int));
                }
                return Ok((e.id, e.name.clone(), e.xp_per_rep));
            }
            i = i + 1;
        }
        Err(EngineError::NotFound)
    }

    /// Whether a new exercise with this name and per-rep value can be
    /// accepted: the value positive, the exact name not yet taken, and
    /// room left in the catalog and the id space.
    pub open spec fn spec_can_add_exercise(self, name: Seq<char>, xp_per_rep: int) -> bool {
        &&& xp_per_rep >= 1
        &&& !(exists|i: int|
            0 <= i < self.exercises@.len() && (#[trigger] self.exercises@[i]).name@ == name)
        &&& self.exercises@.len() < 10000000
        &&& self.next_exercise_id < i64::MAX
    }

    /// Adds a fresh exercise with an empty ledger at level 1, stamped with
    /// `now`; rejected without effect when the name is taken, the per-rep
    /// value is not positive, or no room is left.
    pub fn add_exercise(&mut self, name: String, xp_per_rep: i32, now: Timestamp) -> (r: Result<
        (),
        EngineError,
    >)
        requires
            old(self).wf(),
            now.wf(),
        ensures
            final(self).wf(),
            r is Ok <==> old(self).spec_can_add_exercise(name@, xp_per_rep as int),
            !old(self).spec_can_add_exercise(name@, xp_per_rep as int) ==> r == Err::<
                (),
                EngineError,
            >(EngineError::InvalidInput) && *final(self) == *old(self),
            old(self).spec_can_add_exercise(name@, xp_per_rep as int) ==> {
                &&& final(self).exercises@.len() == old(self).exercises@.len() + 1
                &&& final(self).exercises@.subrange(0, old(self).exercises@.len() as int) == old(
                    self,
                ).exercises@
                &&& final(self).exercises@.last().id == old(self).next_exercise_id
                &&& final(self).exercises@.last().name == name
                &&& final(self).exercises@.last().xp_per_rep == xp_per_rep
                &&& final(self).exercises@.last().total_xp == 0
                &&& final(self).exercises@.last().current_level == 1
                &&& final(self).exercises@.last().icon is None
                &&& final(self).exercises@.last().created_at@ == now.spec_render()
                &&& final(self).next_exercise_id == old(self).next_exercise_id + 1
                &&& final(self).logs == old(self).logs
                &&& final(self).streak == old(self).streak
                &&& final(self).achievements == old(self).achievements
                &&& final(self).settings == old(self).settings
                &&& final(self).next_log_id == old(self).next_log_id
            },
    {
        if xp_per_rep < 1 {
            return Err(EngineError::InvalidInput);
        }
        let n = self.exercises.len();
        let mut i: usize = 0;
        while i < n
            invariant
                *self == *old(self),
                self.wf(),
                i <= n,
                n == self.exercises@.len(),
                forall|j: int| 0 <= j < i ==> (#[trigger] self.exercises@[j]).name@ != name@,
            decreases n - i,
        {
            if str_eq(self.exercises[i].name.as_str(), name.as_str()) {
                return Err(EngineError::InvalidInput);
            }
            i = i + 1;
        }
        if n >= 10000000 {
            return Err(EngineError::InvalidInput);
        }
        if self.next_exercise_id == i64::MAX {
            return Err(EngineError::InvalidInput);
        }
        let e = Exercise {
            id: self.next_exercise_id,
            name,
            xp_per_rep,
            total_xp: 0,
            current_level: 1,
            icon: None,
            created_at: now.render(),
        };
        proof {
            assert(self.exercises@.push(e).drop_last() =~= self.exercises@);
            crate::curve::lemma_level_from_xp_bounds(0);
            assert(self.exercises@.push(e).subrange(0, self.exercises@.len() as int)
                =~= self.exercises@);
        }
        self.exercises.push(e);
        self.next_exercise_id = self.next_exercise_id + 1;
        Ok(())
    }

    /// Deletes the exercise carrying `id` together with all of its log
    /// entries; deleting an unknown id is a no-op.
    #[verifier::rlimit(100)]
    pub fn delete_exercise(&mut self, id: i64) -> (r: Result<(), EngineError>)
        requires
            old(self).wf(),
        ensures
            r is Ok,
            final(self).wf(),
            final(self).exercises@ == spec_remove_exercises(old(self).exercises@, id),
            final(self).logs@ == spec_remove_logs(old(self).logs@, id),
            final(self).streak == old(self).streak,
            final(self).achievements == old(self).achievements,
            final(self).settings == old(self).settings,
            final(self).next_exercise_id == old(self).next_exercise_id,
            final(self).next_log_id == old(self).next_log_id,
    {
        let n = self.exercises.len();
        let mut kept: Vec<Exercise> = Vec::new();
        let mut i: usize = 0;
        while i < n
            invariant
                *self == *old(self),
                i <= n,
                n == self.exercises@.len(),
                kept@ == spec_remove_exercises(self.exercises@.subrange(0, i as int), id),
            decreases n - i,
        {
            proof {
                assert(self.exercises@.subrange(0, i as int + 1).drop_last()
                    =~= self.exercises@.subrange(0, i as int));
            }
            if self.exercises[i].id != id {
                kept.push(self.exercises[i].duplicate());
            }
            i = i + 1;
        }
        proof {
            assert(self.exercises@.subrange(0, n as int) =~= self.exercises@);
        }
        let m = self.logs.len();
        let mut kept_logs: Vec<ExerciseLog> = Vec::new();
        let mut i: usize = 0;
        while i < m
            invariant
                *self == *old(self),
                kept@ == spec_remove_exercises(old(self).exercises@, id),
                i <= m,
                m == self.logs@.len(),
                kept_logs@ == spec_remove_logs(self.logs@.subrange(0, i as int), id),
            decreases m - i,
        {
            proof {
                assert(self.logs@.subrange(0, i as int + 1).drop_last() =~= self.logs@.subrange(
                    0,
                    i as int,
                ));
            }
            if self.logs[i].exercise_id != id {
                kept_logs.push(self.logs[i].duplicate());
            }
            i = i + 1;
        }
        proof {
            assert(self.logs@.subrange(0, m as int) =~= self.logs@);
        }
        self.exercises = kept;
        self.logs = kept_logs;
        proof {
            lemma_remove_preserves_wf(*old(self), *self, id);
        }
        Ok(())
    }
}

/// Removing one exercise and its log entries preserves aggregate
/// well-formedness.
#[verifier::rlimit(100)]
#[verifier::spinoff_prover]
pub proof fn lemma_remove_preserves_wf(s: EngineState, t: EngineState, id: i64)
    requires
        s.wf(),
        t.exercises@ == spec_remove_exercises(s.exercises@, id),
        t.logs@ == spec_remove_logs(s.logs@, id),
        t.streak == s.streak,
        t.achievements == s.achievements,
        t.next_exercise_id == s.next_exercise_id,
        t.next_log_id == s.next_log_id,
    ensures
        t.wf(),
{
    let oexs = s.exercises@;
    let ologs = s.logs@;
    assert(t.exercises@.len() <= oexs.len() && t.logs@.len() <= ologs.len()) by {
        lemma_remove_exercises_from(oexs, id);
        lemma_remove_logs_from(ologs, id);
    }
    assert(spec_total_xp(t.exercises@) <= i64::MAX) by {
        lemma_remove_exercises_total_xp(oexs, id);
    }
    assert(forall|k: int|
        0 <= k < t.logs@.len() ==> t.has_exercise((#[trigger] t.logs@[k]).exercise_id)) by {
        lemma_remove_exercises_keeps(oexs, id);
        lemma_remove_logs_from(ologs, id);
        assert forall|k: int| 0 <= k < t.logs@.len() implies t.has_exercise(
            (#[trigger] t.logs@[k]).exercise_id,
        ) by {
            let l = t.logs@[k];
            let j = choose|j: int| 0 <= j < ologs.len() && t.logs@[k] == ologs[j];
            assert(s.has_exercise(ologs[j].exercise_id));
            let x = choose|x: int| 0 <= x < oexs.len() && oexs[x].id == ologs[j].exercise_id;
            assert(oexs[x].id != id);
            let k2 = choose|k2: int| 0 <= k2 < t.exercises@.len() && t.exercises@[k2] == oexs[x];
            assert(t.exercises@[k2].id == l.exercise_id);
        }
    }
    assert(forall|k: int|
        0 <= k < t.exercises@.len() ==> (#[trigger] t.exercises@[k]).wf() && t.exercises@[k].id
            < t.next_exercise_id) by {
        lemma_remove_exercises_from(oexs, id);
        assert forall|k: int| 0 <= k < t.exercises@.len() implies (
        #[trigger] t.exercises@[k]).wf() && t.exercises@[k].id < t.next_exercise_id by {
            let j = choose|j: int| 0 <= j < oexs.len() && t.exercises@[k] == oexs[j];
        }
    }
    assert(forall|k: int|
        0 <= k < t.logs@.len() ==> (#[trigger] t.logs@[k]).wf() && t.logs@[k].id
            < t.next_log_id) by {
        lemma_remove_logs_from(ologs, id);
        assert forall|k: int| 0 <= k < t.logs@.len() implies (#[trigger] t.logs@[k]).wf()
            && t.logs@[k].id < t.next_log_id by {
            let j = choose|j: int| 0 <= j < ologs.len() && t.logs@[k] == ologs[j];
        }
    }
    assert(forall|i: int, j: int|
        0 <= i < j < t.exercises@.len() ==> #[trigger] t.exercises@[i].id
            != #[trigger] t.exercises@[j].id) by {
        lemma_remove_exercises_distinct(oexs, id);
    }
    assert(forall|i: int, j: int|
        0 <= i < j < t.logs@.len() ==> #[trigger] t.logs@[i].id != #[trigger] t.logs@[j].id) by {
        lemma_remove_logs_distinct(ologs, id);
    }
}

/// Whether a log entry falls within the history window ending at `cutoff`
/// seconds.
pub open spec fn spec_history_keep(l: ExerciseLog, cutoff: int) -> bool {
    l.logged_at.spec_seconds() >= cutoff
}

/// The log entries among the first `i` whose timestamps reach `cutoff`,
/// newest insertion first.
pub open spec fn spec_history(logs: Seq<ExerciseLog>, cutoff: int, i: int) -> Seq<ExerciseLog>
    decreases i,
{
    if i <= 0 {
        Seq::empty()
    } else {
        (if spec_history_keep(logs[i - 1], cutoff) {
            seq![logs[i - 1]]
        } else {
            Seq::empty()
        }) + spec_history(logs, cutoff, i - 1)
    }
}

fn total_xp_of(exs: &Vec<Exercise>) -> (r: i64)
    requires
        forall|i: int| 0 <= i < exs@.len() ==> 0 <= (#[trigger] exs@[i]).total_xp,
        spec_total_xp(exs@) <= i64::MAX,
    ensures
        r == spec_total_xp(exs@),
        0 <= r,
{
    let n = exs.len();
    let mut total: i64 = 0;
    let mut i: usize = 0;
    while i < n
        invariant
            i <= n,
            n == exs@.len(),
            forall|k: int| 0 <= k < exs@.len() ==> 0 <= (#[trigger] exs@[k]).total_xp,
            spec_total_xp(exs@) <= i64::MAX,
            total == spec_total_xp(exs@.subrange(0, i as int)),
            0 <= total,
        decreases n - i,
    {
        proof {
            assert(exs@.subrange(0, i as int + 1).drop_last() =~= exs@.subrange(0, i as int));
            lemma_total_xp_prefix_le(exs@, i as int + 1);
            lemma_total_xp_nonneg(exs@.subrange(0, i as int + 1));
        }
        total = total + exs[i].total_xp;
        i = i + 1;
    }
    proof {
        assert(exs@.subrange(0, n as int) =~= exs@);
    }
    total
}

fn total_level_of(exs: &Vec<Exercise>) -> (r: i64)
    requires
        exs@.len() <= 10000000,
        forall|i: int| 0 <= i < exs@.len() ==> (#[trigger] exs@[i]).wf(),
    ensures
        r == spec_total_level(exs@),
        0 <= r,
{
    let n = exs.len();
    let mut total: i64 = 0;
    let mut i: usize = 0;
    while i < n
        invariant
            i <= n,
            n == exs@.len(),
            n <= 10000000,
            forall|k: int| 0 <= k < exs@.len() ==> (#[trigger] exs@[k]).wf(),
            total == spec_total_level(exs@.subrange(0, i as int)),
            0 <= total <= 99 * i,
        decreases n - i,
    {
        proof {
            assert(exs@.subrange(0, i as int + 1).drop_last() =~= exs@.subrange(0, i as int));
            crate::curve::lemma_level_from_xp_bounds(exs@[i as int].total_xp as int);
        }
        total = total + (exs[i].current_level as i64);
        i = i + 1;
    }
    proof {
        assert(exs@.subrange(0, n as int) =~= exs@);
    }
    total
}

impl EngineState {
    /// Whether a charge of `reps` against the exercise at catalog position
    /// `i` can be represented: positive reps, the charge within `i32`, the
    /// grand XP total within `i64`, and room left in the log.
    pub open spec fn spec_can_log(self, i: int, reps: i32) -> bool {
        let e = self.exercises@[i];
        &&& reps >= 1
        &&& e.xp_per_rep * reps <= i32::MAX
        &&& spec_total_xp(self.exercises@) + e.xp_per_rep * reps <= i64::MAX
        &&& self.next_log_id < i64::MAX
        &&& self.logs@.len() < 100000000
    }

    /// The rule snapshot of the state as it stands after a transaction,
    /// seen from the new level of the exercise just charged.
    pub open spec fn spec_rule_snapshot(self, new_level: int, today: Date) -> RuleSnapshot {
        RuleSnapshot {
            exercise_level: new_level as i32,
            streak: self.streak.current_streak,
            total_level: spec_total_level(self.exercises@) as i64,
            log_count: self.logs@.len() as i64,
            distinct_exercises: spec_distinct_upto(self.logs@, self.logs@.len() as int) as i64,
            flagship_reps_today: spec_flagship_upto(
                self.exercises@,
                self.logs@,
                today,
                self.logs@.len() as int,
            ) as i64,
        }
    }

    /// The single write path: one progress transaction for `reps` of the
    /// exercise carrying `exercise_id`, at local time `now`.  As one
    /// all-or-nothing unit it appends the log entry, charges the XP and
    /// re-derives the level, runs the streak transition for `now`'s date,
    /// and evaluates the achievement rules against the post-transaction
    /// snapshot.  `durable_ok` reports the outcome of the caller's durable
    /// write of the transaction: when it is false the transaction is
    /// rejected in full and the state is exactly as before, as it is for
    /// an unresolved reference or invalid reps.
    pub fn log_exercise(
        &mut self,
        exercise_id: i64,
        reps: i32,
        now: Timestamp,
        durable_ok: bool,
    ) -> (r: Result<LogExerciseResult, EngineError>)
        requires
            old(self).wf(),
            now.wf(),
        ensures
            final(self).wf(),
            !old(self).has_exercise(exercise_id) ==> r == Err::<LogExerciseResult, EngineError>(
                EngineError::NotFound,
            ) && *final(self) == *old(self),
            old(self).has_exercise(exercise_id) && !old(self).spec_can_log(
                old(self).exercise_index(exercise_id),
                reps,
            ) ==> r == Err::<LogExerciseResult, EngineError>(EngineError::InvalidInput)
                && *final(self) == *old(self),
            old(self).has_exercise(exercise_id) && old(self).spec_can_log(
                old(self).exercise_index(exercise_id),
                reps,
            ) && !durable_ok ==> r == Err::<LogExerciseResult, EngineError>(
                EngineError::PersistenceFailure,
            ) && *final(self) == *old(self),
            old(self).has_exercise(exercise_id) && old(self).spec_can_log(
                old(self).exercise_index(exercise_id),
                reps,
            ) && durable_ok ==> {
                let i = old(self).exercise_index(exercise_id);
                let e = old(self).exercises@[i];
                let earned = e.xp_per_rep * reps;
                let new_xp = e.total_xp + earned;
                let new_level = spec_level_from_xp(new_xp);
                let entry = ExerciseLog {
                    id: old(self).next_log_id,
                    exercise_id,
                    reps,
                    xp_earned: earned as i32,
                    logged_at: now,
                };
                let snap = final(self).spec_rule_snapshot(new_level, now.date);
                &&& final(self).exercises@ == old(self).exercises@.update(
                    i,
                    Exercise {
                        total_xp: new_xp as i64,
                        current_level: new_level as i32,
                        ..e
                    },
                )
                &&& final(self).logs@ == old(self).logs@.push(entry)
                &&& final(self).streak == spec_streak_update(old(self).streak, now.date)
                &&& final(self).next_log_id == old(self).next_log_id + 1
                &&& final(self).next_exercise_id == old(self).next_exercise_id
                &&& final(self).settings == old(self).settings
                &&& final(self).achievements@.len() == 9
                &&& (forall|k: int|
                    0 <= k < 9 ==> {
                        let a = #[trigger] final(self).achievements@[k];
                        let o = old(self).achievements@[k];
                        &&& a.id == o.id
                        &&& a.key == o.key
                        &&& a.name == o.name
                        &&& a.description == o.description
                        &&& a.icon == o.icon
                        &&& a.unlocked_at == crate::rules::spec_unlock_after(
                            o.unlocked_at,
                            spec_rule_holds(k, snap),
                            now,
                        )
                    })
                &&& (r matches Ok(res) && {
                    &&& res.xp_earned == earned
                    &&& res.new_exercise_level == new_level
                    &&& res.leveled_up == (new_level > e.current_level)
                    &&& res.newly_unlocked@.map_values(|s: String| s@) == spec_newly_from(
                        old(self).achievements@,
                        snap,
                        0,
                    )
                })
            },
    {
        let n = self.exercises.len();
        let mut found = false;
        let mut idx: usize = 0;
        let mut i: usize = 0;
        while i < n
            invariant
                *self == *old(self),
                self.wf(),
                i <= n,
                n == self.exercises@.len(),
                !found ==> forall|j: int|
                    0 <= j < i ==> (#[trigger] self.exercises@[j]).id != exercise_id,
                found ==> idx < n && self.exercises@[idx as int].id == exercise_id,
            decreases n - i,
        {
            if !found && self.exercises[i].id == exercise_id {
                found = true;
                idx = i;
            }
            i = i + 1;
        }
        if !found {
            proof {
                assert(!self.has_exercise(exercise_id));
            }
            return Err(EngineError::NotFound);
        }
        proof {
            assert(self.has_exercise(exercise_id));
            let c = self.exercise_index(exercise_id);
            assert(self.exercises@[c].id == exercise_id);
            if c != idx as int {
                assert(false);
            }
        }
        if reps < 1 {
            return Err(EngineError::InvalidInput);
        }
        let xp_per_rep = self.exercises[idx].xp_per_rep;
        proof {
            assert(1 <= xp_per_rep as i64 * reps as i64 <= 0x3FFFFFFF00000001i64) by (nonlinear_arith)
                requires
                    1 <= xp_per_rep as i64 <= 0x7FFFFFFFi64,
                    1 <= reps as i64 <= 0x7FFFFFFFi64,
            ;
        }
        let earned64: i64 = (xp_per_rep as i64) * (reps as i64);
        if earned64 > 2147483647 {
            return Err(EngineError::InvalidInput);
        }
        let earned: i32 = earned64 as i32;
        let grand_total = total_xp_of(&self.exercises);
        if earned64 > i64::MAX - grand_total {
            return Err(EngineError::InvalidInput);
        }
        if self.next_log_id == i64::MAX {
            return Err(EngineError::InvalidInput);
        }
        if self.logs.len() >= 100000000 {
            return Err(EngineError::InvalidInput);
        }
        if !durable_ok {
            return Err(EngineError::PersistenceFailure);
        }
        let ghost pre = *self;
        let old_level = self.exercises[idx].current_level;
        proof {
            lemma_total_xp_elem_le(self.exercises@, idx as int);
        }
        let new_xp: i64 = self.exercises[idx].total_xp + earned64;
        let new_level = level_from_xp(new_xp);
        self.exercises[idx].total_xp = new_xp;
        self.exercises[idx].current_level = new_level;
        proof {
            assert(self.exercises@ =~= pre.exercises@.update(
                idx as int,
                self.exercises@[idx as int],
            ));
            lemma_total_xp_update(pre.exercises@, idx as int, self.exercises@[idx as int]);
        }
        let entry = ExerciseLog {
            id: self.next_log_id,
            exercise_id,
            reps,
            xp_earned: earned,
            logged_at: now,
        };
        self.logs.push(entry);
        self.next_log_id = self.next_log_id + 1;
        self.streak = streak_update(&self.streak, now.date);
        proof {
            assert forall|k: int| 0 <= k < self.exercises@.len() implies (
            #[trigger] self.exercises@[k]).wf() by {
                if k != idx as int {
                    assert(self.exercises@[k] == pre.exercises@[k]);
                }
            }
        }
        let total_level = total_level_of(&self.exercises);
        let log_count: i64 = self.logs.len() as i64;
        let distinct = crate::rules::distinct_exercise_count(&self.logs);
        proof {
            assert forall|k: int| 0 <= k < self.logs@.len() implies (#[trigger] self.logs@[k]).reps
                >= 1 by {
                if k < self.logs@.len() - 1 {
                    assert(self.logs@[k] == pre.logs@[k]);
                }
            }
        }
        let flagship = crate::rules::flagship_reps_today(&self.exercises, &self.logs, now.date);
        let snap = RuleSnapshot {
            exercise_level: new_level,
            streak: self.streak.current_streak,
            total_level,
            log_count,
            distinct_exercises: distinct,
            flagship_reps_today: flagship,
        };
        let newly = check_achievements(&mut self.achievements, &snap, now);
        proof {
            assert(snap == self.spec_rule_snapshot(new_level as int, now.date));
            assert forall|k: int| 0 <= k < self.logs@.len() implies self.has_exercise(
                (#[trigger] self.logs@[k]).exercise_id,
            ) by {
                if k < self.logs@.len() - 1 {
                    assert(pre.has_exercise(pre.logs@[k].exercise_id));
                    let x = choose|x: int|
                        0 <= x < pre.exercises@.len() && pre.exercises@[x].id
                            == pre.logs@[k].exercise_id;
                    assert(self.exercises@[x].id == self.logs@[k].exercise_id);
                } else {
                    assert(self.exercises@[idx as int].id == exercise_id);
                }
            }
            assert(self.exercises@.len() <= 10000000);
            assert(self.logs@.len() <= 100000000);
            assert(spec_total_xp(self.exercises@) <= i64::MAX);
            assert(forall|k: int|
                0 <= k < self.exercises@.len() ==> (#[trigger] self.exercises@[k]).wf()
                    && self.exercises@[k].id < self.next_exercise_id);
            assert(forall|i2: int, j2: int|
                0 <= i2 < j2 < self.exercises@.len() ==> #[trigger] self.exercises@[i2].id
                    != #[trigger] self.exercises@[j2].id);
            assert forall|k: int| 0 <= k < self.logs@.len() implies (#[trigger] self.logs@[k]).wf()
                && self.logs@[k].id < self.next_log_id by {
                if k < self.logs@.len() - 1 {
                    assert(self.logs@[k] == pre.logs@[k]);
                }
            }
            assert forall|i2: int, j2: int| 0 <= i2 < j2 < self.logs@.len() implies (
            #[trigger] self.logs@[i2]).id != (#[trigger] self.logs@[j2]).id by {
                if j2 == self.logs@.len() - 1 {
                    assert(self.logs@[i2] == pre.logs@[i2]);
                    assert(self.logs@[i2].id < pre.next_log_id);
                }
            }
            assert(self.streak.wf());
            assert(self.achievements@.len() == 9);
            assert(forall|k: int|
                0 <= k < 9 ==> {
                    let a = #[trigger] self.achievements@[k];
                    &&& a.id == k + 1
                    &&& a.key@ == spec_achievement_key(k)
                    &&& a.name@ == spec_achievement_name(k)
                    &&& (a.description matches Some(d) && d@ == spec_achievement_desc(k))
                    &&& a.icon is None
                    &&& (a.unlocked_at matches Some(t) ==> t.wf())
                });
            assert(self.wf());
        }
        Ok(
            LogExerciseResult {
                xp_earned: earned,
                new_exercise_level: new_level,
                leveled_up: new_level > old_level,
                newly_unlocked: newly,
            },
        )
    }

    /// The log entries of the last `days` days (relative to `now`), most
    /// recently inserted first.
    pub fn get_exercise_history(&self, days: i32, now: Timestamp) -> (r: Vec<ExerciseLog>)
        requires
            self.wf(),
            now.wf(),
        ensures
            r@ == spec_history(
                self.logs@,
                now.spec_seconds() - days * 86400,
                self.logs@.len() as int,
            ),
    {
        let cutoff: i64 = now.seconds() - (days as i64) * 86400;
        let total = self.logs.len();
        let mut r: Vec<ExerciseLog> = Vec::new();
        let mut i: usize = total;
        while i > 0
            invariant
                self.wf(),
                i <= total,
                total == self.logs@.len(),
                cutoff == now.spec_seconds() - days * 86400,
                spec_history(self.logs@, cutoff as int, total as int) == r@ + spec_history(
                    self.logs@,
                    cutoff as int,
                    i as int,
                ),
            decreases i,
        {
            i = i - 1;
            let ghost r_before = r@;
            let ghost contribution: Seq<ExerciseLog> = if spec_history_keep(
                self.logs@[i as int],
                cutoff as int,
            ) {
                seq![self.logs@[i as int]]
            } else {
                Seq::empty()
            };
            if self.logs[i].logged_at.seconds() >= cutoff {
                r.push(self.logs[i].duplicate());
            }
            proof {
                assert(r@ =~= r_before + contribution);
                assert(spec_history(self.logs@, cutoff as int, i as int + 1) == contribution
                    + spec_history(self.logs@, cutoff as int, i as int));
                assert(r_before + (contribution + spec_history(self.logs@, cutoff as int, i as int))
                    =~= (r_before + contribution) + spec_history(self.logs@, cutoff as int, i as int));
            }
        }
        proof {
            assert(r@ =~= r@ + spec_history(self.logs@, cutoff as int, 0));
        }
        r
    }
}

} // verus!
