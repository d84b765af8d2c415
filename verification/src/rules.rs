//! The achievement ruleset: nine independent, monotonic predicates over a
//! read-only snapshot of the aggregate progress, and the evaluator that
//! unlocks an achievement the first time its predicate holds and never
//! touches it again.  The snapshot metrics (total level, lifetime log
//! count, distinct exercises, same-day flagship reps) are computed here
//! from the ground-truth log.

use vstd::prelude::*;
use crate::date::{Date, Timestamp};
use crate::engine::{Achievement, Exercise, ExerciseLog};
use crate::text::str_eq;

verus! {

/// The read-only snapshot an achievement rule is evaluated against.
#[derive(Clone, Copy, Debug, PartialEq, Eq, Structural)]
pub struct RuleSnapshot {
    /// The new level of the exercise the transaction just charged.
    pub exercise_level: i32,
    /// The streak after the transaction's streak transition.
    pub streak: i32,
    /// The sum of `current_level` across the whole catalog.
    pub total_level: i64,
    /// The lifetime count of log entries, the one just appended included.
    pub log_count: i64,
    /// How many distinct exercises have ever been logged.
    pub distinct_exercises: i64,
    /// The reps of the flagship exercise logged on the current date.
    pub flagship_reps_today: i64,
}

/// Whether the rule of the `i`-th achievement holds of a snapshot; every
/// threshold is inclusive.
pub open spec fn spec_rule_holds(i: int, snap: RuleSnapshot) -> bool {
    if i == 0 {
        snap.log_count == 1
    } else if i == 1 {
        snap.flagship_reps_today >= 100
    } else if i == 2 {
        snap.streak >= 7
    } else if i == 3 {
        snap.streak >= 30
    } else if i == 4 {
        snap.exercise_level >= 10
    } else if i == 5 {
        snap.exercise_level >= 25
    } else if i == 6 {
        snap.exercise_level >= 50
    } else if i == 7 {
        snap.total_level >= 100
    } else if i == 8 {
        snap.distinct_exercises >= 5
    } else {
        false
    }
}

/// The keys of the achievements from position `i` on that are locked now
/// and whose rules hold of the snapshot, in table order.
pub open spec fn spec_newly_from(a: Seq<Achievement>, snap: RuleSnapshot, i: int) -> Seq<Seq<char>>
    decreases a.len() - i,
{
    if i < 0 || i >= a.len() {
        Seq::empty()
    } else {
        (if a[i].unlocked_at is None && spec_rule_holds(i, snap) {
            seq![a[i].key@]
        } else {
            Seq::empty()
        }) + spec_newly_from(a, snap, i + 1)
    }
}

fn rule_holds(i: usize, snap: &RuleSnapshot) -> (b: bool)
    ensures
        b == spec_rule_holds(i as int, *snap),
{
    if i == 0 {
        snap.log_count == 1
    } else if i == 1 {
        snap.flagship_reps_today >= 100
    } else if i == 2 {
        snap.streak >= 7
    } else if i == 3 {
        snap.streak >= 30
    } else if i == 4 {
        snap.exercise_level >= 10
    } else if i == 5 {
        snap.exercise_level >= 25
    } else if i == 6 {
        snap.exercise_level >= 50
    } else if i == 7 {
        snap.total_level >= 100
    } else if i == 8 {
        snap.distinct_exercises >= 5
    } else {
        false
    }
}

/// Evaluates every rule against the snapshot and unlocks, at `now`, each
/// achievement that is still locked and whose rule holds.  An achievement
/// already unlocked keeps its timestamp untouched, whatever the snapshot
/// says; the definitions never change.  Returns the keys newly unlocked by
/// this evaluation, in table order.
pub fn check_achievements(achievements: &mut Vec<Achievement>, snap: &RuleSnapshot, now: Timestamp)
    -> (newly: Vec<String>)
    ensures
        final(achievements)@.len() == old(achievements)@.len(),
        forall|i: int|
            0 <= i < old(achievements)@.len() ==> {
                let a = #[trigger] final(achievements)@[i];
                let o = old(achievements)@[i];
                &&& a.id == o.id
                &&& a.key == o.key
                &&& a.name == o.name
                &&& a.description == o.description
                &&& a.icon == o.icon
                &&& a.unlocked_at == spec_unlock_after(
                    o.unlocked_at,
                    spec_rule_holds(i, *snap),
                    now,
                )
            },
        newly@.map_values(|s: String| s@) == spec_newly_from(old(achievements)@, *snap, 0),
{
    let ghost orig = achievements@;
    let n = achievements.len();
    let mut updated: Vec<Achievement> = Vec::new();
    let mut newly: Vec<String> = Vec::new();
    let mut i: usize = 0;
    while i < n
        invariant
            achievements@ == orig,
            i <= n,
            n == orig.len(),
            updated@.len() == i,
            forall|j: int|
                0 <= j < i ==> {
                    let a = #[trigger] updated@[j];
                    let o = orig[j];
                    &&& a.id == o.id
                    &&& a.key == o.key
                    &&& a.name == o.name
                    &&& a.description == o.description
                    &&& a.icon == o.icon
                    &&& a.unlocked_at == (if o.unlocked_at is Some {
                        o.unlocked_at
                    } else if spec_rule_holds(j, *snap) {
                        Some(now)
                    } else {
                        None
                    })
                },
            spec_newly_from(orig, *snap, 0) == newly@.map_values(|s: String| s@)
                + spec_newly_from(orig, *snap, i as int),
        decreases n - i,
    {
        let ghost newly_before = newly@;
        let ghost contribution: Seq<Seq<char>> = if orig[i as int].unlocked_at is None
            && spec_rule_holds(i as int, *snap) {
            seq![orig[i as int].key@]
        } else {
            Seq::empty()
        };
        let mut na = achievements[i].duplicate();
        if na.unlocked_at.is_none() && rule_holds(i, snap) {
            newly.push(na.key.clone());
            na.unlocked_at = Some(now);
        }
        updated.push(na);
        i = i + 1;
        proof {
            assert(newly@.map_values(|s: String| s@) =~= newly_before.map_values(|s: String| s@)
                + contribution);
            assert(spec_newly_from(orig, *snap, i - 1) == contribution + spec_newly_from(
                orig,
                *snap,
                i as int,
            ));
            assert(newly_before.map_values(|s: String| s@) + (contribution + spec_newly_from(
                orig,
                *snap,
                i as int,
            )) =~= (newly_before.map_values(|s: String| s@) + contribution) + spec_newly_from(
                orig,
                *snap,
                i as int,
            ));
        }
    }
    *achievements = updated;
    proof {
        assert(spec_newly_from(orig, *snap, n as int) =~= Seq::<Seq<char>>::empty());
        assert(newly@.map_values(|s: String| s@) =~= newly@.map_values(|s: String| s@)
            + spec_newly_from(orig, *snap, n as int));
    }
    newly
}

/// The unlock timestamp after one rule evaluation: a set timestamp is
/// kept untouched, a locked achievement whose rule holds gets `now`, and
/// anything else stays locked.
pub open spec fn spec_unlock_after(o: Option<Timestamp>, holds: bool, now: Timestamp) -> Option<
    Timestamp,
> {
    if o is Some {
        o
    } else if holds {
        Some(now)
    } else {
        None
    }
}

/// Unlocking is permanent and idempotent: once an achievement's timestamp
/// is set, any further rule evaluation - whatever its snapshot says and
/// whenever it runs - leaves the timestamp exactly as it is and does not
/// put the achievement's key into the newly-unlocked list again.
pub proof fn lemma_unlock_permanent(a: Seq<Achievement>, snap: RuleSnapshot, now: Timestamp, i: int)
    requires
        0 <= i < a.len(),
        a[i].unlocked_at is Some,
        forall|j: int| 0 <= j < a.len() && j != i ==> (#[trigger] a[j]).key@ != a[i].key@,
    ensures
        spec_unlock_after(a[i].unlocked_at, spec_rule_holds(i, snap), now) == a[i].unlocked_at,
        !spec_newly_from(a, snap, 0).contains(a[i].key@),
{
    lemma_newly_excludes_unlocked(a, snap, i, 0);
}

proof fn lemma_newly_excludes_unlocked(a: Seq<Achievement>, snap: RuleSnapshot, i: int, from: int)
    requires
        0 <= i < a.len(),
        a[i].unlocked_at is Some,
        forall|j: int| 0 <= j < a.len() && j != i ==> (#[trigger] a[j]).key@ != a[i].key@,
        0 <= from,
    ensures
        !spec_newly_from(a, snap, from).contains(a[i].key@),
    decreases a.len() - from,
{
    if from < a.len() {
        lemma_newly_excludes_unlocked(a, snap, i, from + 1);
        let key = a[i].key@;
        let contribution: Seq<Seq<char>> = if a[from].unlocked_at is None && spec_rule_holds(
            from,
            snap,
        ) {
            seq![a[from].key@]
        } else {
            Seq::empty()
        };
        let rest = spec_newly_from(a, snap, from + 1);
        if spec_newly_from(a, snap, from).contains(key) {
            let whole = spec_newly_from(a, snap, from);
            let idx = choose|idx: int| 0 <= idx < whole.len() && whole[idx] == key;
            if idx < contribution.len() {
                assert(a[from].key@ == key);
                assert(a[from].unlocked_at is None);
                assert(from != i ==> a[from].key@ != key);
                assert(false);
            } else {
                assert(rest[idx - contribution.len()] == key);
                assert(rest.contains(key));
                assert(false);
            }
        }
    }
}

/// How many distinct exercise ids occur among the first `n` log entries:
/// each entry counts exactly when no earlier entry carries its id.
pub open spec fn spec_distinct_upto(logs: Seq<ExerciseLog>, n: int) -> int
    decreases n,
{
    if n <= 0 {
        0
    } else {
        spec_distinct_upto(logs, n - 1) + (if exists|j: int|
            0 <= j < n - 1 && #[trigger] logs[j].exercise_id == logs[n - 1].exercise_id {
            0int
        } else {
            1int
        })
    }
}

/// Counts the distinct exercise ids that occur in the log.
pub fn distinct_exercise_count(logs: &Vec<ExerciseLog>) -> (r: i64)
    requires
        logs@.len() <= 100000000,
    ensures
        r == spec_distinct_upto(logs@, logs@.len() as int),
        0 <= r <= logs@.len(),
{
    let n = logs.len();
    let mut count: i64 = 0;
    let mut i: usize = 0;
    while i < n
        invariant
            i <= n,
            n == logs@.len(),
            n <= 100000000,
            count == spec_distinct_upto(logs@, i as int),
            0 <= count <= i,
        decreases n - i,
    {
        let mut seen_before = false;
        let mut j: usize = 0;
        while j < i
            invariant
                j <= i < n,
                n == logs@.len(),
                seen_before == exists|k: int|
                    0 <= k < j && #[trigger] logs@[k].exercise_id == logs@[i as int].exercise_id,
            decreases i - j,
        {
            if logs[j].exercise_id == logs[i].exercise_id {
                seen_before = true;
            }
            j = j + 1;
        }
        if !seen_before {
            count = count + 1;
        }
        i = i + 1;
    }
    count
}

/// Whether the exercise carrying `id` is the flagship exercise.
pub open spec fn spec_is_flagship(exs: Seq<Exercise>, id: i64) -> bool {
    exists|k: int|
        0 <= k < exs.len() && (#[trigger] exs[k]).id == id && exs[k].name@ == "Pushups"@
}

fn is_flagship(exs: &Vec<Exercise>, id: i64) -> (b: bool)
    ensures
        b == spec_is_flagship(exs@, id),
{
    let n = exs.len();
    let mut i: usize = 0;
    while i < n
        invariant
            i <= n,
            n == exs@.len(),
            forall|k: int|
                0 <= k < i ==> !((#[trigger] exs@[k]).id == id && exs@[k].name@ == "Pushups"@),
        decreases n - i,
    {
        if exs[i].id == id && str_eq(exs[i].name.as_str(), "Pushups") {
            return true;
        }
        i = i + 1;
    }
    false
}

/// The reps contributed to the flagship day total by one log entry.
pub open spec fn spec_flagship_contribution(
    exs: Seq<Exercise>,
    l: ExerciseLog,
    today: Date,
) -> int {
    if l.logged_at.date == today && spec_is_flagship(exs, l.exercise_id) {
        l.reps as int
    } else {
        0
    }
}

/// The reps of the flagship exercise logged on `today`, summed over the
/// first `n` log entries.
pub open spec fn spec_flagship_upto(
    exs: Seq<Exercise>,
    logs: Seq<ExerciseLog>,
    today: Date,
    n: int,
) -> int
    decreases n,
{
    if n <= 0 {
        0
    } else {
        spec_flagship_upto(exs, logs, today, n - 1) + spec_flagship_contribution(
            exs,
            logs[n - 1],
            today,
        )
    }
}

/// Sums the flagship exercise's reps logged on `today`.
pub fn flagship_reps_today(exs: &Vec<Exercise>, logs: &Vec<ExerciseLog>, today: Date) -> (r: i64)
    requires
        logs@.len() <= 100000000,
        forall|i: int| 0 <= i < logs@.len() ==> (#[trigger] logs@[i]).reps >= 1,
    ensures
        r == spec_flagship_upto(exs@, logs@, today, logs@.len() as int),
        r >= 0,
{
    let n = logs.len();
    let mut sum: i64 = 0;
    let mut i: usize = 0;
    while i < n
        invariant
            i <= n,
            n == logs@.len(),
            n <= 100000000,
            forall|k: int| 0 <= k < logs@.len() ==> (#[trigger] logs@[k]).reps >= 1,
            sum == spec_flagship_upto(exs@, logs@, today, i as int),
            0 <= sum <= i * 2147483647,
        decreases n - i,
    {
        let l = &logs[i];
        if l.logged_at.date.year == today.year && l.logged_at.date.month == today.month
            && l.logged_at.date.day == today.day {
            if is_flagship(exs, l.exercise_id) {
                sum = sum + (l.reps as i64);
            }
        } else {
            proof {
                assert(l.logged_at.date != today);
            }
        }
        i = i + 1;
    }
    sum
}

} // verus!
