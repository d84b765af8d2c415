//! Full-state snapshots: exporting the aggregate for backup and importing
//! one back.  An import is validated in full - shape, ranges, referential
//! integrity between logs and exercises, and level/ledger consistency -
//! before a single field of the live state changes; the first violation
//! rejects the whole payload.

use vstd::prelude::*;
use crate::curve::{level_from_xp, spec_level_from_xp};
use crate::date::Timestamp;
use crate::engine::{
    spec_achievement_key, spec_total_level, spec_total_xp, Achievement, EngineError, EngineState,
    Exercise, ExerciseLog, Settings, UserStats,
};
use crate::streak::StreakState;

verus! {

/// A full serializable snapshot of the engine state.
#[derive(Debug)]
pub struct ExportData {
    pub version: String,
    pub exported_at: Timestamp,
    pub exercises: Vec<Exercise>,
    pub exercise_logs: Vec<ExerciseLog>,
    pub user_stats: UserStats,
    pub achievements: Vec<Achievement>,
    pub settings: Settings,
}

/// The largest exercise id in the first `n` catalog entries (0 when there
/// are none).
pub open spec fn spec_max_exercise_id(exs: Seq<Exercise>, n: int) -> int
    decreases n,
{
    if n <= 0 {
        0
    } else if exs[n - 1].id > spec_max_exercise_id(exs, n - 1) {
        exs[n - 1].id as int
    } else {
        spec_max_exercise_id(exs, n - 1)
    }
}

/// The largest log id in the first `n` log entries (0 when there are
/// none).
pub open spec fn spec_max_log_id(logs: Seq<ExerciseLog>, n: int) -> int
    decreases n,
{
    if n <= 0 {
        0
    } else if logs[n - 1].id > spec_max_log_id(logs, n - 1) {
        logs[n - 1].id as int
    } else {
        spec_max_log_id(logs, n - 1)
    }
}

/// The unlock timestamp that the last payload entry carrying `key` with a
/// set timestamp assigns, if any.
pub open spec fn spec_last_unlock(a: Seq<Achievement>, key: Seq<char>) -> Option<Timestamp>
    decreases a.len(),
{
    if a.len() == 0 {
        None
    } else if a.last().key@ == key && a.last().unlocked_at is Some {
        a.last().unlocked_at
    } else {
        spec_last_unlock(a.drop_last(), key)
    }
}

/// Whether some catalog entry of `exs` carries the exercise id of `l`.
pub open spec fn spec_log_references(l: ExerciseLog, exs: Seq<Exercise>) -> bool {
    exists|k: int| 0 <= k < exs.len() && (#[trigger] exs[k]).id == l.exercise_id
}

/// The streak record a snapshot's statistics describe.
pub open spec fn spec_snapshot_streak(stats: UserStats) -> StreakState {
    StreakState {
        current_streak: stats.current_streak,
        longest_streak: stats.longest_streak,
        last_exercise_date: stats.last_exercise_date,
    }
}

/// Whether a snapshot is acceptable as a whole: every exercise well
/// formed with a level matching its ledger and ids and names unique,
/// every log entry well formed and referring to an exercise of the
/// snapshot with ids unique, the XP grand total and the collection sizes
/// within range, the streak record consistent, and every carried unlock
/// timestamp valid.
pub open spec fn spec_valid_snapshot(data: ExportData) -> bool {
    &&& data.exercises@.len() <= 10000000
    &&& forall|i: int|
        0 <= i < data.exercises@.len() ==> (#[trigger] data.exercises@[i]).wf()
            && data.exercises@[i].id < i64::MAX
    &&& forall|i: int, j: int|
        0 <= i < j < data.exercises@.len() ==> #[trigger] data.exercises@[i].id
            != #[trigger] data.exercises@[j].id
    &&& forall|i: int, j: int|
        0 <= i < j < data.exercises@.len() ==> #[trigger] data.exercises@[i].name@
            != #[trigger] data.exercises@[j].name@
    &&& spec_total_xp(data.exercises@) <= i64::MAX
    &&& data.exercise_logs@.len() <= 100000000
    &&& forall|i: int|
        0 <= i < data.exercise_logs@.len() ==> (#[trigger] data.exercise_logs@[i]).wf()
            && data.exercise_logs@[i].id < i64::MAX
    &&& forall|i: int, j: int|
        0 <= i < j < data.exercise_logs@.len() ==> #[trigger] data.exercise_logs@[i].id
            != #[trigger] data.exercise_logs@[j].id
    &&& forall|i: int|
        0 <= i < data.exercise_logs@.len() ==> spec_log_references(
            #[trigger] data.exercise_logs@[i],
            data.exercises@,
        )
    &&& spec_snapshot_streak(data.user_stats).wf()
    &&& forall|i: int|
        0 <= i < data.achievements@.len() ==> ((#[trigger] data.achievements@[i]).unlocked_at
            matches Some(t) ==> t.wf())
}

impl EngineState {
    /// A snapshot of the whole aggregate, stamped with `now`.
    pub fn export_data(&self, now: Timestamp) -> (r: ExportData)
        requires
            self.wf(),
            now.wf(),
        ensures
            r.version@ == "1.0.0"@,
            r.exported_at == now,
            r.exercises@ == self.exercises@,
            r.exercise_logs@ == self.logs@,
            r.user_stats.total_xp == spec_total_xp(self.exercises@),
            r.user_stats.total_level == spec_total_level(self.exercises@),
            r.user_stats.current_streak == self.streak.current_streak,
            r.user_stats.longest_streak == self.streak.longest_streak,
            r.user_stats.last_exercise_date == self.streak.last_exercise_date,
            r.user_stats.exercise_count == self.exercises@.len(),
            r.achievements@ == self.achievements@,
            r.settings.reminder_enabled == self.settings.reminder_enabled,
            r.settings.reminder_interval_minutes == self.settings.reminder_interval_minutes,
            r.settings.sound_enabled == self.settings.sound_enabled,
            r.settings.daily_goal_xp == self.settings.daily_goal_xp,
            r.settings.theme_mode matches Some(t) && (match self.settings.theme_mode {
                Some(u) => t@ == u@,
                None => t@ == "dark"@,
            }),
    {
        ExportData {
            version: String::from_str("1.0.0"),
            exported_at: now,
            exercises: self.get_exercises(),
            exercise_logs: self.get_history_all(),
            user_stats: self.get_stats(),
            achievements: self.get_achievements(),
            settings: self.get_settings(),
        }
    }

    /// The whole log, in insertion order.
    fn get_history_all(&self) -> (r: Vec<ExerciseLog>)
        ensures
            r@ == self.logs@,
    {
        let mut r: Vec<ExerciseLog> = Vec::new();
        let mut i: usize = 0;
        while i < self.logs.len()
            invariant
                i <= self.logs@.len(),
                r@ =~= self.logs@.subrange(0, i as int),
            decreases self.logs@.len() - i,
        {
            proof {
                assert(self.logs@.subrange(0, i as int + 1) =~= self.logs@.subrange(
                    0,
                    i as int,
                ).push(self.logs@[i as int]));
            }
            r.push(self.logs[i].duplicate());
            i = i + 1;
        }
        proof {
            assert(r@ =~= self.logs@);
        }
        r
    }
}

fn validate_exercises(exs: &Vec<Exercise>) -> (b: bool)
    ensures
        b == {
            &&& exs@.len() <= 10000000
            &&& forall|i: int|
                0 <= i < exs@.len() ==> (#[trigger] exs@[i]).wf() && exs@[i].id < i64::MAX
            &&& forall|i: int, j: int|
                0 <= i < j < exs@.len() ==> #[trigger] exs@[i].id != #[trigger] exs@[j].id
            &&& forall|i: int, j: int|
                0 <= i < j < exs@.len() ==> #[trigger] exs@[i].name@ != #[trigger] exs@[j].name@
            &&& spec_total_xp(exs@) <= i64::MAX
        },
{
    let n = exs.len();
    if n > 10000000 {
        return false;
    }
    let mut i: usize = 0;
    while i < n
        invariant
            i <= n,
            n == exs@.len(),
            forall|k: int| 0 <= k < i ==> (#[trigger] exs@[k]).wf() && exs@[k].id < i64::MAX,
        decreases n - i,
    {
        let e = &exs[i];
        if e.id < 1 || e.id >= i64::MAX || e.xp_per_rep < 1 || e.total_xp < 0 {
            return false;
        }
        if e.current_level != level_from_xp(e.total_xp) {
            return false;
        }
        i = i + 1;
    }
    let mut i: usize = 0;
    while i < n
        invariant
            i <= n,
            n == exs@.len(),
            forall|a: int, b: int| 0 <= a < b <= i - 1 ==> #[trigger] exs@[a].id
                != #[trigger] exs@[b].id,
            forall|a: int, b: int| 0 <= a < b <= i - 1 ==> #[trigger] exs@[a].name@
                != #[trigger] exs@[b].name@,
        decreases n - i,
    {
        let mut j: usize = 0;
        while j < i
            invariant
                j <= i < n,
                n == exs@.len(),
                forall|a: int| 0 <= a < j ==> #[trigger] exs@[a].id != exs@[i as int].id,
                forall|a: int| 0 <= a < j ==> #[trigger] exs@[a].name@ != exs@[i as int].name@,
            decreases i - j,
        {
            if exs[j].id == exs[i].id {
                return false;
            }
            if crate::text::str_eq(exs[j].name.as_str(), exs[i].name.as_str()) {
                return false;
            }
            j = j + 1;
        }
        i = i + 1;
    }
    let mut total: i64 = 0;
    let mut i: usize = 0;
    while i < n
        invariant
            i <= n,
            n == exs@.len(),
            forall|k: int| 0 <= k < n ==> (#[trigger] exs@[k]).wf() && exs@[k].id < i64::MAX,
            forall|a: int, b: int| 0 <= a < b < n ==> #[trigger] exs@[a].id
                != #[trigger] exs@[b].id,
            forall|a: int, b: int| 0 <= a < b < n ==> #[trigger] exs@[a].name@
                != #[trigger] exs@[b].name@,
            total == spec_total_xp(exs@.subrange(0, i as int)),
            0 <= total,
        decreases n - i,
    {
        proof {
            assert(exs@.subrange(0, i as int + 1).drop_last() =~= exs@.subrange(0, i as int));
        }
        if exs[i].total_xp > i64::MAX - total {
            proof {
                crate::engine::lemma_total_xp_prefix_le(exs@, i as int + 1);
            }
            return false;
        }
        total = total + exs[i].total_xp;
        i = i + 1;
    }
    proof {
        assert(exs@.subrange(0, n as int) =~= exs@);
    }
    true
}

fn log_reference_ok(l: &ExerciseLog, exs: &Vec<Exercise>) -> (b: bool)
    ensures
        b == spec_log_references(*l, exs@),
{
    let n = exs.len();
    let mut k: usize = 0;
    while k < n
        invariant
            k <= n,
            n == exs@.len(),
            forall|x: int| 0 <= x < k ==> (#[trigger] exs@[x]).id != l.exercise_id,
        decreases n - k,
    {
        if exs[k].id == l.exercise_id {
            return true;
        }
        k = k + 1;
    }
    false
}

fn validate_logs(logs: &Vec<ExerciseLog>, exs: &Vec<Exercise>) -> (b: bool)
    ensures
        b == {
            &&& logs@.len() <= 100000000
            &&& forall|i: int|
                0 <= i < logs@.len() ==> (#[trigger] logs@[i]).wf() && logs@[i].id < i64::MAX
            &&& forall|i: int, j: int|
                0 <= i < j < logs@.len() ==> #[trigger] logs@[i].id != #[trigger] logs@[j].id
            &&& forall|i: int|
                0 <= i < logs@.len() ==> spec_log_references(#[trigger] logs@[i], exs@)
        },
{
    let n = logs.len();
    if n > 100000000 {
        return false;
    }
    let mut i: usize = 0;
    while i < n
        invariant
            i <= n,
            n == logs@.len(),
            forall|k: int| 0 <= k < i ==> (#[trigger] logs@[k]).wf() && logs@[k].id < i64::MAX,
            forall|k: int| 0 <= k < i ==> spec_log_references(#[trigger] logs@[k], exs@),
        decreases n - i,
    {
        let l = &logs[i];
        if l.id < 1 || l.id >= i64::MAX || l.reps < 1 || l.xp_earned < 0 {
            return false;
        }
        if !l.logged_at.date.is_valid() || l.logged_at.second_of_day >= 86400 {
            return false;
        }
        if !log_reference_ok(l, exs) {
            return false;
        }
        i = i + 1;
    }
    let mut i: usize = 0;
    while i < n
        invariant
            i <= n,
            n == logs@.len(),
            forall|k: int| 0 <= k < n ==> (#[trigger] logs@[k]).wf() && logs@[k].id < i64::MAX,
            forall|k: int| 0 <= k < n ==> spec_log_references(#[trigger] logs@[k], exs@),
            forall|a: int, b: int| 0 <= a < b <= i - 1 ==> #[trigger] logs@[a].id
                != #[trigger] logs@[b].id,
        decreases n - i,
    {
        let mut j: usize = 0;
        while j < i
            invariant
                j <= i < n,
                n == logs@.len(),
                forall|k: int| 0 <= k < n ==> (#[trigger] logs@[k]).wf() && logs@[k].id < i64::MAX,
                forall|k: int| 0 <= k < n ==> spec_log_references(#[trigger] logs@[k], exs@),
                forall|a: int, b: int| 0 <= a < b <= i - 1 ==> #[trigger] logs@[a].id
                    != #[trigger] logs@[b].id,
                forall|a: int| 0 <= a < j ==> #[trigger] logs@[a].id != logs@[i as int].id,
            decreases i - j,
        {
            if logs[j].id == logs[i].id {
                return false;
            }
            j = j + 1;
        }
        i = i + 1;
    }
    true
}

fn validate_streak(stats: &UserStats) -> (b: bool)
    ensures
        b == spec_snapshot_streak(*stats).wf(),
{
    if stats.current_streak < 0 || stats.current_streak > stats.longest_streak {
        return false;
    }
    match &stats.last_exercise_date {
        None => stats.current_streak == 0,
        Some(d) => {
            if !d.is_valid() {
                return false;
            }
            1 <= stats.current_streak && (stats.current_streak as i64) <= d.day_number() + 1
        },
    }
}

fn validate_achievement_stamps(a: &Vec<Achievement>) -> (b: bool)
    ensures
        b == forall|i: int|
            0 <= i < a@.len() ==> ((#[trigger] a@[i]).unlocked_at matches Some(t) ==> t.wf()),
{
    let n = a.len();
    let mut i: usize = 0;
    while i < n
        invariant
            i <= n,
            n == a@.len(),
            forall|k: int| 0 <= k < i ==> ((#[trigger] a@[k]).unlocked_at matches Some(t)
                ==> t.wf()),
        decreases n - i,
    {
        match &a[i].unlocked_at {
            Some(t) => {
                if !t.date.is_valid() || t.second_of_day >= 86400 {
                    return false;
                }
            },
            None => {},
        }
        i = i + 1;
    }
    true
}

fn max_exercise_id(exs: &Vec<Exercise>) -> (r: i64)
    requires
        forall|i: int| 0 <= i < exs@.len() ==> 0 <= (#[trigger] exs@[i]).id,
    ensures
        r == spec_max_exercise_id(exs@, exs@.len() as int),
        0 <= r,
        forall|i: int| 0 <= i < exs@.len() ==> (#[trigger] exs@[i]).id <= r,
        r == 0 || exists|i: int| 0 <= i < exs@.len() && r == (#[trigger] exs@[i]).id,
{
    let n = exs.len();
    let mut m: i64 = 0;
    let mut i: usize = 0;
    while i < n
        invariant
            i <= n,
            n == exs@.len(),
            forall|k: int| 0 <= k < n ==> 0 <= (#[trigger] exs@[k]).id,
            m == spec_max_exercise_id(exs@, i as int),
            0 <= m,
            forall|k: int| 0 <= k < i ==> (#[trigger] exs@[k]).id <= m,
            m == 0 || exists|k: int| 0 <= k < i && m == (#[trigger] exs@[k]).id,
        decreases n - i,
    {
        if exs[i].id > m {
            m = exs[i].id;
        }
        i = i + 1;
    }
    m
}

fn max_log_id(logs: &Vec<ExerciseLog>) -> (r: i64)
    requires
        forall|i: int| 0 <= i < logs@.len() ==> 0 <= (#[trigger] logs@[i]).id,
    ensures
        r == spec_max_log_id(logs@, logs@.len() as int),
        0 <= r,
        forall|i: int| 0 <= i < logs@.len() ==> (#[trigger] logs@[i]).id <= r,
        r == 0 || exists|i: int| 0 <= i < logs@.len() && r == (#[trigger] logs@[i]).id,
{
    let n = logs.len();
    let mut m: i64 = 0;
    let mut i: usize = 0;
    while i < n
        invariant
            i <= n,
            n == logs@.len(),
            forall|k: int| 0 <= k < n ==> 0 <= (#[trigger] logs@[k]).id,
            m == spec_max_log_id(logs@, i as int),
            0 <= m,
            forall|k: int| 0 <= k < i ==> (#[trigger] logs@[k]).id <= m,
            m == 0 || exists|k: int| 0 <= k < i && m == (#[trigger] logs@[k]).id,
        decreases n - i,
    {
        if logs[i].id > m {
            m = logs[i].id;
        }
        i = i + 1;
    }
    m
}

fn last_unlock(a: &Vec<Achievement>, key: &str) -> (r: Option<Timestamp>)
    ensures
        r == spec_last_unlock(a@, key@),
{
    let mut i: usize = a.len();
    proof {
        assert(a@.subrange(0, a@.len() as int) =~= a@);
    }
    while i > 0
        invariant
            i <= a@.len(),
            spec_last_unlock(a@, key@) == spec_last_unlock(a@.subrange(0, i as int), key@),
        decreases i,
    {
        i = i - 1;
        proof {
            assert(a@.subrange(0, i as int + 1).drop_last() =~= a@.subrange(0, i as int));
            assert(a@.subrange(0, i as int + 1).last() == a@[i as int]);
        }
        if a[i].unlocked_at.is_some() && crate::text::str_eq(a[i].key.as_str(), key) {
            return a[i].unlocked_at;
        }
    }
    proof {
        assert(a@.subrange(0, 0) =~= Seq::<Achievement>::empty());
    }
    None
}

impl EngineState {
    /// Replaces the live state with a snapshot, after validating it in
    /// full: an invalid payload is rejected with no effect at all.  The
    /// catalog and log are taken as given; the streak record comes from
    /// the snapshot's statistics; each fixed achievement takes the unlock
    /// timestamp of the last matching payload entry that carries one;
    /// settings are taken from the snapshot except that an absent theme
    /// leaves the current one in place.
    pub fn import_data(&mut self, data: &ExportData) -> (r: Result<(), EngineError>)
        requires
            old(self).wf(),
        ensures
            final(self).wf(),
            r is Ok <==> spec_valid_snapshot(*data),
            !spec_valid_snapshot(*data) ==> r == Err::<(), EngineError>(EngineError::InvalidInput)
                && *final(self) == *old(self),
            spec_valid_snapshot(*data) ==> {
                &&& final(self).exercises@ == data.exercises@
                &&& final(self).logs@ == data.exercise_logs@
                &&& final(self).streak == spec_snapshot_streak(data.user_stats)
                &&& final(self).next_exercise_id == spec_max_exercise_id(
                    data.exercises@,
                    data.exercises@.len() as int,
                ) + 1
                &&& final(self).next_log_id == spec_max_log_id(
                    data.exercise_logs@,
                    data.exercise_logs@.len() as int,
                ) + 1
                &&& final(self).achievements@.len() == 9
                &&& (forall|k: int|
                    0 <= k < 9 ==> {
                        let a = #[trigger] final(self).achievements@[k];
                        let o = old(self).achievements@[k];
                        &&& a.id == o.id
                        &&& a.key == o.key
                        &&& a.name == o.name
                        &&& a.description == o.description
                        &&& a.icon == o.icon
                        &&& a.unlocked_at == spec_last_unlock(
                            data.achievements@,
                            spec_achievement_key(k),
                        )
                    })
                &&& final(self).settings.reminder_enabled == data.settings.reminder_enabled
                &&& final(self).settings.reminder_interval_minutes
                    == data.settings.reminder_interval_minutes
                &&& final(self).settings.sound_enabled == data.settings.sound_enabled
                &&& final(self).settings.daily_goal_xp == data.settings.daily_goal_xp
                &&& (data.settings.theme_mode matches Some(t)
                    ==> (final(self).settings.theme_mode matches Some(u) && u@ == t@))
                &&& (data.settings.theme_mode is None ==> final(self).settings.theme_mode
                    == old(self).settings.theme_mode)
            },
    {
        if !validate_exercises(&data.exercises) {
            return Err(EngineError::InvalidInput);
        }
        if !validate_logs(&data.exercise_logs, &data.exercises) {
            return Err(EngineError::InvalidInput);
        }
        if !validate_streak(&data.user_stats) {
            return Err(EngineError::InvalidInput);
        }
        if !validate_achievement_stamps(&data.achievements) {
            return Err(EngineError::InvalidInput);
        }
        let ghost pre = *self;
        let mut new_exs: Vec<Exercise> = Vec::new();
        let mut i: usize = 0;
        while i < data.exercises.len()
            invariant
                i <= data.exercises@.len(),
                new_exs@ =~= data.exercises@.subrange(0, i as int),
            decreases data.exercises@.len() - i,
        {
            proof {
                assert(data.exercises@.subrange(0, i as int + 1) =~= data.exercises@.subrange(
                    0,
                    i as int,
                ).push(data.exercises@[i as int]));
            }
            new_exs.push(data.exercises[i].duplicate());
            i = i + 1;
        }
        proof {
            assert(new_exs@ =~= data.exercises@);
        }
        let mut new_logs: Vec<ExerciseLog> = Vec::new();
        let mut i: usize = 0;
        while i < data.exercise_logs.len()
            invariant
                i <= data.exercise_logs@.len(),
                new_logs@ =~= data.exercise_logs@.subrange(0, i as int),
            decreases data.exercise_logs@.len() - i,
        {
            proof {
                assert(data.exercise_logs@.subrange(0, i as int + 1)
                    =~= data.exercise_logs@.subrange(0, i as int).push(
                    data.exercise_logs@[i as int],
                ));
            }
            new_logs.push(data.exercise_logs[i].duplicate());
            i = i + 1;
        }
        proof {
            assert(new_logs@ =~= data.exercise_logs@);
        }
        let next_ex = max_exercise_id(&data.exercises) + 1;
        let next_log = max_log_id(&data.exercise_logs) + 1;
        let mut new_achievements: Vec<Achievement> = Vec::new();
        let mut i: usize = 0;
        while i < self.achievements.len()
            invariant
                *self == pre,
                pre.wf(),
                i <= pre.achievements@.len(),
                new_achievements@.len() == i,
                forall|k: int|
                    0 <= k < i ==> {
                        let a = #[trigger] new_achievements@[k];
                        let o = pre.achievements@[k];
                        &&& a.id == o.id
                        &&& a.key == o.key
                        &&& a.name == o.name
                        &&& a.description == o.description
                        &&& a.icon == o.icon
                        &&& a.unlocked_at == spec_last_unlock(
                            data.achievements@,
                            spec_achievement_key(k),
                        )
                    },
            decreases pre.achievements@.len() - i,
        {
            let mut na = self.achievements[i].duplicate();
            let stamp = last_unlock(&data.achievements, na.key.as_str());
            na.unlocked_at = stamp;
            new_achievements.push(na);
            i = i + 1;
        }
        self.exercises = new_exs;
        self.logs = new_logs;
        self.streak = StreakState {
            current_streak: data.user_stats.current_streak,
            longest_streak: data.user_stats.longest_streak,
            last_exercise_date: data.user_stats.last_exercise_date,
        };
        self.achievements = new_achievements;
        self.next_exercise_id = next_ex;
        self.next_log_id = next_log;
        let theme = match &data.settings.theme_mode {
            Some(t) => Some(t.clone()),
            None => {
                match &self.settings.theme_mode {
                    Some(u) => Some(u.clone()),
                    None => None,
                }
            },
        };
        self.settings = Settings {
            reminder_enabled: data.settings.reminder_enabled,
            reminder_interval_minutes: data.settings.reminder_interval_minutes,
            sound_enabled: data.settings.sound_enabled,
            daily_goal_xp: data.settings.daily_goal_xp,
            theme_mode: theme,
        };
        proof {
            assert forall|k: int| 0 <= k < 9 implies ((#[trigger] self.achievements@[k]).unlocked_at
                matches Some(t) ==> t.wf()) by {
                let stamp = spec_last_unlock(data.achievements@, spec_achievement_key(k));
                lemma_last_unlock_wf(data.achievements@, spec_achievement_key(k));
            }
            assert forall|k: int| 0 <= k < self.logs@.len() implies self.has_exercise(
                (#[trigger] self.logs@[k]).exercise_id,
            ) by {
                assert(spec_log_references(data.exercise_logs@[k], data.exercises@));
                let x = choose|x: int|
                    0 <= x < data.exercises@.len() && (#[trigger] data.exercises@[x]).id
                        == data.exercise_logs@[k].exercise_id;
                assert(self.exercises@[x].id == self.logs@[k].exercise_id);
            }
            assert(self.wf());
        }
        Ok(())
    }
}

/// A carried unlock timestamp found by the last-entry scan is one of the
/// payload's own, so a validated payload only hands out valid stamps.
proof fn lemma_last_unlock_wf(a: Seq<Achievement>, key: Seq<char>)
    requires
        forall|i: int| 0 <= i < a.len() ==> ((#[trigger] a[i]).unlocked_at matches Some(t)
            ==> t.wf()),
    ensures
        spec_last_unlock(a, key) matches Some(t) ==> t.wf(),
    decreases a.len(),
{
    if a.len() > 0 {
        if !(a.last().key@ == key && a.last().unlocked_at is Some) {
            lemma_last_unlock_wf(a.drop_last(), key);
        }
    }
}

} // verus!
