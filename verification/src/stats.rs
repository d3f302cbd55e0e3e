//! Coding-time totals: per language, per period and per user.

use vstd::prelude::*;
use crate::activity::valid_instant;
use crate::models::{CodingActivity, CodingTimeSteps, FriendWithTime, UserIdentity};

verus! {

/// Seven days, nanoseconds.
pub const WEEK_NS: i128 = 604_800_000_000_000;

/// Thirty days, nanoseconds.
pub const MONTH_NS: i128 = 2_592_000_000_000_000;

/// Sum of the durations (seconds) of the activities selected by `f`.
pub open spec fn spec_sum(s: Seq<CodingActivity>, f: spec_fn(CodingActivity) -> bool) -> int
    decreases s.len(),
{
    if s.len() == 0 {
        0
    } else {
        spec_sum(s.drop_last(), f) + if f(s.last()) {
            s.last().duration as int
        } else {
            0
        }
    }
}

/// The language an activity is counted under: its language, or "none".
pub open spec fn spec_language_key(a: CodingActivity) -> Seq<char> {
    match a.language {
        Some(l) => l@,
        None => "none"@,
    }
}

/// Whether an activity lies in the period: all activities when `window` is
/// `None`, else those that started less than `window` nanoseconds before `now`.
pub open spec fn spec_in_window(a: CodingActivity, now: i128, window: Option<i128>) -> bool {
    match window {
        None => true,
        Some(w) => now - a.start_time < w,
    }
}

/// Activities of the period counted under language `lang`.
pub open spec fn language_filter(lang: Seq<char>, now: i128, window: Option<i128>) -> spec_fn(CodingActivity) -> bool {
    |a: CodingActivity| spec_in_window(a, now, window) && spec_language_key(a) == lang
}

/// Activities of the period.
pub open spec fn window_filter(now: i128, window: Option<i128>) -> spec_fn(CodingActivity) -> bool {
    |a: CodingActivity| spec_in_window(a, now, window)
}

/// Time coded in one language.
#[derive(Debug, Clone, PartialEq, Eq)]
pub struct LanguageTime {
    pub language: String,
    /// Seconds.
    pub time: i32,
}

/// Each language is listed once.
pub open spec fn spec_table_distinct(table: Seq<LanguageTime>) -> bool {
    forall|i: int, j: int| 0 <= i < j < table.len() ==> table[i].language@ != table[j].language@
}

/// Each listed language has an activity in the period.
#[verifier::opaque]
pub open spec fn spec_table_sound(table: Seq<LanguageTime>, s: Seq<CodingActivity>, now: i128, window: Option<i128>) -> bool {
    forall|i: int| #![trigger table[i]] 0 <= i < table.len() ==> exists|k: int| #![trigger s[k]] 0 <= k < s.len()
        && spec_in_window(s[k], now, window) && spec_language_key(s[k]) == table[i].language@
}

/// The language of each activity in the period is listed.
#[verifier::opaque]
pub open spec fn spec_table_complete(table: Seq<LanguageTime>, s: Seq<CodingActivity>, now: i128, window: Option<i128>) -> bool {
    forall|k: int| #![trigger s[k]] 0 <= k < s.len() && spec_in_window(s[k], now, window) ==> exists|i: int|
        #![trigger table[i]] 0 <= i < table.len() && table[i].language@ == spec_language_key(s[k])
}

/// Each listed time is the total of the period's activities in that language.
#[verifier::opaque]
pub open spec fn spec_table_sums(table: Seq<LanguageTime>, s: Seq<CodingActivity>, now: i128, window: Option<i128>) -> bool {
    forall|i: int| 0 <= i < table.len() ==> #[trigger] table[i].time as int == spec_sum(s, language_filter(table[i].language@, now, window))
}

/// Whether `table` lists each language of the period once, with the total
/// time of the period's activities in that language.
pub open spec fn spec_language_table(table: Seq<LanguageTime>, s: Seq<CodingActivity>, now: i128, window: Option<i128>) -> bool {
    &&& spec_table_distinct(table)
    &&& spec_table_sound(table, s, now, window)
    &&& spec_table_complete(table, s, now, window)
    &&& spec_table_sums(table, s, now, window)
}

fn language_key(a: &CodingActivity) -> (k: String)
    ensures
        k@ == spec_language_key(*a),
{
    match &a.language {
        Some(l) => l.clone(),
        None => "none".to_owned(),
    }
}

fn in_window(a: &CodingActivity, now: i128, window: Option<i128>) -> (b: bool)
    requires
        window is Some ==> valid_instant(now) && valid_instant(a.start_time),
    ensures
        b == spec_in_window(*a, now, window),
{
    match window {
        None => true,
        Some(w) => now - a.start_time < w,
    }
}

/// `new` is `prev` with `d` seconds added to language `key`, which is
/// appended when absent.
pub open spec fn spec_added(prev: Seq<LanguageTime>, new: Seq<LanguageTime>, key: Seq<char>, d: int) -> bool {
    if exists|j: int| 0 <= j < prev.len() && #[trigger] prev[j].language@ == key {
        &&& new.len() == prev.len()
        &&& forall|x: int| #![trigger new[x]] 0 <= x < prev.len() ==> new[x].language@ == prev[x].language@
            && new[x].time == if prev[x].language@ == key {
                prev[x].time + d
            } else {
                prev[x].time as int
            }
    } else {
        &&& new.len() == prev.len() + 1
        &&& forall|x: int| #![trigger new[x]] 0 <= x < prev.len() ==> new[x].language@ == prev[x].language@
            && new[x].time == prev[x].time
        &&& new[prev.len() as int].language@ == key
        &&& new[prev.len() as int].time == d
    }
}

/// Adds `d` seconds to language `key` of the table.
fn add_time(table: &mut Vec<LanguageTime>, key: String, d: i32)
    requires
        forall|i: int, j: int| 0 <= i < j < old(table)@.len() ==> old(table)@[i].language@ != old(table)@[j].language@,
        forall|x: int| 0 <= x < old(table)@.len() && #[trigger] old(table)@[x].language@ == key@
            ==> i32::MIN <= old(table)@[x].time + d <= i32::MAX,
    ensures
        spec_added(old(table)@, final(table)@, key@, d as int),
{
    let ghost prev = table@;
    let mut j: usize = 0;
    let mut found = false;
    while j < table.len()
        invariant_except_break
            !found,
        invariant
            j <= table.len(),
            table@ == prev,
            forall|x: int| 0 <= x < j ==> table@[x].language@ != key@,
        ensures
            table@ == prev,
            found ==> j < table.len() && table@[j as int].language@ == key@,
            !found ==> forall|x: int| 0 <= x < table@.len() ==> table@[x].language@ != key@,
        decreases table.len() - j,
    {
        if table[j].language.eq(&key) {
            found = true;
            break;
        }
        j = j + 1;
    }
    if found {
        let t = table[j].time + d;
        table.set(j, LanguageTime { language: key, time: t });
        proof {
            assert forall|x: int| #![trigger table@[x]] 0 <= x < prev.len() implies table@[x].language@
                == prev[x].language@ && table@[x].time == if prev[x].language@ == key@ {
                prev[x].time + d
            } else {
                prev[x].time as int
            } by {
                if x != j {
                    assert(prev[x].language@ != prev[j as int].language@);
                }
            }
        }
    } else {
        table.push(LanguageTime { language: key, time: d });
    }
}

/// The language keys of `new` are those of `prev`, plus `key` when it was absent.
proof fn lemma_added_keys(prev: Seq<LanguageTime>, new: Seq<LanguageTime>, key: Seq<char>, d: int)
    requires
        spec_added(prev, new, key, d),
        spec_table_distinct(prev),
    ensures
        spec_table_distinct(new),
        forall|x: int| 0 <= x < prev.len() ==> #[trigger] new[x].language@ == prev[x].language@,
        exists|x: int| 0 <= x < new.len() && #[trigger] new[x].language@ == key,
        forall|x: int| 0 <= x < new.len() ==> x < prev.len() || #[trigger] new[x].language@ == key,
{
    if exists|j: int| 0 <= j < prev.len() && #[trigger] prev[j].language@ == key {
        let j = choose|j: int| 0 <= j < prev.len() && #[trigger] prev[j].language@ == key;
        assert(new[j].language@ == prev[j].language@);
        assert forall|i: int, k: int| 0 <= i < k < new.len() implies new[i].language@ != new[k].language@ by {
            assert(new[i].language@ == prev[i].language@);
            assert(new[k].language@ == prev[k].language@);
        }
    } else {
        assert(new[prev.len() as int].language@ == key);
        assert forall|i: int, k: int| 0 <= i < k < new.len() implies new[i].language@ != new[k].language@ by {
            assert(new[i].language@ == prev[i].language@);
            if k < prev.len() {
                assert(new[k].language@ == prev[k].language@);
            }
        }
    }
}

proof fn lemma_step_sound(prev: Seq<LanguageTime>, new: Seq<LanguageTime>, t: Seq<CodingActivity>, a: CodingActivity, now: i128, window: Option<i128>)
    requires
        spec_table_sound(prev, t, now, window),
        new.len() >= prev.len(),
        forall|x: int| 0 <= x < prev.len() ==> #[trigger] new[x].language@ == prev[x].language@,
        forall|x: int| 0 <= x < new.len() ==> x < prev.len() || (spec_in_window(a, now, window)
            && #[trigger] new[x].language@ == spec_language_key(a)),
    ensures
        spec_table_sound(new, t.push(a), now, window),
{
    reveal(spec_table_sound);
    let t1 = t.push(a);
    assert forall|x: int| #![trigger new[x]] 0 <= x < new.len() implies exists|k: int| #![trigger t1[k]]
        0 <= k < t1.len() && spec_in_window(t1[k], now, window) && spec_language_key(t1[k]) == new[x].language@ by {
        if x < prev.len() {
            assert(new[x].language@ == prev[x].language@);
            let k = choose|k: int| #![trigger t[k]] 0 <= k < t.len() && spec_in_window(t[k], now, window)
                && spec_language_key(t[k]) == prev[x].language@;
            assert(t1[k] == t[k]);
        } else {
            let lang = new[x].language@;
            assert(x < prev.len() || (spec_in_window(a, now, window) && lang == spec_language_key(a)));
            assert(t1[t.len() as int] == a);
            assert(0 <= t.len() < t1.len() && spec_in_window(t1[t.len() as int], now, window)
                && spec_language_key(t1[t.len() as int]) == lang);
        }
    }
}

proof fn lemma_step_complete(prev: Seq<LanguageTime>, new: Seq<LanguageTime>, t: Seq<CodingActivity>, a: CodingActivity, now: i128, window: Option<i128>)
    requires
        spec_table_complete(prev, t, now, window),
        new.len() >= prev.len(),
        forall|x: int| 0 <= x < prev.len() ==> #[trigger] new[x].language@ == prev[x].language@,
        spec_in_window(a, now, window) ==> exists|x: int| 0 <= x < new.len() && #[trigger] new[x].language@ == spec_language_key(a),
    ensures
        spec_table_complete(new, t.push(a), now, window),
{
    reveal(spec_table_complete);
    let t1 = t.push(a);
    assert forall|k: int| #![trigger t1[k]] 0 <= k < t1.len() && spec_in_window(t1[k], now, window) implies exists|x: int|
        #![trigger new[x]] 0 <= x < new.len() && new[x].language@ == spec_language_key(t1[k]) by {
        if k < t.len() {
            assert(t1[k] == t[k]);
            let x = choose|x: int| #![trigger prev[x]] 0 <= x < prev.len() && prev[x].language@ == spec_language_key(t[k]);
            assert(new[x].language@ == prev[x].language@);
        } else {
            assert(t1[k] == a);
            let x = choose|x: int| 0 <= x < new.len() && #[trigger] new[x].language@ == spec_language_key(a);
        }
    }
}

proof fn lemma_step_sums(prev: Seq<LanguageTime>, new: Seq<LanguageTime>, t: Seq<CodingActivity>, a: CodingActivity, now: i128, window: Option<i128>)
    requires
        spec_table_sums(prev, t, now, window),
        spec_table_complete(prev, t, now, window),
        spec_in_window(a, now, window) ==> spec_added(prev, new, spec_language_key(a), a.duration as int),
        !spec_in_window(a, now, window) ==> new == prev,
    ensures
        spec_table_sums(new, t.push(a), now, window),
{
    reveal(spec_table_sums);
    reveal(spec_table_complete);
    let t1 = t.push(a);
    let key = spec_language_key(a);
    assert(t1.drop_last() =~= t);
    assert forall|x: int| 0 <= x < new.len() implies #[trigger] new[x].time as int
        == spec_sum(t1, language_filter(new[x].language@, now, window)) by {
        if spec_in_window(a, now, window) {
            if x < prev.len() {
                assert(new[x].language@ == prev[x].language@);
                assert(prev[x].time as int == spec_sum(t, language_filter(prev[x].language@, now, window)));
            } else {
                assert forall|k: int| 0 <= k < t.len() && spec_in_window(t[k], now, window) implies #[trigger] spec_language_key(t[k]) != key by {
                    let i = choose|i: int| #![trigger prev[i]] 0 <= i < prev.len() && prev[i].language@ == spec_language_key(t[k]);
                }
                lemma_sum_absent(t, key, now, window);
            }
        } else {
            assert(new[x].time as int == spec_sum(t, language_filter(new[x].language@, now, window)));
        }
    }
}

/// One more activity `a` updates a valid table of the activities `t` to a
/// valid table of `t` followed by `a`.
proof fn lemma_table_step(
    prev: Seq<LanguageTime>,
    new: Seq<LanguageTime>,
    t: Seq<CodingActivity>,
    a: CodingActivity,
    now: i128,
    window: Option<i128>,
)
    requires
        spec_language_table(prev, t, now, window),
        spec_in_window(a, now, window) ==> spec_added(prev, new, spec_language_key(a), a.duration as int),
        !spec_in_window(a, now, window) ==> new == prev,
    ensures
        spec_language_table(new, t.push(a), now, window),
{
    if spec_in_window(a, now, window) {
        lemma_added_keys(prev, new, spec_language_key(a), a.duration as int);
    }
    lemma_step_sound(prev, new, t, a, now, window);
    lemma_step_complete(prev, new, t, a, now, window);
    lemma_step_sums(prev, new, t, a, now, window);
}

/// The running totals of each language's time in the period, added up in
/// order, all fit in an `i32`.
pub open spec fn spec_languages_fit(s: Seq<CodingActivity>, now: i128, window: Option<i128>) -> bool {
    forall|lang: Seq<char>| #[trigger] spec_running_sums_fit(s, language_filter(lang, now, window))
}

/// The running totals of each language's time in the period, and of the
/// period's time, all fit in an `i32`.
pub open spec fn spec_period_fits(s: Seq<CodingActivity>, now: i128, window: Option<i128>) -> bool {
    &&& spec_languages_fit(s, now, window)
    &&& spec_running_sums_fit(s, window_filter(now, window))
}

/// Time coded per language over a period (`window` nanoseconds before `now`,
/// or all time when `window` is `None`), each language listed once in the
/// order of its first activity.
pub fn group_by_language_in(activities: &Vec<CodingActivity>, now: i128, window: Option<i128>) -> (table: Vec<LanguageTime>)
    requires
        window is Some ==> valid_instant(now),
        window is Some ==> forall|k: int| 0 <= k < activities.len() ==> valid_instant(#[trigger] activities@[k].start_time),
        spec_languages_fit(activities@, now, window),
    ensures
        spec_language_table(table@, activities@, now, window),
{
    let mut table: Vec<LanguageTime> = Vec::new();
    let n = activities.len();
    let ghost s = activities@;
    let mut i: usize = 0;
    proof {
        reveal(spec_table_sound);
        reveal(spec_table_complete);
        reveal(spec_table_sums);
    }
    while i < n
        invariant
            n == s.len(),
            s == activities@,
            i <= n,
            window is Some ==> valid_instant(now),
            window is Some ==> forall|k: int| 0 <= k < n ==> valid_instant(#[trigger] s[k].start_time),
            spec_languages_fit(s, now, window),
            spec_language_table(table@, s.take(i as int), now, window),
        decreases n - i,
    {
        let ghost prev = table@;
        let ghost t = s.take(i as int);
        assert(s.take(i + 1) =~= t.push(s[i as int]));
        let a = &activities[i];
        if in_window(a, now, window) {
            let key = language_key(a);
            proof {
                let f = language_filter(key@, now, window);
                reveal(spec_table_sums);
                assert(s.take(i + 1).drop_last() =~= t);
                assert(s.take(i + 1).last() == s[i as int]);
                assert(spec_running_sums_fit(s, f));
                assert(i32::MIN <= spec_sum(s.take(i + 1), f) <= i32::MAX);
                assert forall|x: int| 0 <= x < prev.len() && #[trigger] prev[x].language@ == key@
                    implies i32::MIN <= prev[x].time + a.duration <= i32::MAX by {
                    assert(prev[x].time as int == spec_sum(t, f));
                }
            }
            add_time(&mut table, key, a.duration);
        }
        proof {
            lemma_table_step(prev, table@, t, s[i as int], now, window);
        }
        i = i + 1;
    }
    assert(s.take(n as int) =~= s);
    table
}

/// A language not seen among the activities of the period has no time.
proof fn lemma_sum_absent(t: Seq<CodingActivity>, key: Seq<char>, now: i128, window: Option<i128>)
    requires
        forall|k: int| 0 <= k < t.len() && spec_in_window(t[k], now, window) ==> #[trigger] spec_language_key(t[k]) != key,
    ensures
        spec_sum(t, language_filter(key, now, window)) == 0,
    decreases t.len(),
{
    if t.len() > 0 {
        let u = t.drop_last();
        assert forall|k: int| 0 <= k < u.len() && spec_in_window(u[k], now, window) implies #[trigger] spec_language_key(u[k]) != key by {
            assert(u[k] == t[k]);
        }
        lemma_sum_absent(u, key, now, window);
        assert(spec_in_window(t.last(), now, window) ==> spec_language_key(t[t.len() - 1]) != key);
    }
}

/// Time coded per language over all time (`group_by_language`): each
/// language (or "none") listed once with its total time.
pub fn group_by_language(activities: &Vec<CodingActivity>) -> (table: Vec<LanguageTime>)
    requires
        spec_languages_fit(activities@, 0, None),
    ensures
        spec_language_table(table@, activities@, 0, None),
{
    group_by_language_in(activities, 0, None)
}

/// Total time (seconds) of the activities in the period.
pub fn total_in_window(activities: &Vec<CodingActivity>, now: i128, window: Option<i128>) -> (total: i32)
    requires
        window is Some ==> valid_instant(now),
        window is Some ==> forall|k: int| 0 <= k < activities.len() ==> valid_instant(#[trigger] activities@[k].start_time),
        spec_running_sums_fit(activities@, window_filter(now, window)),
    ensures
        total == spec_sum(activities@, window_filter(now, window)),
{
    let n = activities.len();
    let ghost s = activities@;
    let mut total: i32 = 0;
    let mut i: usize = 0;
    assert(s.take(0) =~= Seq::<CodingActivity>::empty());
    while i < n
        invariant
            n == s.len(),
            s == activities@,
            i <= n,
            window is Some ==> valid_instant(now),
            window is Some ==> forall|k: int| 0 <= k < n ==> valid_instant(#[trigger] s[k].start_time),
            spec_running_sums_fit(s, window_filter(now, window)),
            total == spec_sum(s.take(i as int), window_filter(now, window)),
        decreases n - i,
    {
        let a = &activities[i];
        proof {
            assert(s.take(i + 1).drop_last() =~= s.take(i as int));
            assert(s.take(i + 1).last() == s[i as int]);
            assert(i32::MIN <= spec_sum(s.take(i + 1), window_filter(now, window)) <= i32::MAX);
        }
        if in_window(a, now, window) {
            total = total + a.duration;
        }
        i = i + 1;
    }
    assert(s.take(n as int) =~= s);
    total
}

/// The languages and total time of one period.
#[derive(Debug, Clone, PartialEq, Eq)]
pub struct LanguageSummary {
    pub languages: Vec<LanguageTime>,
    /// Seconds.
    pub total: i32,
}

/// A user's coding time per language over the last week, the last month and all time.
#[derive(Debug, Clone, PartialEq, Eq)]
pub struct ActivitySummary {
    pub last_week: LanguageSummary,
    pub last_month: LanguageSummary,
    pub all_time: LanguageSummary,
}

/// Whether `summary` lists the languages and total time of the period.
pub open spec fn spec_period_summary(summary: LanguageSummary, s: Seq<CodingActivity>, now: i128, window: Option<i128>) -> bool {
    &&& spec_language_table(summary.languages@, s, now, window)
    &&& summary.total as int == spec_sum(s, window_filter(now, window))
}

fn period_summary(activities: &Vec<CodingActivity>, now: i128, window: Option<i128>) -> (r: LanguageSummary)
    requires
        window is Some ==> valid_instant(now),
        window is Some ==> forall|k: int| 0 <= k < activities.len() ==> valid_instant(#[trigger] activities@[k].start_time),
        spec_period_fits(activities@, now, window),
    ensures
        spec_period_summary(r, activities@, now, window),
{
    let languages = group_by_language_in(activities, now, window);
    let total = total_in_window(activities, now, window);
    LanguageSummary { languages, total }
}

/// The `/users/{name}/activity/summary` computation: time per language and
/// in total over the last 7 days, the last 30 days (activities that started
/// less than that long before `now`) and all time.
pub fn activity_summary(activities: &Vec<CodingActivity>, now: i128) -> (r: ActivitySummary)
    requires
        valid_instant(now),
        forall|k: int| 0 <= k < activities.len() ==> valid_instant(#[trigger] activities@[k].start_time),
        spec_period_fits(activities@, now, Some(WEEK_NS)),
        spec_period_fits(activities@, now, Some(MONTH_NS)),
        spec_period_fits(activities@, now, None),
    ensures
        spec_period_summary(r.last_week, activities@, now, Some(WEEK_NS)),
        spec_period_summary(r.last_month, activities@, now, Some(MONTH_NS)),
        spec_period_summary(r.all_time, activities@, now, None),
{
    let all_time = period_summary(activities, now, None);
    let last_month = period_summary(activities, now, Some(MONTH_NS));
    let last_week = period_summary(activities, now, Some(WEEK_NS));
    ActivitySummary { last_week, last_month, all_time }
}

/// Activities of user `uid` that started at or after `since` (all of that
/// user's activities when `since` is `None`).
pub open spec fn user_since_filter(uid: i32, since: Option<i128>) -> spec_fn(CodingActivity) -> bool {
    |a: CodingActivity| a.user_id == uid && match since {
        None => true,
        Some(t) => a.start_time >= t,
    }
}

/// The running totals of the durations of the activities selected by `f`,
/// added up in order, all fit in an `i32`.
pub open spec fn spec_running_sums_fit(s: Seq<CodingActivity>, f: spec_fn(CodingActivity) -> bool) -> bool {
    forall|i: int| 0 <= i <= s.len() ==> i32::MIN <= #[trigger] spec_sum(s.take(i), f) <= i32::MAX
}

/// Total time (seconds) of user `uid`'s activities that started at or after
/// `since`, added up in order.
pub fn user_time_since(activities: &Vec<CodingActivity>, uid: i32, since: Option<i128>) -> (total: i32)
    requires
        spec_running_sums_fit(activities@, user_since_filter(uid, since)),
    ensures
        total == spec_sum(activities@, user_since_filter(uid, since)),
{
    let n = activities.len();
    let ghost s = activities@;
    let ghost f = user_since_filter(uid, since);
    let mut total: i32 = 0;
    let mut i: usize = 0;
    assert(s.take(0) =~= Seq::<CodingActivity>::empty());
    while i < n
        invariant
            n == s.len(),
            s == activities@,
            f == user_since_filter(uid, since),
            i <= n,
            spec_running_sums_fit(s, f),
            total == spec_sum(s.take(i as int), f),
        decreases n - i,
    {
        let a = &activities[i];
        proof {
            assert(s.take(i + 1).drop_last() =~= s.take(i as int));
            assert(s.take(i + 1).last() == s[i as int]);
            assert(i32::MIN <= spec_sum(s.take(i + 1), f) <= i32::MAX);
        }
        let counted = a.user_id == uid && match since {
            None => true,
            Some(t) => a.start_time >= t,
        };
        if counted {
            total = total + a.duration;
        }
        i = i + 1;
    }
    assert(s.take(n as int) =~= s);
    total
}

/// A user's coding time over all time, since 30 days and since 7 days before `now`.
pub open spec fn spec_time_steps(steps: CodingTimeSteps, s: Seq<CodingActivity>, uid: i32, now: i128) -> bool {
    &&& steps.all_time as int == spec_sum(s, user_since_filter(uid, None))
    &&& steps.past_month as int == spec_sum(s, user_since_filter(uid, Some((now - MONTH_NS) as i128)))
    &&& steps.past_week as int == spec_sum(s, user_since_filter(uid, Some((now - WEEK_NS) as i128)))
}

/// The running totals of user `uid`'s time over all time, since 30 days and
/// since 7 days before `now` all fit in an `i32`.
pub open spec fn spec_steps_fit(s: Seq<CodingActivity>, uid: i32, now: i128) -> bool {
    &&& spec_running_sums_fit(s, user_since_filter(uid, None))
    &&& spec_running_sums_fit(s, user_since_filter(uid, Some((now - MONTH_NS) as i128)))
    &&& spec_running_sums_fit(s, user_since_filter(uid, Some((now - WEEK_NS) as i128)))
}

/// The coding time statistics of user `uid` from the activities given.
pub fn coding_time_steps(activities: &Vec<CodingActivity>, uid: i32, now: i128) -> (steps: CodingTimeSteps)
    requires
        valid_instant(now),
        spec_steps_fit(activities@, uid, now),
    ensures
        spec_time_steps(steps, activities@, uid, now),
{
    CodingTimeSteps {
        all_time: user_time_since(activities, uid, None),
        past_month: user_time_since(activities, uid, Some(now - MONTH_NS)),
        past_week: user_time_since(activities, uid, Some(now - WEEK_NS)),
    }
}

/// The `/friends/list` statistics: each friend, in order, with the coding
/// time statistics computed from the activities given.
pub fn friends_with_time(friends: Vec<UserIdentity>, activities: &Vec<CodingActivity>, now: i128) -> (r: Vec<FriendWithTime>)
    requires
        valid_instant(now),
        forall|i: int| 0 <= i < friends.len() ==> spec_steps_fit(activities@, (#[trigger] friends@[i]).id, now),
    ensures
        r.len() == friends.len(),
        forall|i: int| 0 <= i < r.len() ==> #[trigger] r@[i].user == friends@[i] && spec_time_steps(
            r@[i].coding_time,
            activities@,
            friends@[i].id,
            now,
        ),
{
    let mut r: Vec<FriendWithTime> = Vec::new();
    let mut rest = friends;
    let ghost orig = rest@;
    let n = rest.len();
    let mut i: usize = 0;
    while i < n
        invariant
            n == orig.len(),
            i <= n,
            valid_instant(now),
            rest@ == orig.subrange(i as int, n as int),
            forall|k: int| 0 <= k < n ==> spec_steps_fit(activities@, (#[trigger] orig[k]).id, now),
            r.len() == i,
            forall|k: int| 0 <= k < i ==> #[trigger] r@[k].user == orig[k] && spec_time_steps(
                r@[k].coding_time,
                activities@,
                orig[k].id,
                now,
            ),
        decreases n - i,
    {
        let user = rest.remove(0);
        assert(user == orig[i as int]);
        let coding_time = coding_time_steps(activities, user.id, now);
        r.push(FriendWithTime { user, coding_time });
        i = i + 1;
    }
    r
}


/// A sum over the activities selected by `f` is at most the sum over those
/// selected by a wider `g`, when `g` selects no negative duration.
pub proof fn lemma_sum_monotone(
    s: Seq<CodingActivity>,
    f: spec_fn(CodingActivity) -> bool,
    g: spec_fn(CodingActivity) -> bool,
)
    requires
        forall|a: CodingActivity| #[trigger] f(a) ==> g(a),
        forall|k: int| 0 <= k < s.len() && g(#[trigger] s[k]) ==> s[k].duration >= 0,
    ensures
        spec_sum(s, f) <= spec_sum(s, g),
    decreases s.len(),
{
    if s.len() > 0 {
        let t = s.drop_last();
        assert forall|k: int| 0 <= k < t.len() && g(#[trigger] t[k]) implies t[k].duration >= 0 by {
            assert(t[k] == s[k]);
        }
        lemma_sum_monotone(t, f, g);
        assert(s.last() == s[s.len() - 1]);
    }
}

/// Sum of the times listed in a table.
pub open spec fn spec_table_total(table: Seq<LanguageTime>) -> int
    decreases table.len(),
{
    if table.len() == 0 {
        0
    } else {
        spec_table_total(table.drop_last()) + table.last().time
    }
}

/// The period's time in each language of `table`, added up.
pub open spec fn spec_language_sums(table: Seq<LanguageTime>, s: Seq<CodingActivity>, now: i128, window: Option<i128>) -> int
    decreases table.len(),
{
    if table.len() == 0 {
        0
    } else {
        spec_language_sums(table.drop_last(), s, now, window) + spec_sum(
            s,
            language_filter(table.last().language@, now, window),
        )
    }
}

/// The duration of `a`, once for each language of `table` it is counted under.
spec fn spec_counted_time(table: Seq<LanguageTime>, a: CodingActivity, now: i128, window: Option<i128>) -> int
    decreases table.len(),
{
    if table.len() == 0 {
        0
    } else {
        spec_counted_time(table.drop_last(), a, now, window) + if spec_in_window(a, now, window)
            && spec_language_key(a) == table.last().language@ {
            a.duration as int
        } else {
            0
        }
    }
}

proof fn lemma_table_total_is_sums(table: Seq<LanguageTime>, s: Seq<CodingActivity>, now: i128, window: Option<i128>)
    requires
        forall|i: int| 0 <= i < table.len() ==> #[trigger] table[i].time as int == spec_sum(
            s,
            language_filter(table[i].language@, now, window),
        ),
    ensures
        spec_table_total(table) == spec_language_sums(table, s, now, window),
    decreases table.len(),
{
    if table.len() > 0 {
        let t = table.drop_last();
        assert forall|i: int| 0 <= i < t.len() implies #[trigger] t[i].time as int == spec_sum(
            s,
            language_filter(t[i].language@, now, window),
        ) by {
            assert(t[i] == table[i]);
        }
        lemma_table_total_is_sums(t, s, now, window);
        assert(table.last() == table[table.len() - 1]);
    }
}

proof fn lemma_sums_last_activity(table: Seq<LanguageTime>, s: Seq<CodingActivity>, now: i128, window: Option<i128>)
    requires
        s.len() > 0,
    ensures
        spec_language_sums(table, s, now, window) == spec_language_sums(table, s.drop_last(), now, window)
            + spec_counted_time(table, s.last(), now, window),
    decreases table.len(),
{
    if table.len() > 0 {
        lemma_sums_last_activity(table.drop_last(), s, now, window);
    }
}

proof fn lemma_counted_once(table: Seq<LanguageTime>, a: CodingActivity, now: i128, window: Option<i128>)
    requires
        spec_table_distinct(table),
    ensures
        spec_counted_time(table, a, now, window) == if spec_in_window(a, now, window) && exists|i: int|
            0 <= i < table.len() && #[trigger] table[i].language@ == spec_language_key(a) {
            a.duration as int
        } else {
            0
        },
    decreases table.len(),
{
    if table.len() > 0 {
        let t = table.drop_last();
        let n = table.len() - 1;
        assert(spec_table_distinct(t)) by {
            assert forall|i: int, j: int| 0 <= i < j < t.len() implies t[i].language@ != t[j].language@ by {
                assert(t[i] == table[i] && t[j] == table[j]);
            }
        }
        lemma_counted_once(t, a, now, window);
        assert(table.last() == table[n]);
        if spec_in_window(a, now, window) && spec_language_key(a) == table[n].language@ {
            if exists|i: int| 0 <= i < t.len() && #[trigger] t[i].language@ == spec_language_key(a) {
                let i = choose|i: int| 0 <= i < t.len() && #[trigger] t[i].language@ == spec_language_key(a);
                assert(t[i] == table[i]);
                assert(table[i].language@ != table[n].language@);
            }
        } else {
            if exists|i: int| 0 <= i < table.len() && #[trigger] table[i].language@ == spec_language_key(a) {
                let i = choose|i: int| 0 <= i < table.len() && #[trigger] table[i].language@ == spec_language_key(a);
                if spec_in_window(a, now, window) {
                    assert(i != n);
                    assert(t[i] == table[i]);
                }
            }
            if exists|i: int| 0 <= i < t.len() && #[trigger] t[i].language@ == spec_language_key(a) {
                let i = choose|i: int| 0 <= i < t.len() && #[trigger] t[i].language@ == spec_language_key(a);
                assert(t[i] == table[i]);
            }
        }
    }
}

proof fn lemma_sums_cover_period(table: Seq<LanguageTime>, s: Seq<CodingActivity>, now: i128, window: Option<i128>)
    requires
        spec_table_distinct(table),
        forall|k: int| 0 <= k < s.len() && spec_in_window(s[k], now, window) ==> exists|i: int|
            0 <= i < table.len() && #[trigger] table[i].language@ == spec_language_key(#[trigger] s[k]),
    ensures
        spec_language_sums(table, s, now, window) == spec_sum(s, window_filter(now, window)),
    decreases s.len(),
{
    if s.len() == 0 {
        lemma_sums_empty(table, s, now, window);
    } else {
        let t = s.drop_last();
        assert forall|k: int| 0 <= k < t.len() && spec_in_window(t[k], now, window) implies exists|i: int|
            0 <= i < table.len() && #[trigger] table[i].language@ == spec_language_key(#[trigger] t[k]) by {
            assert(t[k] == s[k]);
        }
        lemma_sums_cover_period(table, t, now, window);
        lemma_sums_last_activity(table, s, now, window);
        lemma_counted_once(table, s.last(), now, window);
        assert(s.last() == s[s.len() - 1]);
    }
}

proof fn lemma_sums_empty(table: Seq<LanguageTime>, s: Seq<CodingActivity>, now: i128, window: Option<i128>)
    requires
        s.len() == 0,
    ensures
        spec_language_sums(table, s, now, window) == 0,
    decreases table.len(),
{
    if table.len() > 0 {
        lemma_sums_empty(table.drop_last(), s, now, window);
    }
}

/// The total of a period is the sum of its per-language times: every
/// activity of the period is counted under exactly one listed language.
pub proof fn lemma_total_is_language_sum(summary: LanguageSummary, s: Seq<CodingActivity>, now: i128, window: Option<i128>)
    requires
        spec_period_summary(summary, s, now, window),
    ensures
        summary.total as int == spec_table_total(summary.languages@),
{
    let table = summary.languages@;
    reveal(spec_table_sums);
    reveal(spec_table_complete);
    lemma_table_total_is_sums(table, s, now, window);
    assert forall|k: int| 0 <= k < s.len() && spec_in_window(s[k], now, window) implies exists|i: int|
        0 <= i < table.len() && #[trigger] table[i].language@ == spec_language_key(#[trigger] s[k]) by {
        let i = choose|i: int| #![trigger table[i]] 0 <= i < table.len() && table[i].language@ == spec_language_key(s[k]);
    }
    lemma_sums_cover_period(table, s, now, window);
}

/// With no negative durations, the last week's total is at most the last
/// month's, which is at most the total of all time.
pub proof fn lemma_periods_nested(summary: ActivitySummary, s: Seq<CodingActivity>, now: i128)
    requires
        valid_instant(now),
        spec_period_summary(summary.last_week, s, now, Some(WEEK_NS)),
        spec_period_summary(summary.last_month, s, now, Some(MONTH_NS)),
        spec_period_summary(summary.all_time, s, now, None),
        forall|k: int| 0 <= k < s.len() ==> (#[trigger] s[k]).duration >= 0,
    ensures
        summary.last_week.total <= summary.last_month.total <= summary.all_time.total,
{
    lemma_sum_monotone(s, window_filter(now, Some(WEEK_NS)), window_filter(now, Some(MONTH_NS)));
    lemma_sum_monotone(s, window_filter(now, Some(MONTH_NS)), window_filter(now, None));
}

/// With no negative durations, a user's time of the past week is at most
/// that of the past month, which is at most that of all time.
pub proof fn lemma_time_steps_nested(steps: CodingTimeSteps, s: Seq<CodingActivity>, uid: i32, now: i128)
    requires
        valid_instant(now),
        spec_time_steps(steps, s, uid, now),
        forall|k: int| 0 <= k < s.len() ==> (#[trigger] s[k]).duration >= 0,
    ensures
        steps.past_week <= steps.past_month <= steps.all_time,
{
    lemma_sum_monotone(
        s,
        user_since_filter(uid, Some((now - WEEK_NS) as i128)),
        user_since_filter(uid, Some((now - MONTH_NS) as i128)),
    );
    lemma_sum_monotone(s, user_since_filter(uid, Some((now - MONTH_NS) as i128)), user_since_filter(uid, None));
}

} // verus!
