//! Coding sessions built from editor heartbeats.
//!
//! A user's current session is the last heartbeat, the time the session
//! started and how long it has lasted. Heartbeats that repeat the session's
//! heartbeat extend it; a different heartbeat, or one after a break of more
//! than fifteen minutes, finishes the session (it is then stored, if it lasted
//! at all) and starts a new one.

use vstd::prelude::*;
use vstd::utf8::encode_utf8;
use crate::error::TimeError;
use crate::models::{CodingActivity, CurrentActivity, HeartBeat, HeartBeatView, NewCodingActivity};
use crate::text::{spec_starts_with, starts_with};

verus! {

/// Longest break (nanoseconds) after which a repeated heartbeat still extends a session.
pub const SESSION_BREAK_NS: i128 = 900_000_000_000;

/// A session finished by a different heartbeat within this long
/// (nanoseconds) of its last heartbeat is counted up to the new heartbeat.
pub const FLUSH_GRACE_NS: i128 = 30_000_000_000;

/// Longest heartbeat text field, in bytes.
pub const MAX_FIELD_BYTES: usize = 64;

/// Bound on the magnitude of the timestamps handled (nanoseconds from the
/// epoch): beyond every date the calendar library can represent.
pub const TIME_BOUND: i128 = 1_208_925_819_614_629_174_706_176;

/// A timestamp within the handled range.
pub open spec fn valid_instant(t: i128) -> bool {
    -TIME_BOUND <= t <= TIME_BOUND
}

/// The coding session in progress for a user.
#[derive(Debug, Clone, PartialEq, Eq)]
pub struct Session {
    /// The heartbeat that the session repeats.
    pub heartbeat: HeartBeat,
    /// Start of the session, nanoseconds.
    pub start: i128,
    /// Time from the start to the last heartbeat, nanoseconds.
    pub duration: i128,
}

impl Session {
    /// Timestamps of the session are within the handled range.
    pub open spec fn wf(&self) -> bool {
        &&& valid_instant(self.start)
        &&& -2 * TIME_BOUND <= self.duration <= 2 * TIME_BOUND
    }
}

/// Whole seconds in `ns` nanoseconds, rounded toward zero.
pub open spec fn spec_seconds(ns: int) -> int {
    if ns >= 0 {
        ns / 1_000_000_000
    } else {
        -((-ns) / 1_000_000_000)
    }
}

/// Whole seconds in `ns` nanoseconds, rounded toward zero.
pub fn seconds(ns: i128) -> (s: i64)
    requires
        -4 * TIME_BOUND <= ns <= 4 * TIME_BOUND,
    ensures
        s == spec_seconds(ns as int),
{
    if ns >= 0 {
        (ns / 1_000_000_000) as i64
    } else {
        -(((-ns) / 1_000_000_000) as i64)
    }
}

/// A session worth storing: one that lasted a positive time.
pub open spec fn spec_finished(s: Session) -> Option<Session> {
    if s.duration > 0 {
        Some(s)
    } else {
        None
    }
}

/// The result of a heartbeat: the session now in progress, the finished
/// session to store (if any) and the reported session length in seconds.
#[derive(Debug, Clone, PartialEq, Eq)]
pub struct SessionUpdate {
    pub session: Session,
    pub finished: Option<Session>,
    pub duration: i64,
}

/// What a heartbeat `hb` arriving at `now` does to the current session.
pub open spec fn spec_update(current: Option<Session>, hb: HeartBeat, now: i128) -> SessionUpdate {
    match current {
        None => SessionUpdate {
            session: Session { heartbeat: hb, start: now, duration: 0 },
            finished: None,
            duration: 0,
        },
        Some(c) => if c.heartbeat@ == hb@ {
            if now - (c.start + c.duration) > SESSION_BREAK_NS {
                SessionUpdate {
                    session: Session { heartbeat: hb, start: now, duration: 0 },
                    finished: spec_finished(c),
                    duration: 0,
                }
            } else {
                SessionUpdate {
                    session: Session { heartbeat: hb, start: c.start, duration: (now - c.start) as i128 },
                    finished: None,
                    duration: spec_seconds(now - c.start) as i64,
                }
            }
        } else {
            let d = if now - (c.start + c.duration) < FLUSH_GRACE_NS {
                (now - c.start) as i128
            } else {
                c.duration
            };
            SessionUpdate {
                session: Session { heartbeat: hb, start: now, duration: 0 },
                finished: spec_finished(Session { heartbeat: c.heartbeat, start: c.start, duration: d }),
                duration: 0,
            }
        },
    }
}

/// The first heartbeat of a user starts a session at that moment, with
/// nothing to store and a reported length of zero.
pub proof fn lemma_first_heartbeat_starts_session(hb: HeartBeat, now: i128)
    ensures
        spec_update(None, hb, now).session == (Session { heartbeat: hb, start: now, duration: 0 }),
        spec_update(None, hb, now).finished is None,
        spec_update(None, hb, now).duration == 0,
{
}

/// Repeating the session's heartbeat within the break keeps the session's
/// start, stores nothing, and reports the time since the start.
pub proof fn lemma_repeat_extends_session(c: Session, hb: HeartBeat, now: i128)
    requires
        c.wf(),
        valid_instant(now),
        hb@ == c.heartbeat@,
        now - (c.start + c.duration) <= SESSION_BREAK_NS,
    ensures
        spec_update(Some(c), hb, now).session.start == c.start,
        spec_update(Some(c), hb, now).session.duration == now - c.start,
        spec_update(Some(c), hb, now).finished is None,
        spec_update(Some(c), hb, now).duration == spec_seconds(now - c.start),
{
}

/// A chain of identical heartbeats, each within the break of the previous
/// one, makes one session: it starts at the first heartbeat and lasts until
/// the last one.
pub proof fn lemma_heartbeat_chain_one_session(hb: HeartBeat, t0: i128, t1: i128, t2: i128)
    requires
        valid_instant(t0),
        valid_instant(t1),
        valid_instant(t2),
        t0 <= t1 <= t2,
        t1 - t0 <= SESSION_BREAK_NS,
        t2 - t1 <= SESSION_BREAK_NS,
    ensures
        ({
            let s1 = spec_update(None, hb, t0).session;
            let u1 = spec_update(Some(s1), hb, t1);
            let u2 = spec_update(Some(u1.session), hb, t2);
            &&& u1.finished is None
            &&& u2.finished is None
            &&& u2.session.start == t0
            &&& u2.session.duration == t2 - t0
            &&& u2.duration == spec_seconds(t2 - t0)
        }),
{
}

/// After a break longer than fifteen minutes, even the same heartbeat
/// finishes the session (stored as it was, if it lasted) and starts afresh.
pub proof fn lemma_break_ends_session(c: Session, hb: HeartBeat, now: i128)
    requires
        c.wf(),
        valid_instant(now),
        now - (c.start + c.duration) > SESSION_BREAK_NS,
    ensures
        spec_update(Some(c), hb, now).session == (Session { heartbeat: hb, start: now, duration: 0 }),
        spec_update(Some(c), hb, now).finished == spec_finished(c),
        spec_update(Some(c), hb, now).duration == 0,
{
}

/// A different heartbeat finishes the session: the stored session keeps its
/// heartbeat and start, and the new heartbeat starts a session of its own.
pub proof fn lemma_switch_finishes_session(c: Session, hb: HeartBeat, now: i128)
    requires
        c.wf(),
        valid_instant(now),
        hb@ != c.heartbeat@,
    ensures
        spec_update(Some(c), hb, now).session == (Session { heartbeat: hb, start: now, duration: 0 }),
        spec_update(Some(c), hb, now).duration == 0,
        spec_update(Some(c), hb, now).finished matches Some(f) ==> f.heartbeat == c.heartbeat
            && f.start == c.start,
{
}

/// A different heartbeat less than thirty seconds after the last one counts
/// the finished session up to the new heartbeat; one that comes later leaves
/// the finished session as it was. Either way it is stored only if it lasted.
pub proof fn lemma_switch_grace(c: Session, hb: HeartBeat, now: i128)
    requires
        c.wf(),
        valid_instant(now),
        hb@ != c.heartbeat@,
    ensures
        now - (c.start + c.duration) < 30_000_000_000 ==> spec_update(Some(c), hb, now).finished == (
        if now - c.start > 0 {
            Some(Session { heartbeat: c.heartbeat, start: c.start, duration: (now - c.start) as i128 })
        } else {
            None
        }),
        now - (c.start + c.duration) >= 30_000_000_000 ==> spec_update(Some(c), hb, now).finished == (
        if c.duration > 0 {
            Some(c)
        } else {
            None
        }),
{
}

/// The same heartbeat at most fifteen minutes (900 s) after the last one
/// continues the session; more than fifteen minutes after, it starts a new
/// one at `now`.
pub proof fn lemma_repeat_within_fifteen_minutes(c: Session, hb: HeartBeat, now: i128)
    requires
        c.wf(),
        valid_instant(now),
        hb@ == c.heartbeat@,
    ensures
        now - (c.start + c.duration) <= 900_000_000_000 ==> spec_update(Some(c), hb, now).session.start
            == c.start,
        now - (c.start + c.duration) > 900_000_000_000 ==> spec_update(Some(c), hb, now).session
            == (Session { heartbeat: hb, start: now, duration: 0 }),
{
}

/// A heartbeat stores a finished session only when it lasted a positive time.
pub proof fn lemma_stored_sessions_last(current: Option<Session>, hb: HeartBeat, now: i128)
    ensures
        spec_update(current, hb, now).finished matches Some(f) ==> f.duration > 0,
{
}

/// While time moves forward, no coding time is dropped: a session that
/// lasted is either continued from its start or stored, at least as long
/// as it was.
pub proof fn lemma_no_time_lost(c: Session, hb: HeartBeat, now: i128)
    requires
        c.wf(),
        valid_instant(now),
        c.duration > 0,
        now >= c.start + c.duration,
    ensures
        ({
            let u = spec_update(Some(c), hb, now);
            ||| u.session.start == c.start && u.session.duration >= c.duration
            ||| u.finished matches Some(f) && f.start == c.start && f.duration >= c.duration
                && f.heartbeat == c.heartbeat
        }),
{
}

/// The length in bytes of the UTF-8 encoding of `s`, as `str::len` reports
/// it (the length of a text held in memory always fits a `usize`).
pub open spec fn spec_byte_len(s: Seq<char>) -> usize {
    encode_utf8(s).len() as usize
}

/// A text field longer than the limit.
pub open spec fn spec_too_long(field: Option<String>) -> bool {
    field matches Some(s) && spec_byte_len(s@) > MAX_FIELD_BYTES
}

/// The message naming the first over-long field of a heartbeat, in the
/// order project name, language, editor name, hostname; `None` when all
/// fields are within the limit.
pub open spec fn spec_heartbeat_problem(hb: HeartBeat) -> Option<Seq<char>> {
    if spec_too_long(hb.project_name) {
        Some("Project name is over 64 chars"@)
    } else if spec_too_long(hb.language) {
        Some("Language is over 64 chars"@)
    } else if spec_too_long(hb.editor_name) {
        Some("Editor name is over 64 chars"@)
    } else if spec_too_long(hb.hostname) {
        Some("Hostname is over 64 chars"@)
    } else {
        None
    }
}

fn too_long(field: &Option<String>) -> (b: bool)
    ensures
        b == spec_too_long(*field),
{
    match field {
        Some(s) => s.as_str().len() > MAX_FIELD_BYTES,
        None => false,
    }
}

/// Whether a heartbeat is within the field length limits; the error names
/// the first field over the limit.
pub fn validate_heartbeat(hb: &HeartBeat) -> (r: Result<(), TimeError>)
    ensures
        r is Ok <==> spec_heartbeat_problem(*hb) is None,
        r matches Err(e) ==> e matches TimeError::InvalidLength(m) && spec_heartbeat_problem(*hb)
            == Some(m@),
{
    if too_long(&hb.project_name) {
        Err(TimeError::InvalidLength("Project name is over 64 chars".to_owned()))
    } else if too_long(&hb.language) {
        Err(TimeError::InvalidLength("Language is over 64 chars".to_owned()))
    } else if too_long(&hb.editor_name) {
        Err(TimeError::InvalidLength("Editor name is over 64 chars".to_owned()))
    } else if too_long(&hb.hostname) {
        Err(TimeError::InvalidLength("Hostname is over 64 chars".to_owned()))
    } else {
        Ok(())
    }
}

fn finished(s: Session) -> (r: Option<Session>)
    ensures
        r == spec_finished(s),
{
    if s.duration > 0 {
        Some(s)
    } else {
        None
    }
}

/// Applies the heartbeat `hb`, arriving at `now`, to the user's current
/// session (`None` when the user has no session in progress).
pub fn update_session(current: Option<Session>, hb: HeartBeat, now: i128) -> (r: SessionUpdate)
    requires
        current matches Some(c) ==> c.wf(),
        valid_instant(now),
    ensures
        r == spec_update(current, hb, now),
        r.session.wf(),
        r.session.heartbeat == hb,
{
    match current {
        None => SessionUpdate {
            session: Session { heartbeat: hb, start: now, duration: 0 },
            finished: None,
            duration: 0,
        },
        Some(c) => {
            let since_last = now - (c.start + c.duration);
            if c.heartbeat.same_as(&hb) {
                if since_last > SESSION_BREAK_NS {
                    SessionUpdate {
                        session: Session { heartbeat: hb, start: now, duration: 0 },
                        finished: finished(c),
                        duration: 0,
                    }
                } else {
                    let length = now - c.start;
                    SessionUpdate {
                        session: Session { heartbeat: hb, start: c.start, duration: length },
                        finished: None,
                        duration: seconds(length),
                    }
                }
            } else {
                let d = if since_last < FLUSH_GRACE_NS {
                    now - c.start
                } else {
                    c.duration
                };
                SessionUpdate {
                    session: Session { heartbeat: hb, start: now, duration: 0 },
                    finished: finished(Session { heartbeat: c.heartbeat, start: c.start, duration: d }),
                    duration: 0,
                }
            }
        },
    }
}

/// The `/activity/update` decision: checks the field lengths of `hb`, then
/// applies it to the current session.
pub fn update(current: Option<Session>, hb: HeartBeat, now: i128) -> (r: Result<SessionUpdate, TimeError>)
    requires
        current matches Some(c) ==> c.wf(),
        valid_instant(now),
    ensures
        r is Ok <==> spec_heartbeat_problem(hb) is None,
        r matches Ok(u) ==> u == spec_update(current, hb, now) && u.session.wf(),
        r matches Err(e) ==> e matches TimeError::InvalidLength(m) && spec_heartbeat_problem(hb)
            == Some(m@),
{
    match validate_heartbeat(&hb) {
        Err(e) => Err(e),
        Ok(()) => Ok(update_session(current, hb, now)),
    }
}

/// The `/activity/flush` decision: the session in progress, whatever its
/// length (a session of a single heartbeat included), is ended and stored.
pub fn flush(current: Option<Session>) -> (r: Option<Session>)
    ensures
        r == current,
{
    current
}

/// The stored form of a finished session of user `user_id`; the duration is
/// kept in whole seconds, converted to `i32` with wrap-around.
pub fn new_coding_activity(user_id: i32, s: Session) -> (a: NewCodingActivity)
    requires
        s.wf(),
    ensures
        a.user_id == user_id,
        a.start_time == s.start,
        a.duration == spec_seconds(s.duration as int) as i32,
        a.project_name == s.heartbeat.project_name,
        a.language == s.heartbeat.language,
        a.editor_name == s.heartbeat.editor_name,
        a.hostname == s.heartbeat.hostname,
        a.hidden == (s.heartbeat.hidden == Some(true)),
{
    let secs = seconds(s.duration);
    let hidden = match s.heartbeat.hidden {
        Some(h) => h,
        None => false,
    };
    NewCodingActivity {
        user_id,
        start_time: s.start,
        duration: secs as i32,
        project_name: s.heartbeat.project_name,
        language: s.heartbeat.language,
        editor_name: s.heartbeat.editor_name,
        hostname: s.heartbeat.hostname,
        hidden,
    }
}

/// A heartbeat as shown to someone else than its sender: a hidden
/// heartbeat has its project name replaced by `replacement`.
pub open spec fn spec_mask(hb: HeartBeat, replacement: Seq<char>) -> HeartBeatView {
    if hb.hidden == Some(true) {
        HeartBeatView { project_name: Some(replacement), ..hb@ }
    } else {
        hb@
    }
}

/// What others see of a heartbeat: one whose `hidden` flag is absent or
/// false is shown exactly as it was sent; one marked hidden (`Some(true)`)
/// is shown with its project name replaced and every other field as sent.
pub proof fn lemma_mask_hides_only_hidden(hb: HeartBeat, replacement: Seq<char>)
    ensures
        hb.hidden != Some(true) ==> spec_mask(hb, replacement) == hb@,
        hb.hidden == Some(true) ==> {
            let m = spec_mask(hb, replacement);
            &&& m.project_name == Some(replacement)
            &&& m.language == hb@.language
            &&& m.editor_name == hb@.editor_name
            &&& m.hostname == hb@.hostname
            &&& m.hidden == Some(true)
        },
{
}

fn mask(hb: HeartBeat, replacement: &str) -> (r: HeartBeat)
    ensures
        r@ == spec_mask(hb, replacement@),
        r.hidden == hb.hidden,
{
    if hb.hidden == Some(true) {
        HeartBeat { project_name: Some(replacement.to_owned()), ..hb }
    } else {
        hb
    }
}

/// Whether a session has seen no heartbeat for longer than the break at `now`.
pub open spec fn spec_is_expired(c: Session, now: i128) -> bool {
    now - (c.start + c.duration) > SESSION_BREAK_NS
}

/// A session expires exactly when its last heartbeat (start plus duration)
/// lies more than fifteen minutes (900 s) before `now`; a session whose last
/// heartbeat is at most fifteen minutes old is still in progress. The
/// grace period for finishing a session is thirty seconds.
pub proof fn lemma_session_expiry(c: Session, now: i128)
    ensures
        spec_is_expired(c, now) <==> now - (c.start + c.duration) > 900_000_000_000,
        now - (c.start + c.duration) <= 15 * 60 * 1_000_000_000 ==> !spec_is_expired(c, now),
        SESSION_BREAK_NS == 15 * 60 * 1_000_000_000,
        FLUSH_GRACE_NS == 30 * 1_000_000_000,
{
}

/// Right after a heartbeat its sender is coding: the session it leaves in
/// progress repeats that heartbeat and has not expired at that moment.
pub proof fn lemma_heartbeat_makes_active(current: Option<Session>, hb: HeartBeat, now: i128)
    requires
        current matches Some(c) ==> c.wf(),
        valid_instant(now),
    ensures
        spec_update(current, hb, now).session.heartbeat == hb,
        !spec_is_expired(spec_update(current, hb, now).session, now),
{
}

/// What the current activity of a user is, as seen at some moment.
#[derive(Debug, Clone, PartialEq, Eq)]
pub enum ActivityStatus {
    /// The user is coding.
    Active(CurrentActivity),
    /// The session ended with a break of more than fifteen minutes; it is to
    /// be stored and dropped.
    Expired(Session),
    /// The user has no session in progress.
    Absent,
}

/// The `/users/{name}/activity/current` decision: the current activity of a
/// user at `now`, masked unless the viewer is the user.
pub fn current_activity(current: Option<Session>, now: i128, is_self: bool) -> (r: ActivityStatus)
    requires
        current matches Some(c) ==> c.wf(),
        valid_instant(now),
    ensures
        current is None ==> r is Absent,
        current matches Some(c) ==> {
            if spec_is_expired(c, now) {
                r == ActivityStatus::Expired(c)
            } else {
                r matches ActivityStatus::Active(a) && a.started == c.start && a.duration
                    == spec_seconds(c.duration as int) && a.heartbeat@ == (if is_self {
                    c.heartbeat@
                } else {
                    spec_mask(c.heartbeat, Seq::empty())
                })
            }
        },
        current matches Some(c) ==> (now - (c.start + c.duration) > 900_000_000_000 <==> r
            == ActivityStatus::Expired(c)),
        current matches Some(c) ==> (now - (c.start + c.duration) <= 900_000_000_000 ==> r is Active),
        current matches Some(c) ==> (r matches ActivityStatus::Active(a) ==> {
            &&& (is_self || c.heartbeat.hidden != Some(true)) ==> a.heartbeat@ == c.heartbeat@
            &&& (!is_self && c.heartbeat.hidden == Some(true)) ==> a.heartbeat@ == (HeartBeatView {
                project_name: Some(Seq::<char>::empty()),
                ..c.heartbeat@
            })
        }),
{
    match current {
        None => ActivityStatus::Absent,
        Some(c) => {
            if now - (c.start + c.duration) > SESSION_BREAK_NS {
                ActivityStatus::Expired(c)
            } else {
                let secs = seconds(c.duration);
                let heartbeat = if is_self {
                    c.heartbeat
                } else {
                    let empty = "";
                    proof {
                        reveal_strlit("");
                    }
                    assert(empty@ =~= Seq::<char>::empty());
                    mask(c.heartbeat, empty)
                };
                ActivityStatus::Active(CurrentActivity { started: c.start, duration: secs, heartbeat })
            }
        },
    }
}

/// The status of a friend shown in friend lists: the friend's session with
/// the project name of a hidden heartbeat replaced by "hidden".
pub fn friend_status(current: Option<Session>) -> (r: Option<CurrentActivity>)
    requires
        current matches Some(c) ==> c.wf(),
    ensures
        current is None ==> r is None,
        current matches Some(c) ==> r matches Some(a) && a.started == c.start && a.duration
            == spec_seconds(c.duration as int) && a.heartbeat@ == spec_mask(c.heartbeat, "hidden"@),
        current matches Some(c) ==> (r matches Some(a) ==> {
            &&& c.heartbeat.hidden != Some(true) ==> a.heartbeat@ == c.heartbeat@
            &&& c.heartbeat.hidden == Some(true) ==> a.heartbeat@ == (HeartBeatView {
                project_name: Some("hidden"@),
                ..c.heartbeat@
            })
        }),
{
    match current {
        None => None,
        Some(c) => {
            let secs = seconds(c.duration);
            Some(CurrentActivity { started: c.start, duration: secs, heartbeat: mask(c.heartbeat, "hidden") })
        },
    }
}

/// Editors report temporary projects as "tmp.<random>"; these are all
/// counted as the one project "tmp".
pub open spec fn spec_normalize_project_name(p: Option<Seq<char>>) -> Option<Seq<char>> {
    match p {
        Some(name) => if spec_starts_with(name, "tmp."@) {
            Some("tmp"@)
        } else {
            Some(name)
        },
        None => None,
    }
}

/// Only names that begin with the four characters `tmp.` are temporary
/// projects: every other name (such as "tmpl" or "tmp") is kept as it is,
/// and every name that begins with `tmp.` becomes "tmp". No name stays absent
/// or appears from nothing.
pub proof fn lemma_normalize_project_name(name: Seq<char>)
    ensures
        spec_starts_with(name, "tmp."@) <==> (name.len() >= 4 && name[0] == 't' && name[1] == 'm'
            && name[2] == 'p' && name[3] == '.'),
        !spec_starts_with(name, "tmp."@) ==> spec_normalize_project_name(Some(name)) == Some(name),
        spec_starts_with(name, "tmp."@) ==> spec_normalize_project_name(Some(name)) == Some("tmp"@),
        spec_normalize_project_name(None) is None,
{
    reveal_strlit("tmp.");
    if spec_starts_with(name, "tmp."@) {
        assert(name.subrange(0, 4)[0] == name[0]);
        assert(name.subrange(0, 4)[1] == name[1]);
        assert(name.subrange(0, 4)[2] == name[2]);
        assert(name.subrange(0, 4)[3] == name[3]);
    } else if name.len() >= 4 && name[0] == 't' && name[1] == 'm' && name[2] == 'p' && name[3]
        == '.' {
        assert(name.subrange(0, 4) =~= "tmp."@);
    }
}

/// The project name of an incoming heartbeat, with temporary projects merged.
pub fn normalize_project_name(p: Option<String>) -> (r: Option<String>)
    ensures
        r.deep_view() == spec_normalize_project_name(p.deep_view()),
        p is None ==> r is None,
        p matches Some(n) ==> (!spec_starts_with(n@, "tmp."@) ==> r.deep_view() == Some(n@)),
        p matches Some(n) ==> (spec_starts_with(n@, "tmp."@) ==> r.deep_view() == Some("tmp"@)),
{
    match p {
        Some(name) => if starts_with(name.as_str(), "tmp.") {
            Some("tmp".to_owned())
        } else {
            Some(name)
        },
        None => None,
    }
}

/// Activities as shown to a viewer: unless the viewer is their owner,
/// hidden activities have an empty project name.
pub fn mask_hidden_activities(activities: Vec<CodingActivity>, is_self: bool) -> (r: Vec<CodingActivity>)
    ensures
        r.len() == activities.len(),
        forall|i: int|
            0 <= i < r.len() ==> {
                let a = #[trigger] activities@[i];
                let b = r@[i];
                &&& b.id == a.id && b.user_id == a.user_id && b.start_time == a.start_time
                &&& b.duration == a.duration && b.language == a.language
                &&& b.editor_name == a.editor_name && b.hostname == a.hostname
                &&& b.hidden == a.hidden
                &&& if !is_self && a.hidden {
                    b.project_name.deep_view() == Some(Seq::<char>::empty())
                } else {
                    b.project_name == a.project_name
                }
            },
{
    if is_self {
        return activities;
    }
    let mut r: Vec<CodingActivity> = Vec::new();
    let mut rest = activities;
    let ghost orig = rest@;
    let mut i: usize = 0;
    let n = rest.len();
    while i < n
        invariant
            n == orig.len(),
            i <= n,
            rest@.len() == n - i,
            rest@ == orig.subrange(i as int, n as int),
            r.len() == i,
            forall|k: int|
                0 <= k < i ==> {
                    let a = #[trigger] orig[k];
                    let b = r@[k];
                    &&& b.id == a.id && b.user_id == a.user_id && b.start_time == a.start_time
                    &&& b.duration == a.duration && b.language == a.language
                    &&& b.editor_name == a.editor_name && b.hostname == a.hostname
                    &&& b.hidden == a.hidden
                    &&& if a.hidden {
                        b.project_name.deep_view() == Some(Seq::<char>::empty())
                    } else {
                        b.project_name == a.project_name
                    }
                },
        decreases n - i,
    {
        let a = rest.remove(0);
        let b = if a.hidden {
            proof {
                reveal_strlit("");
            }
            CodingActivity { project_name: Some("".to_owned()), ..a }
        } else {
            a
        };
        r.push(b);
        i = i + 1;
    }
    r
}

} // verus!
