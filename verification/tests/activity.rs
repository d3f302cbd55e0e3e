use testaustime::activity::{
    current_activity, flush, friend_status, mask_hidden_activities, new_coding_activity,
    normalize_project_name, seconds, update, update_session, validate_heartbeat, ActivityStatus,
    Session, SessionUpdate, FLUSH_GRACE_NS, SESSION_BREAK_NS,
};
use testaustime::error::TimeError;
use testaustime::models::{CodingActivity, HeartBeat};

fn hb(project: &str) -> HeartBeat {
    HeartBeat {
        project_name: Some(project.to_string()),
        language: Some("rust".to_string()),
        editor_name: Some("vim".to_string()),
        hostname: Some("box".to_string()),
        hidden: None,
    }
}

/// Nanoseconds in a millisecond; the tests below give times in milliseconds.
const MS: i128 = 1_000_000;
const SESSION_BREAK_MS: i128 = SESSION_BREAK_NS / MS;
const FLUSH_GRACE_MS: i128 = FLUSH_GRACE_NS / MS;

fn session(project: &str, start: i128, duration: i128) -> Session {
    Session { heartbeat: hb(project), start: start * MS, duration: duration * MS }
}

fn update_ms(current: Option<Session>, heartbeat: HeartBeat, now: i128) -> SessionUpdate {
    update_session(current, heartbeat, now * MS)
}

fn current_ms(current: Option<Session>, now: i128, is_self: bool) -> ActivityStatus {
    current_activity(current, now * MS, is_self)
}

#[test]
fn break_and_grace_lengths() {
    assert_eq!(SESSION_BREAK_NS, 15 * 60 * 1_000_000_000);
    assert_eq!(FLUSH_GRACE_NS, 30 * 1_000_000_000);
}

#[test]
fn first_heartbeat_starts_a_session() {
    let u = update_ms(None, hb("p"), 1_000);
    assert_eq!(u.session, session("p", 1_000, 0));
    assert_eq!(u.finished, None);
    assert_eq!(u.duration, 0);
}

#[test]
fn repeated_heartbeats_extend_the_session() {
    let u1 = update_ms(None, hb("p"), 0);
    let u2 = update_ms(Some(u1.session), hb("p"), 60_000);
    assert_eq!(u2.session, session("p", 0, 60_000));
    assert_eq!(u2.duration, 60);
    let u3 = update_ms(Some(u2.session), hb("p"), 60_000 + SESSION_BREAK_MS);
    assert_eq!(u3.session, session("p", 0, 60_000 + SESSION_BREAK_MS));
    assert_eq!(u3.duration, 960);
    assert_eq!(u3.finished, None);
}

#[test]
fn long_break_stores_the_session() {
    let c = session("p", 0, 120_000);
    let u = update_ms(Some(c.clone()), hb("p"), 120_000 + SESSION_BREAK_MS + 1);
    assert_eq!(u.finished, Some(c));
    assert_eq!(u.session, session("p", 120_000 + SESSION_BREAK_MS + 1, 0));
    assert_eq!(u.duration, 0);
}

#[test]
fn long_break_after_lone_heartbeat_stores_nothing() {
    let c = session("p", 0, 0);
    let u = update_ms(Some(c), hb("p"), SESSION_BREAK_MS + 1);
    assert_eq!(u.finished, None);
}

#[test]
fn switching_soon_counts_up_to_the_switch() {
    let c = session("a", 0, 100_000);
    let u = update_ms(Some(c), hb("b"), 110_000);
    assert_eq!(u.finished, Some(session("a", 0, 110_000)));
    assert_eq!(u.session, session("b", 110_000, 0));
    assert_eq!(u.duration, 0);
}

#[test]
fn switching_late_keeps_the_recorded_length() {
    let c = session("a", 0, 100_000);
    let u = update_ms(Some(c.clone()), hb("b"), 100_000 + FLUSH_GRACE_MS);
    assert_eq!(u.finished, Some(c));
    let u = update_ms(Some(session("a", 0, 0)), hb("b"), 100_000);
    assert_eq!(u.finished, None);
    let u = update_ms(Some(session("a", 0, 0)), hb("b"), 1_000);
    assert_eq!(u.finished, Some(session("a", 0, 1_000)));
}

#[test]
fn hidden_flag_distinguishes_heartbeats() {
    let mut hidden = hb("a");
    hidden.hidden = Some(true);
    let u = update_ms(Some(session("a", 0, 5_000)), hidden, 6_000);
    assert_eq!(u.finished, Some(session("a", 0, 6_000)));
}

#[test]
fn over_long_fields_rejected_in_order() {
    let long = "x".repeat(65);
    assert_eq!(validate_heartbeat(&hb(&"x".repeat(64))), Ok(()));
    let mut h = hb(&long);
    h.hostname = Some(long.clone());
    assert_eq!(
        validate_heartbeat(&h),
        Err(TimeError::InvalidLength("Project name is over 64 chars".to_string()))
    );
    let mut h = hb("p");
    h.language = Some(long.clone());
    assert_eq!(
        validate_heartbeat(&h),
        Err(TimeError::InvalidLength("Language is over 64 chars".to_string()))
    );
    let mut h = hb("p");
    h.editor_name = Some(long.clone());
    assert_eq!(
        validate_heartbeat(&h),
        Err(TimeError::InvalidLength("Editor name is over 64 chars".to_string()))
    );
    let mut h = hb("p");
    h.hostname = Some(long.clone());
    assert_eq!(
        update(None, h, 0),
        Err(TimeError::InvalidLength("Hostname is over 64 chars".to_string()))
    );
    assert!(update(None, hb("p"), 0).is_ok());
}

#[test]
fn flushing_stores_the_open_session() {
    assert_eq!(flush(Some(session("p", 0, 5))), Some(session("p", 0, 5)));
    // A session of a single heartbeat is stored too.
    assert_eq!(flush(Some(session("p", 0, 0))), Some(session("p", 0, 0)));
    assert_eq!(flush(None), None);
}

#[test]
fn stored_activity_in_whole_seconds() {
    let mut h = hb("p");
    h.hidden = Some(true);
    let a = new_coding_activity(3, Session { heartbeat: h, start: 77, duration: 61_999 * MS });
    assert_eq!(a.user_id, 3);
    assert_eq!(a.start_time, 77);
    assert_eq!(a.duration, 61);
    assert_eq!(a.project_name.as_deref(), Some("p"));
    assert!(a.hidden);
    let b = new_coding_activity(3, session("p", 0, 1_000));
    assert!(!b.hidden);
    assert_eq!(b.duration, 1);
}

#[test]
fn seconds_round_toward_zero() {
    assert_eq!(seconds(1_999 * MS), 1);
    assert_eq!(seconds(-1_999 * MS), -1);
    assert_eq!(seconds(999 * MS), 0);
    assert_eq!(seconds(0), 0);
}

#[test]
fn current_activity_as_seen() {
    let mut h = hb("secret");
    h.hidden = Some(true);
    let c = Session { heartbeat: h, start: 0, duration: 30_000 * MS };
    match current_ms(Some(c.clone()), 40_000, false) {
        ActivityStatus::Active(a) => {
            assert_eq!(a.started, 0);
            assert_eq!(a.duration, 30);
            assert_eq!(a.heartbeat.project_name.as_deref(), Some(""));
            assert_eq!(a.heartbeat.language.as_deref(), Some("rust"));
        }
        other => panic!("{:?}", other),
    }
    match current_ms(Some(c.clone()), 40_000, true) {
        ActivityStatus::Active(a) => assert_eq!(a.heartbeat.project_name.as_deref(), Some("secret")),
        other => panic!("{:?}", other),
    }
    assert_eq!(
        current_ms(Some(c.clone()), 30_000 + SESSION_BREAK_MS + 1, true),
        ActivityStatus::Expired(c)
    );
    assert_eq!(current_ms(None, 0, true), ActivityStatus::Absent);
}

#[test]
fn friend_status_hides_hidden_projects() {
    let mut h = hb("secret");
    h.hidden = Some(true);
    let a = friend_status(Some(Session { heartbeat: h, start: 5, duration: 2_500 * MS })).unwrap();
    assert_eq!(a.heartbeat.project_name.as_deref(), Some("hidden"));
    assert_eq!(a.duration, 2);
    assert_eq!(a.started, 5);
    let b = friend_status(Some(session("open", 0, 0))).unwrap();
    assert_eq!(b.heartbeat.project_name.as_deref(), Some("open"));
    assert_eq!(friend_status(None), None);
}

#[test]
fn temporary_projects_merged() {
    assert_eq!(normalize_project_name(Some("tmp.abc123".to_string())), Some("tmp".to_string()));
    assert_eq!(normalize_project_name(Some("tmp".to_string())), Some("tmp".to_string()));
    assert_eq!(normalize_project_name(Some("project".to_string())), Some("project".to_string()));
    assert_eq!(normalize_project_name(None), None);
}

#[test]
fn hidden_activities_masked_for_others() {
    let act = |id: i32, hidden: bool| CodingActivity {
        id,
        user_id: 1,
        start_time: 0,
        duration: 10,
        project_name: Some("proj".to_string()),
        language: None,
        editor_name: None,
        hostname: None,
        hidden,
    };
    let acts = vec![act(1, true), act(2, false)];
    let shown = mask_hidden_activities(acts.clone(), false);
    assert_eq!(shown[0].project_name.as_deref(), Some(""));
    assert!(shown[0].hidden);
    assert_eq!(shown[1], acts[1]);
    assert_eq!(mask_hidden_activities(acts.clone(), true), acts);
}

#[test]
fn sender_is_active_right_after_a_heartbeat() {
    let u = update_ms(Some(session("a", 0, 10_000)), hb("b"), 50_000);
    match current_ms(Some(u.session), 50_000, true) {
        ActivityStatus::Active(a) => {
            assert_eq!(a.heartbeat, hb("b"));
            assert_eq!(a.started, 50_000 * MS);
            assert_eq!(a.duration, 0);
        }
        other => panic!("{:?}", other),
    }
}

#[test]
fn break_is_measured_to_the_nanosecond() {
    let c = Session { heartbeat: hb("p"), start: 0, duration: 0 };
    let u = update_session(Some(c.clone()), hb("p"), SESSION_BREAK_NS);
    assert_eq!(u.finished, None);
    assert_eq!(u.session.start, 0);
    let u = update_session(Some(c), hb("p"), SESSION_BREAK_NS + 1);
    assert_eq!(u.session.start, SESSION_BREAK_NS + 1);
    let d = Session { heartbeat: hb("a"), start: 0, duration: 1 };
    let u = update_session(Some(d), hb("b"), 1 + FLUSH_GRACE_NS - 1);
    assert_eq!(u.finished.map(|f| f.duration), Some(FLUSH_GRACE_NS));
}
