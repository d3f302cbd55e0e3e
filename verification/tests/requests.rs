use testaustime::models::{HeartBeat, UserIdentity};
use testaustime::models::{PublicUser, SelfUser};
use testaustime::requests::Stats;

#[test]
fn statistics_from_database_totals() {
    assert_eq!(Stats::from_totals(12, Some(3_600)), Stats { user_count: 12, coding_time: 3_600 });
    assert_eq!(Stats::from_totals(0, None), Stats { user_count: 0, coding_time: 0 });
    assert_eq!(Stats::from_totals(-1, Some(-2)).user_count, u64::MAX);
    assert_eq!(Stats::from_totals(-1, Some(-2)).coding_time, u64::MAX - 1);
}

#[test]
fn user_views() {
    let u = UserIdentity {
        id: 1,
        auth_token: "tok".to_string(),
        friend_code: "fc".to_string(),
        username: "bob".to_string(),
        registration_time: 99,
        is_public: true,
        email: Some("b@example.com".to_string()),
    };
    let p = PublicUser::from_identity(u.clone());
    assert_eq!(p, PublicUser { id: 1, username: "bob".to_string(), registration_time: 99 });
    let s = SelfUser::from_identity(u);
    assert_eq!(s.auth_token, "tok");
    assert_eq!(s.friend_code, "fc");
    assert!(s.is_public);
}

#[test]
fn heartbeats_compared_field_by_field() {
    let a = HeartBeat {
        project_name: Some("p".to_string()),
        language: None,
        editor_name: Some("e".to_string()),
        hostname: None,
        hidden: Some(false),
    };
    let mut b = a.clone();
    assert!(a.same_as(&b));
    b.hidden = None;
    assert!(!a.same_as(&b));
    let mut c = a.clone();
    c.language = Some(String::new());
    assert!(!a.same_as(&c));
}
