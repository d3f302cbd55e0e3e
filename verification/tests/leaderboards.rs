use testaustime::error::TimeError;
use testaustime::leaderboards::{
    check_leave, leaderboard_standings, list_leaderboards, membership_changed, minimal_leaderboard,
    private_leaderboard, require_admin, require_member, RankedMember,
};
use testaustime::models::{CodingActivity, Leaderboard, LeaderboardMember, UserIdentity};

fn board(id: i32, name: &str) -> Leaderboard {
    Leaderboard { id, name: name.to_string(), invite_code: format!("inv{}", id), creation_time: 5 }
}

fn ranked(lid: i32, uid: i32, name: &str, admin: bool, time: i64) -> RankedMember {
    RankedMember { leaderboard_id: lid, user_id: uid, username: name.to_string(), admin, coding_time: time }
}

fn user(id: i32, name: &str) -> UserIdentity {
    UserIdentity {
        id,
        auth_token: String::new(),
        friend_code: String::new(),
        username: name.to_string(),
        registration_time: 0,
        is_public: true,
        email: None,
    }
}

fn act(user_id: i32, start_time: i128, duration: i32) -> CodingActivity {
    CodingActivity {
        id: 0,
        user_id,
        start_time,
        duration,
        project_name: None,
        language: None,
        editor_name: None,
        hostname: None,
        hidden: false,
    }
}

#[test]
fn listing_shows_top_member_and_my_position() {
    let boards = vec![board(1, "alpha"), board(2, "beta")];
    // Members ranked by coding time, boards interleaved.
    let members = vec![
        ranked(2, 9, "zed", true, 500),
        ranked(1, 4, "dora", false, 300),
        ranked(1, 7, "me", true, 200),
        ranked(2, 7, "me", false, 100),
        ranked(1, 8, "ann", false, 50),
    ];
    let r = list_leaderboards(7, &boards, &members);
    assert_eq!(r.len(), 2);
    assert_eq!(r[0].name, "alpha");
    assert_eq!(r[0].member_count, 3);
    assert_eq!(r[0].top_member.username, "dora");
    assert_eq!(r[0].top_member.time_coded, 300);
    assert_eq!(r[0].my_position, 2);
    assert_eq!(r[0].me.id, 7);
    assert!(r[0].me.admin);
    assert_eq!(r[1].name, "beta");
    assert_eq!(r[1].member_count, 2);
    assert_eq!(r[1].top_member.id, 9);
    assert_eq!(r[1].my_position, 2);
    assert!(!r[1].me.admin);
    assert_eq!(r[1].me.time_coded, 100);
}

#[test]
fn standings_count_time_since() {
    let members = vec![
        (LeaderboardMember { id: 1, leaderboard_id: 1, user_id: 1, admin: true }, user(1, "a")),
        (LeaderboardMember { id: 2, leaderboard_id: 1, user_id: 2, admin: false }, user(2, "b")),
    ];
    let acts = vec![act(1, 100, 10), act(1, 50, 20), act(2, 150, 40), act(3, 150, 80)];
    let s = leaderboard_standings(members.clone(), &acts, 100);
    assert_eq!(s.len(), 2);
    assert_eq!((s[0].id, s[0].username.as_str(), s[0].admin, s[0].time_coded), (1, "a", true, 10));
    assert_eq!((s[1].id, s[1].username.as_str(), s[1].admin, s[1].time_coded), (2, "b", false, 40));
    let p = private_leaderboard(board(1, "alpha"), members, &acts, 0);
    assert_eq!(p.name, "alpha");
    assert_eq!(p.invite, "inv1");
    assert_eq!(p.creation_time, 5);
    assert_eq!(p.members[0].time_coded, 30);
}

#[test]
fn membership_decisions() {
    assert_eq!(require_member(true), Ok(()));
    assert_eq!(require_member(false), Err(TimeError::Unauthorized));
    assert_eq!(require_admin(true), Ok(()));
    assert_eq!(require_admin(false), Err(TimeError::Unauthorized));
    assert_eq!(check_leave(true, 1), Err(TimeError::LastAdmin));
    assert_eq!(check_leave(true, 2), Ok(()));
    assert_eq!(check_leave(false, 1), Ok(()));
    assert_eq!(membership_changed(true), Ok(()));
    assert_eq!(membership_changed(false), Err(TimeError::NotMember));
}

#[test]
fn minimal_view_of_a_board() {
    let m = minimal_leaderboard("alpha".to_string(), 3);
    assert_eq!(m.name, "alpha");
    assert_eq!(m.member_count, 3);
}
