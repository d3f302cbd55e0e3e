use testaustime::access::{
    needs_friendship, require_deleted, require_user, view_decision, Authentication, TargetUser,
    ViewGrant,
};
use testaustime::error::TimeError;
use testaustime::friends::{friend_pair, friendship_to_add};
use testaustime::models::{NewFriendRelation, UserIdentity};

fn user(id: i32) -> UserIdentity {
    UserIdentity {
        id,
        auth_token: "t".to_string(),
        friend_code: "f".to_string(),
        username: format!("u{}", id),
        registration_time: 0,
        is_public: false,
        email: None,
    }
}

const PUBLIC: TargetUser = TargetUser { id: 2, is_public: true };
const PRIVATE: TargetUser = TargetUser { id: 3, is_public: false };

#[test]
fn authenticated_requests() {
    assert_eq!(require_user(&Authentication::AuthToken(user(5))), Ok(5));
    assert_eq!(require_user(&Authentication::NoAuth), Err(TimeError::Unauthorized));
    assert_eq!(Authentication::AuthToken(user(5)).user().map(|u| u.id), Some(5));
    assert!(Authentication::NoAuth.user().is_none());
}

#[test]
fn own_data_always_visible() {
    assert_eq!(view_decision(Some(1), true, None, false), Ok(ViewGrant { user_id: 1, is_self: true }));
    let me = TargetUser { id: 1, is_public: false };
    assert_eq!(view_decision(Some(1), false, Some(me), false), Ok(ViewGrant { user_id: 1, is_self: true }));
}

#[test]
fn others_data_public_or_friends() {
    assert_eq!(view_decision(Some(1), false, Some(PUBLIC), false), Ok(ViewGrant { user_id: 2, is_self: false }));
    assert_eq!(view_decision(Some(1), false, Some(PRIVATE), true), Ok(ViewGrant { user_id: 3, is_self: false }));
    assert_eq!(view_decision(Some(1), false, Some(PRIVATE), false), Err(TimeError::Unauthorized));
    assert_eq!(view_decision(Some(1), false, None, true), Err(TimeError::UserNotFound));
}

#[test]
fn anonymous_viewers_see_public_only() {
    assert_eq!(view_decision(None, false, Some(PUBLIC), false), Ok(ViewGrant { user_id: 2, is_self: false }));
    assert_eq!(view_decision(None, false, Some(PRIVATE), true), Err(TimeError::UserNotFound));
    assert_eq!(view_decision(None, true, None, false), Err(TimeError::UserNotFound));
}

#[test]
fn friendship_asked_only_when_it_matters() {
    assert!(needs_friendship(Some(1), false, Some(PRIVATE)));
    assert!(!needs_friendship(Some(1), false, Some(PUBLIC)));
    assert!(!needs_friendship(Some(1), true, Some(PRIVATE)));
    assert!(!needs_friendship(None, false, Some(PRIVATE)));
    assert!(!needs_friendship(Some(3), false, Some(PRIVATE)));
}

#[test]
fn deletions_must_hit_a_row() {
    assert_eq!(require_deleted(true), Ok(()));
    assert_eq!(require_deleted(false), Err(TimeError::BadId));
}

#[test]
fn friendships_stored_by_ordered_ids() {
    assert_eq!(friend_pair(5, 2), (2, 5));
    assert_eq!(friend_pair(2, 5), (2, 5));
    let (f, rel) = friendship_to_add(9, Some(user(4))).unwrap();
    assert_eq!(f.id, 4);
    assert_eq!(rel, NewFriendRelation { lesser_id: 4, greater_id: 9 });
    let (_, rel2) = friendship_to_add(4, Some(user(9))).unwrap();
    assert_eq!(rel, rel2);
    assert_eq!(friendship_to_add(4, Some(user(4))), Err(TimeError::CurrentUser));
    assert_eq!(friendship_to_add(4, None), Err(TimeError::UserNotFound));
}
