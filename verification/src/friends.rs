//! Friendship relations are stored once per pair of users, ordered by id.

use vstd::prelude::*;
use crate::error::TimeError;
use crate::activity::{friend_status, spec_mask, spec_seconds, Session};
use crate::models::{FriendWithTime, FriendWithTimeAndStatus, NewFriendRelation, UserIdentity};

verus! {

/// The canonical (lesser, greater) ordering of two user ids.
pub open spec fn spec_friend_pair(a: i32, b: i32) -> (i32, i32) {
    if a < b { (a, b) } else { (b, a) }
}

/// Orders two user ids into the `(lesser_id, greater_id)` pair under which
/// a friendship is stored.
pub fn friend_pair(user: i32, friend: i32) -> (pair: (i32, i32))
    ensures
        pair == spec_friend_pair(user, friend),
        pair.0 <= pair.1,
{
    if user < friend {
        (user, friend)
    } else {
        (friend, user)
    }
}

/// The `/friends/add` decision once the friend code is looked up: an
/// unknown code finds no user, a user cannot befriend themselves, and
/// otherwise the friendship to store is the ordered pair of ids.
pub fn friendship_to_add(user: i32, friend: Option<UserIdentity>) -> (r: Result<(UserIdentity, NewFriendRelation), TimeError>)
    ensures
        friend is None ==> r == Err::<(UserIdentity, NewFriendRelation), TimeError>(TimeError::UserNotFound),
        friend matches Some(f) ==> if f.id == user {
            r == Err::<(UserIdentity, NewFriendRelation), TimeError>(TimeError::CurrentUser)
        } else {
            r matches Ok((g, rel)) && g == f && (rel.lesser_id, rel.greater_id) == spec_friend_pair(user, f.id)
        },
{
    match friend {
        None => Err(TimeError::UserNotFound),
        Some(f) => {
            if f.id == user {
                return Err(TimeError::CurrentUser);
            }
            let (lesser_id, greater_id) = friend_pair(user, f.id);
            Ok((f, NewFriendRelation { lesser_id, greater_id }))
        },
    }
}

/// Whichever of two users adds the other, the same friendship is stored.
pub proof fn lemma_friendship_same_both_ways(a: i32, b: i32)
    requires
        a != b,
    ensures
        spec_friend_pair(a, b) == spec_friend_pair(b, a),
        spec_friend_pair(a, b).0 < spec_friend_pair(a, b).1,
{
}

/// A friend as listed to a user: the friend's name, coding time statistics
/// and current session (`current`, if any) with hidden projects shown as
/// "hidden".
pub fn friend_with_status(friend: FriendWithTime, current: Option<Session>) -> (r: FriendWithTimeAndStatus)
    requires
        current matches Some(c) ==> c.wf(),
    ensures
        r.username == friend.user.username,
        r.coding_time == friend.coding_time,
        current is None ==> r.status is None,
        current matches Some(c) ==> r.status matches Some(a) && a.started == c.start && a.duration
            == spec_seconds(c.duration as int) && a.heartbeat@ == spec_mask(c.heartbeat, "hidden"@),
        current matches Some(c) ==> (r.status matches Some(a) ==> {
            &&& c.heartbeat.hidden != Some(true) ==> a.heartbeat@ == c.heartbeat@
            &&& c.heartbeat.hidden == Some(true) ==> a.heartbeat@.project_name == Some("hidden"@)
        }),
{
    FriendWithTimeAndStatus {
        username: friend.user.username,
        coding_time: friend.coding_time,
        status: friend_status(current),
    }
}

} // verus!
