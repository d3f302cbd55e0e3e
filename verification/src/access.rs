//! Who may see whose coding data.

use vstd::prelude::*;
use crate::error::TimeError;
use crate::models::UserIdentity;

verus! {

/// The authentication state of a request.
#[derive(Debug, Clone, PartialEq, Eq)]
pub enum Authentication {
    NoAuth,
    AuthToken(UserIdentity),
}

impl Authentication {
    /// The authenticated user, if any.
    pub fn user(&self) -> (u: Option<&UserIdentity>)
        ensures
            match *self {
                Authentication::NoAuth => u is None,
                Authentication::AuthToken(x) => u == Some(&x),
            },
    {
        match self {
            Authentication::NoAuth => None,
            Authentication::AuthToken(user_identity) => Some(user_identity),
        }
    }
}

/// The authenticated user id of a request, or `Unauthorized`.
pub fn require_user(auth: &Authentication) -> (r: Result<i32, TimeError>)
    ensures
        match *auth {
            Authentication::NoAuth => r == Err::<i32, TimeError>(TimeError::Unauthorized),
            Authentication::AuthToken(x) => r == Ok::<i32, TimeError>(x.id),
        },
{
    match auth {
        Authentication::NoAuth => Err(TimeError::Unauthorized),
        Authentication::AuthToken(user) => Ok(user.id),
    }
}

/// The user whose data is asked for, as found by name.
#[derive(Debug, Clone, Copy, PartialEq, Eq)]
pub struct TargetUser {
    pub id: i32,
    pub is_public: bool,
}

/// Permission to see a user's data: whose, and whether the viewer is that user.
#[derive(Debug, Clone, Copy, PartialEq, Eq)]
pub struct ViewGrant {
    pub user_id: i32,
    pub is_self: bool,
}

/// Whether deciding on the request needs to know if viewer and target are
/// friends: an authenticated viewer asking for another user's private data.
pub open spec fn spec_needs_friendship(viewer: Option<i32>, target_is_me: bool, target: Option<TargetUser>) -> bool {
    match (viewer, target) {
        (Some(v), Some(t)) => !target_is_me && t.id != v && !t.is_public,
        _ => false,
    }
}

/// See `spec_needs_friendship`.
pub fn needs_friendship(viewer: Option<i32>, target_is_me: bool, target: Option<TargetUser>) -> (b: bool)
    ensures
        b == spec_needs_friendship(viewer, target_is_me, target),
{
    match (viewer, target) {
        (Some(v), Some(t)) => !target_is_me && t.id != v && !t.is_public,
        _ => false,
    }
}

/// The decision on a request for a user's activity data.
///
/// An authenticated viewer may see their own data ("@me", or their own name),
/// a public user's data and a friend's data; anyone else's is refused with
/// `Unauthorized`. An anonymous viewer may see public users' data only;
/// others are reported as `UserNotFound`, as are names that match no user.
pub open spec fn spec_view_decision(
    viewer: Option<i32>,
    target_is_me: bool,
    target: Option<TargetUser>,
    are_friends: bool,
) -> Result<ViewGrant, TimeError> {
    match viewer {
        Some(v) => if target_is_me {
            Ok(ViewGrant { user_id: v, is_self: true })
        } else {
            match target {
                None => Err(TimeError::UserNotFound),
                Some(t) => if t.id == v || t.is_public || are_friends {
                    Ok(ViewGrant { user_id: t.id, is_self: t.id == v })
                } else {
                    Err(TimeError::Unauthorized)
                },
            }
        },
        None => match target {
            None => Err(TimeError::UserNotFound),
            Some(t) => if t.is_public {
                Ok(ViewGrant { user_id: t.id, is_self: false })
            } else {
                Err(TimeError::UserNotFound)
            },
        },
    }
}

/// Decides on a request of `viewer` (the authenticated user, if any) for
/// the data of the user named in the path: "@me" (`target_is_me`) or the
/// user found by that name (`target`). `are_friends` is consulted only
/// when `needs_friendship` holds.
pub fn view_decision(viewer: Option<i32>, target_is_me: bool, target: Option<TargetUser>, are_friends: bool) -> (r: Result<ViewGrant, TimeError>)
    ensures
        r == spec_view_decision(viewer, target_is_me, target, are_friends),
{
    match viewer {
        Some(v) => if target_is_me {
            Ok(ViewGrant { user_id: v, is_self: true })
        } else {
            match target {
                None => Err(TimeError::UserNotFound),
                Some(t) => if t.id == v || t.is_public || are_friends {
                    Ok(ViewGrant { user_id: t.id, is_self: t.id == v })
                } else {
                    Err(TimeError::Unauthorized)
                },
            }
        },
        None => match target {
            None => Err(TimeError::UserNotFound),
            Some(t) => if t.is_public {
                Ok(ViewGrant { user_id: t.id, is_self: false })
            } else {
                Err(TimeError::UserNotFound)
            },
        },
    }
}

/// Whether the friendship answer matters: when `needs_friendship` does not
/// hold, the decision is the same whatever `are_friends` is.
pub proof fn lemma_friendship_only_when_needed(viewer: Option<i32>, target_is_me: bool, target: Option<TargetUser>)
    requires
        !spec_needs_friendship(viewer, target_is_me, target),
    ensures
        spec_view_decision(viewer, target_is_me, target, true) == spec_view_decision(viewer, target_is_me, target, false),
{
}

/// A private profile is seen by nobody but its owner and the owner's friends.
pub proof fn lemma_private_data_stays_private(viewer: Option<i32>, target_is_me: bool, t: TargetUser)
    requires
        !t.is_public,
        !target_is_me,
    ensures
        spec_view_decision(viewer, target_is_me, Some(t), false) is Ok <==> viewer == Some(t.id),
{
}

/// A grant for another user never claims to be the viewer's own data.
pub proof fn lemma_self_only_for_owner(viewer: Option<i32>, target_is_me: bool, target: Option<TargetUser>, are_friends: bool)
    ensures
        spec_view_decision(viewer, target_is_me, target, are_friends) matches Ok(g) ==> (g.is_self
            <==> viewer == Some(g.user_id)),
{
}

/// A delete or removal that removed nothing was asked for with a wrong id.
pub fn require_deleted(deleted: bool) -> (r: Result<(), TimeError>)
    ensures
        r is Ok <==> deleted,
        r matches Err(e) ==> e == TimeError::BadId,
{
    if deleted {
        Ok(())
    } else {
        Err(TimeError::BadId)
    }
}

} // verus!
