//! Bodies of the requests the service accepts and of the responses it
//! sends, as plain values.

use vstd::prelude::*;

verus! {

/// Account settings to change; an absent field is left as it is.
#[derive(Debug, Clone, PartialEq, Eq)]
pub struct Settings {
    /// Whether the user's profile should be publicly visible.
    pub public_profile: Option<bool>,
}

/// Answer to a heartbeat.
#[derive(Debug, Clone, PartialEq, Eq)]
pub struct UpdateResponse {
    /// Length of the current coding session, seconds.
    pub duration: i64,
}

/// Deletion of one coding activity.
#[derive(Debug, Clone, PartialEq, Eq)]
pub struct ActivityDeleteRequest {
    pub id: i32,
}

/// Renaming of a project across all of a user's activities.
#[derive(Debug, Clone, PartialEq, Eq)]
pub struct ActivityRenameRequest {
    pub from: String,
    pub to: String,
}

/// How many activities a rename changed.
#[derive(Debug, Clone, PartialEq, Eq)]
pub struct ActivityRenameResponse {
    pub affected_activities: usize,
}

/// Hiding or showing a project to friends and on public profiles.
#[derive(Debug, Clone, PartialEq, Eq)]
pub struct HideRequest {
    pub target_project: String,
    pub hidden: bool,
}

/// How many activities a change of visibility touched.
#[derive(Debug, Clone, PartialEq, Eq)]
pub struct HideResponse {
    pub affected_activities: usize,
}

/// Username and password of a login.
#[derive(Debug, Clone, PartialEq, Eq)]
pub struct LoginRequest {
    pub username: String,
    pub password: String,
}

/// A new account: username, optional recovery email address, password.
#[derive(Debug, Clone, PartialEq, Eq)]
pub struct RegisterRequest {
    pub username: String,
    pub email: Option<String>,
    pub password: String,
}

/// A newly generated authentication token.
#[derive(Debug, Clone, PartialEq, Eq)]
pub struct RegenerateResponse {
    pub token: String,
}

/// A new username.
#[derive(Debug, Clone, PartialEq, Eq)]
pub struct UsernameChangeRequest {
    pub new: String,
}

/// A new email address.
#[derive(Debug, Clone, PartialEq, Eq)]
pub struct EmailChangeRequest {
    pub new: String,
}

/// The current password and the one to replace it.
#[derive(Debug, Clone, PartialEq, Eq)]
pub struct PasswordChangeRequest {
    pub old: String,
    pub new: String,
}

/// The email address of an account whose password is to be reset.
#[derive(Debug, Clone, PartialEq, Eq)]
pub struct PasswordResetRequest {
    pub email: String,
}

/// A new password together with the reset token sent by email.
#[derive(Debug, Clone, PartialEq, Eq)]
pub struct PasswordResetCompletionRequest {
    pub password: String,
    pub token: String,
}

/// A friend code to add its owner as a friend.
#[derive(Debug, Clone, PartialEq, Eq)]
pub struct FriendRequest {
    pub code: String,
}

/// A newly generated friend code.
#[derive(Debug, Clone, PartialEq, Eq)]
pub struct RegenerateFriendCodeResponse {
    pub friend_code: String,
}

/// The username of a friend to remove.
#[derive(Debug, Clone, PartialEq, Eq)]
pub struct RemoveFriendRequest {
    pub name: String,
}

/// The name of a leaderboard to create.
#[derive(Debug, Clone, PartialEq, Eq)]
pub struct LeaderboardCreateRequest {
    pub name: String,
}

/// The username of a leaderboard member.
#[derive(Debug, Clone, PartialEq, Eq)]
pub struct LeaderboardUser {
    pub user: String,
}

/// The invite code of a newly created leaderboard.
#[derive(Debug, Clone, PartialEq, Eq)]
pub struct LeaderboardCreateResponse {
    pub invite_code: String,
}

/// An invite code to join a leaderboard.
#[derive(Debug, Clone, PartialEq, Eq)]
pub struct LeaderboardInvite {
    pub invite: String,
}

/// A newly generated leaderboard invite code.
#[derive(Debug, Clone, PartialEq, Eq)]
pub struct InviteCodeRegenerateResponse {
    pub invite_code: String,
}

/// An authorization code of the identity service to exchange for a token.
#[derive(Debug, Clone, PartialEq, Eq)]
pub struct TokenExchangeRequest {
    pub code: String,
}

/// The service's credentials at the identity service.
#[derive(Debug, Clone, PartialEq, Eq)]
pub struct ClientInfo {
    pub id: String,
    pub secret: String,
    pub redirect_uri: String,
}

/// A keyword to search usernames for.
#[derive(Debug, Clone, PartialEq, Eq)]
pub struct UserSearch {
    pub keyword: String,
}

/// Statistics of the whole service.
#[derive(Debug, Clone, PartialEq, Eq)]
pub struct Stats {
    /// Registered users.
    pub user_count: u64,
    /// All coding time recorded, seconds.
    pub coding_time: u64,
}

impl Stats {
    /// The statistics from the database's row count and duration sum (the
    /// sum is absent when nothing was recorded); both are reinterpreted as
    /// unsigned, as the database's 64-bit integers are.
    pub fn from_totals(user_count: i64, coding_time: Option<i64>) -> (s: Stats)
        ensures
            s.user_count == user_count as u64,
            s.coding_time == (match coding_time {
                Some(t) => t as u64,
                None => 0u64,
            }),
    {
        let total = match coding_time {
            Some(t) => t,
            None => 0,
        };
        Stats { user_count: user_count as u64, coding_time: total as u64 }
    }
}

} // verus!
