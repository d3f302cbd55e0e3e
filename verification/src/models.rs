//! The records the service stores and returns. Points in time are naive
//! local timestamps in nanoseconds; durations are nanoseconds unless a
//! field says seconds.

use vstd::prelude::*;

verus! {

/// The id of an authenticated user.
#[derive(Debug, Default, Clone, PartialEq, Eq, Hash)]
pub struct UserId {
    pub id: i32,
}

/// A user's identity and profile information.
#[derive(Debug, Clone, PartialEq, Eq)]
pub struct UserIdentity {
    pub id: i32,
    pub auth_token: String,
    /// Code for others to add this user as a friend.
    pub friend_code: String,
    pub username: String,
    /// Registration time, nanoseconds.
    pub registration_time: i128,
    pub is_public: bool,
    pub email: Option<String>,
}

/// Public user information visible to anyone.
#[derive(Debug, Clone, PartialEq, Eq)]
pub struct PublicUser {
    pub id: i32,
    pub username: String,
    pub registration_time: i128,
}

impl PublicUser {
    /// The public part of a user's identity.
    pub fn from_identity(user: UserIdentity) -> (p: PublicUser)
        ensures
            p.id == user.id,
            p.username == user.username,
            p.registration_time == user.registration_time,
    {
        PublicUser {
            id: user.id,
            username: user.username,
            registration_time: user.registration_time,
        }
    }
}

/// Full user profile returned to the authenticated user.
#[derive(Debug, Clone, PartialEq, Eq)]
pub struct SelfUser {
    pub id: i32,
    pub auth_token: String,
    pub friend_code: String,
    pub username: String,
    pub registration_time: i128,
    pub is_public: bool,
}

impl SelfUser {
    /// The profile of a user as shown to that user (everything but the email).
    pub fn from_identity(u: UserIdentity) -> (s: SelfUser)
        ensures
            s.id == u.id,
            s.auth_token == u.auth_token,
            s.friend_code == u.friend_code,
            s.username == u.username,
            s.registration_time == u.registration_time,
            s.is_public == u.is_public,
    {
        SelfUser {
            id: u.id,
            auth_token: u.auth_token,
            friend_code: u.friend_code,
            username: u.username,
            registration_time: u.registration_time,
            is_public: u.is_public,
        }
    }
}

/// The password record of a user who registered with a password.
#[derive(Debug, Clone, PartialEq, Eq)]
pub struct TestaustimeUser {
    pub id: i32,
    pub identity: i32,
    /// PHC-format password hash.
    pub password: String,
}

/// A password record to be stored.
#[derive(Debug, Clone, PartialEq, Eq)]
pub struct NewTestaustimeUser {
    pub identity: i32,
    pub password: String,
}

/// A user record to be stored for a user signing in through Testausserveri ID.
#[derive(Debug, Clone, PartialEq, Eq)]
pub struct NewTestausIdUser {
    pub user_id: String,
    pub service_id: String,
    pub identity: i32,
}

/// A stored Testausserveri ID login.
#[derive(Debug, Clone, PartialEq, Eq)]
pub struct TestausIdUser {
    pub id: i32,
    pub user_id: String,
    pub service_id: String,
    pub identity: i32,
}

/// A newly created user identity.
#[derive(Debug, Clone, PartialEq, Eq)]
pub struct NewUserIdentity {
    pub auth_token: String,
    pub username: String,
    pub friend_code: String,
    pub registration_time: i128,
    pub email: Option<String>,
}

/// A stored friendship, keyed by the ordered pair of user ids.
#[derive(Debug, Clone, Copy, PartialEq, Eq)]
pub struct FriendRelation {
    pub id: i32,
    pub lesser_id: i32,
    pub greater_id: i32,
}

/// A friendship to be stored.
#[derive(Debug, Clone, Copy, PartialEq, Eq)]
pub struct NewFriendRelation {
    pub lesser_id: i32,
    pub greater_id: i32,
}

/// A recorded coding session.
#[derive(Debug, Clone, PartialEq, Eq)]
pub struct CodingActivity {
    pub id: i32,
    pub user_id: i32,
    /// Start of the session, nanoseconds.
    pub start_time: i128,
    /// Length of the session in seconds.
    pub duration: i32,
    pub project_name: Option<String>,
    pub language: Option<String>,
    pub editor_name: Option<String>,
    pub hostname: Option<String>,
    /// Whether the activity is hidden from friends and the public.
    pub hidden: bool,
}

/// A coding session to be stored.
#[derive(Debug, Clone, PartialEq, Eq)]
pub struct NewCodingActivity {
    pub user_id: i32,
    /// Start of the session, nanoseconds.
    pub start_time: i128,
    /// Length of the session in seconds.
    pub duration: i32,
    pub project_name: Option<String>,
    pub language: Option<String>,
    pub editor_name: Option<String>,
    pub hostname: Option<String>,
    pub hidden: bool,
}

/// A stored leaderboard.
#[derive(Debug, Clone, PartialEq, Eq)]
pub struct Leaderboard {
    pub id: i32,
    pub name: String,
    pub invite_code: String,
    pub creation_time: i128,
}

/// A leaderboard to be stored.
#[derive(Debug, Clone, PartialEq, Eq)]
pub struct NewLeaderboard {
    pub name: String,
    pub invite_code: String,
    pub creation_time: i128,
}

/// A user's membership of a leaderboard.
#[derive(Debug, Clone, Copy, PartialEq, Eq)]
pub struct LeaderboardMember {
    pub id: i32,
    pub leaderboard_id: i32,
    pub user_id: i32,
    pub admin: bool,
}

/// A membership to be stored.
#[derive(Debug, Clone, Copy, PartialEq, Eq)]
pub struct NewLeaderboardMember {
    pub leaderboard_id: i32,
    pub user_id: i32,
    pub admin: bool,
}

/// A member of a leaderboard with their coding time.
#[derive(Debug, Clone, PartialEq, Eq)]
pub struct PrivateLeaderboardMember {
    pub id: i32,
    pub username: String,
    pub admin: bool,
    /// Coding time in seconds over the leaderboard's period.
    pub time_coded: i32,
}

/// Full leaderboard details including all members.
#[derive(Debug, Clone, PartialEq, Eq)]
pub struct PrivateLeaderboard {
    pub name: String,
    pub invite: String,
    pub creation_time: i128,
    pub members: Vec<PrivateLeaderboardMember>,
}

/// Coding time statistics over different time periods, in seconds.
#[derive(Debug, Default, Clone, Copy, PartialEq, Eq, Hash)]
pub struct CodingTimeSteps {
    pub all_time: i32,
    pub past_month: i32,
    pub past_week: i32,
}

/// A heartbeat sent by editor extensions to track coding activity.
#[derive(Debug, Clone, PartialEq, Eq, Hash)]
pub struct HeartBeat {
    pub project_name: Option<String>,
    pub language: Option<String>,
    pub editor_name: Option<String>,
    pub hostname: Option<String>,
    /// Whether this activity should be hidden from friends and the public.
    pub hidden: Option<bool>,
}

/// The content of a heartbeat, with texts as character sequences.
pub struct HeartBeatView {
    pub project_name: Option<Seq<char>>,
    pub language: Option<Seq<char>>,
    pub editor_name: Option<Seq<char>>,
    pub hostname: Option<Seq<char>>,
    pub hidden: Option<bool>,
}

impl View for HeartBeat {
    type V = HeartBeatView;

    open spec fn view(&self) -> HeartBeatView {
        HeartBeatView {
            project_name: self.project_name.deep_view(),
            language: self.language.deep_view(),
            editor_name: self.editor_name.deep_view(),
            hostname: self.hostname.deep_view(),
            hidden: self.hidden,
        }
    }
}

/// Whether two optional texts hold the same characters.
pub fn same_text(a: &Option<String>, b: &Option<String>) -> (r: bool)
    ensures
        r == (a.deep_view() == b.deep_view()),
{
    match (a, b) {
        (Some(x), Some(y)) => {
            let r = x.eq(y);
            assert(a.deep_view() == Some(x@) && b.deep_view() == Some(y@));
            r
        },
        (None, None) => true,
        _ => false,
    }
}

impl HeartBeat {
    /// Whether two heartbeats describe the same activity (all fields equal).
    pub fn same_as(&self, other: &HeartBeat) -> (r: bool)
        ensures
            r == (self@ == other@),
    {
        same_text(&self.project_name, &other.project_name) && same_text(
            &self.language,
            &other.language,
        ) && same_text(&self.editor_name, &other.editor_name) && same_text(
            &self.hostname,
            &other.hostname,
        ) && self.hidden == other.hidden
    }
}

/// A user's current coding activity.
#[derive(Debug, Clone, PartialEq, Eq, Hash)]
pub struct CurrentActivity {
    /// Start of the session, nanoseconds.
    pub started: i128,
    /// Length of the session so far, seconds.
    pub duration: i64,
    pub heartbeat: HeartBeat,
}

/// A friend with their coding time statistics.
#[derive(Debug, Clone, PartialEq, Eq)]
pub struct FriendWithTime {
    pub user: UserIdentity,
    pub coding_time: CodingTimeSteps,
}

/// Friend information with coding statistics and current status.
#[derive(Debug, Clone, PartialEq, Eq)]
pub struct FriendWithTimeAndStatus {
    pub username: String,
    pub coding_time: CodingTimeSteps,
    pub status: Option<CurrentActivity>,
}

} // verus!
