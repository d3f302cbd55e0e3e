//! The service's errors, the HTTP status each is answered with, and the
//! message its body carries.

use vstd::prelude::*;

verus! {

/// The kind of a failed database operation, as far as the service tells kinds apart.
#[derive(Debug, Clone, Copy, PartialEq, Eq)]
pub enum DbErrorKind {
    /// A uniqueness constraint was violated.
    UniqueViolation,
    /// The queried row does not exist.
    NotFound,
    /// Any other database failure.
    Other,
}

/// Everything that can go wrong while serving a request.
#[derive(Debug, Clone, PartialEq, Eq)]
pub enum TimeError {
    DeadpoolError,
    /// A failed database query, with the database's own description.
    DieselError(DbErrorKind, String),
    DieselConnectionError,
    /// A web framework error, with its description.
    AxumError(String),
    UsernameTaken,
    UserNotFound,
    CurrentUser,
    LeaderboardExists,
    LeaderboardNotFound,
    Unauthorized,
    InvalidCredentials,
    InvalidLength(String),
    BadUsername,
    BadLeaderboardName,
    BadId,
    AlreadyFriends,
    AlreadyMember,
    NotMember,
    LastAdmin,
    BadCode,
    UnknownError,
    TooManyRegisters,
    NotActive,
    SmtpError,
    InvalidPasswordResetToken,
    InvalidEmail,
    ExpiredPasswordResetToken,
    EmailTaken,
    HashError,
    /// A request header that is not valid text, with its description.
    HeaderError(String),
}

pub const STATUS_BAD_REQUEST: u16 = 400;
pub const STATUS_UNAUTHORIZED: u16 = 401;
pub const STATUS_FORBIDDEN: u16 = 403;
pub const STATUS_NOT_FOUND: u16 = 404;
pub const STATUS_CONFLICT: u16 = 409;
pub const STATUS_TOO_MANY_REQUESTS: u16 = 429;
pub const STATUS_INTERNAL_SERVER_ERROR: u16 = 500;

/// The HTTP status with which an error is answered.
pub open spec fn spec_status_code(e: TimeError) -> u16 {
    match e {
        TimeError::UserNotFound | TimeError::LeaderboardNotFound | TimeError::NotActive => 404,
        TimeError::BadUsername
        | TimeError::InvalidLength(_)
        | TimeError::BadId
        | TimeError::BadLeaderboardName
        | TimeError::InvalidEmail
        | TimeError::BadCode
        | TimeError::InvalidPasswordResetToken
        | TimeError::ExpiredPasswordResetToken
        | TimeError::HeaderError(_) => 400,
        TimeError::CurrentUser | TimeError::NotMember | TimeError::LastAdmin => 403,
        TimeError::AlreadyFriends
        | TimeError::LeaderboardExists
        | TimeError::AlreadyMember
        | TimeError::UsernameTaken
        | TimeError::EmailTaken => 409,
        TimeError::Unauthorized
        | TimeError::InvalidCredentials => 401,
        TimeError::TooManyRegisters => 429,
        TimeError::DieselError(_, _)
        | TimeError::DieselConnectionError
        | TimeError::DeadpoolError
        | TimeError::AxumError(_)
        | TimeError::UnknownError
        | TimeError::SmtpError
        | TimeError::HashError => 500,
    }
}

/// The fixed message of an error without a description of its own.
pub open spec fn spec_fixed_message(e: TimeError) -> Seq<char> {
    match e {
        TimeError::DeadpoolError => "Failed to connect to database connection pool"@,
        TimeError::DieselConnectionError => "Internal server error"@,
        TimeError::UsernameTaken => "User exists"@,
        TimeError::UserNotFound => "User not found"@,
        TimeError::CurrentUser => "You cannot add yourself"@,
        TimeError::LeaderboardExists => "Leaderboard exists"@,
        TimeError::LeaderboardNotFound => "Leaderboard not found"@,
        TimeError::Unauthorized => "You are not authorized"@,
        TimeError::InvalidCredentials => "Invalid username or password"@,
        TimeError::BadUsername => "Username has to contain characters from [a-zA-Z0-9_] and has to be between 2 and 32 characters"@,
        TimeError::BadLeaderboardName => "Leaderboard name has to contain characters from [a-zA-Z0-9_] and has to be between 2 and 32 characters"@,
        TimeError::BadId => "Bad id"@,
        TimeError::AlreadyFriends => "Already friends"@,
        TimeError::AlreadyMember => "You're already a member"@,
        TimeError::NotMember => "You're not a member"@,
        TimeError::LastAdmin => "There are no more admins left, you cannot leave"@,
        TimeError::BadCode => "Bad code"@,
        TimeError::UnknownError => "Literally no idea how this happened"@,
        TimeError::TooManyRegisters => "You are trying to register again after a short time"@,
        TimeError::NotActive => "The user has no active session"@,
        TimeError::SmtpError => "Cannot connect to mail server"@,
        TimeError::InvalidPasswordResetToken => "Invalid password reset token"@,
        TimeError::InvalidEmail => "Invalid email"@,
        TimeError::ExpiredPasswordResetToken => "Expired password reset token"@,
        TimeError::EmailTaken => "Account with this email exists"@,
        TimeError::HashError => "Password hashing failed"@,
        _ => Seq::empty(),
    }
}

/// The message carried in the body of an error response.
pub open spec fn spec_message(e: TimeError) -> Seq<char> {
    match e {
        TimeError::DieselError(_, detail) => "Diesel transaction failed `"@ + detail@ + "`"@,
        TimeError::AxumError(detail) => detail@,
        TimeError::InvalidLength(msg) => msg@,
        TimeError::HeaderError(detail) => detail@,
        _ => spec_fixed_message(e),
    }
}

impl TimeError {
    /// The HTTP status with which this error is answered.
    pub fn status_code(&self) -> (code: u16)
        ensures
            code == spec_status_code(*self),
    {
        match self {
            TimeError::UserNotFound | TimeError::LeaderboardNotFound | TimeError::NotActive => {
                STATUS_NOT_FOUND
            },
            TimeError::BadUsername
            | TimeError::InvalidLength(_)
            | TimeError::BadId
            | TimeError::BadLeaderboardName
            | TimeError::InvalidEmail
            | TimeError::BadCode
            | TimeError::InvalidPasswordResetToken
            | TimeError::ExpiredPasswordResetToken
            | TimeError::HeaderError(_) => STATUS_BAD_REQUEST,
            TimeError::CurrentUser | TimeError::NotMember | TimeError::LastAdmin => {
                STATUS_FORBIDDEN
            },
            TimeError::AlreadyFriends
            | TimeError::LeaderboardExists
            | TimeError::AlreadyMember
            | TimeError::UsernameTaken
            | TimeError::EmailTaken => STATUS_CONFLICT,
            TimeError::Unauthorized
            | TimeError::InvalidCredentials => STATUS_UNAUTHORIZED,
            TimeError::TooManyRegisters => STATUS_TOO_MANY_REQUESTS,
            TimeError::DieselError(_, _)
            | TimeError::DieselConnectionError
            | TimeError::DeadpoolError
            | TimeError::AxumError(_)
            | TimeError::UnknownError
            | TimeError::SmtpError
            | TimeError::HashError => STATUS_INTERNAL_SERVER_ERROR,
        }
    }

    /// The message carried in the body of the error response.
    pub fn message(&self) -> (m: String)
        ensures
            m@ == spec_message(*self),
    {
        match self {
            TimeError::DieselError(_, detail) => {
                let mut m = "Diesel transaction failed `".to_owned();
                m.append(detail.as_str());
                m.append("`");
                m
            },
            TimeError::AxumError(detail) => detail.clone(),
            TimeError::InvalidLength(msg) => msg.clone(),
            TimeError::HeaderError(detail) => detail.clone(),
            TimeError::DeadpoolError => "Failed to connect to database connection pool".to_owned(),
            TimeError::DieselConnectionError => "Internal server error".to_owned(),
            TimeError::UsernameTaken => "User exists".to_owned(),
            TimeError::UserNotFound => "User not found".to_owned(),
            TimeError::CurrentUser => "You cannot add yourself".to_owned(),
            TimeError::LeaderboardExists => "Leaderboard exists".to_owned(),
            TimeError::LeaderboardNotFound => "Leaderboard not found".to_owned(),
            TimeError::Unauthorized => "You are not authorized".to_owned(),
            TimeError::InvalidCredentials => "Invalid username or password".to_owned(),
            TimeError::BadUsername => "Username has to contain characters from [a-zA-Z0-9_] and has to be between 2 and 32 characters".to_owned(),
            TimeError::BadLeaderboardName => "Leaderboard name has to contain characters from [a-zA-Z0-9_] and has to be between 2 and 32 characters".to_owned(),
            TimeError::BadId => "Bad id".to_owned(),
            TimeError::AlreadyFriends => "Already friends".to_owned(),
            TimeError::AlreadyMember => "You're already a member".to_owned(),
            TimeError::NotMember => "You're not a member".to_owned(),
            TimeError::LastAdmin => "There are no more admins left, you cannot leave".to_owned(),
            TimeError::BadCode => "Bad code".to_owned(),
            TimeError::UnknownError => "Literally no idea how this happened".to_owned(),
            TimeError::TooManyRegisters => "You are trying to register again after a short time".to_owned(),
            TimeError::NotActive => "The user has no active session".to_owned(),
            TimeError::SmtpError => "Cannot connect to mail server".to_owned(),
            TimeError::InvalidPasswordResetToken => "Invalid password reset token".to_owned(),
            TimeError::InvalidEmail => "Invalid email".to_owned(),
            TimeError::ExpiredPasswordResetToken => "Expired password reset token".to_owned(),
            TimeError::EmailTaken => "Account with this email exists".to_owned(),
            TimeError::HashError => "Password hashing failed".to_owned(),
        }
    }

    /// Whether this is a database error caused by a uniqueness constraint.
    pub fn is_unique_violation(&self) -> (b: bool)
        ensures
            b == (*self matches TimeError::DieselError(DbErrorKind::UniqueViolation, _)),
    {
        match self {
            TimeError::DieselError(DbErrorKind::UniqueViolation, _) => true,
            _ => false,
        }
    }
}

/// Adding a friend twice violates the uniqueness of the friendship.
pub open spec fn spec_add_friend_error(e: TimeError) -> TimeError {
    match e {
        TimeError::DieselError(DbErrorKind::UniqueViolation, _) => TimeError::AlreadyFriends,
        _ => e,
    }
}

/// The error answered when adding a friend failed with `e`.
pub fn add_friend_error(e: TimeError) -> (r: TimeError)
    ensures
        r == spec_add_friend_error(e),
{
    match e {
        TimeError::DieselError(DbErrorKind::UniqueViolation, _) => TimeError::AlreadyFriends,
        _ => e,
    }
}

/// A second leaderboard of the same name violates uniqueness.
pub open spec fn spec_create_leaderboard_error(e: TimeError) -> TimeError {
    match e {
        TimeError::DieselError(DbErrorKind::UniqueViolation, _) => TimeError::LeaderboardExists,
        _ => e,
    }
}

/// The error answered when creating a leaderboard failed with `e`.
pub fn create_leaderboard_error(e: TimeError) -> (r: TimeError)
    ensures
        r == spec_create_leaderboard_error(e),
{
    match e {
        TimeError::DieselError(DbErrorKind::UniqueViolation, _) => TimeError::LeaderboardExists,
        _ => e,
    }
}

/// Joining twice violates uniqueness; an unknown invite finds no leaderboard.
pub open spec fn spec_join_leaderboard_error(e: TimeError) -> TimeError {
    match e {
        TimeError::DieselError(DbErrorKind::UniqueViolation, _) => TimeError::AlreadyMember,
        TimeError::DieselError(DbErrorKind::NotFound, _) => TimeError::LeaderboardNotFound,
        _ => e,
    }
}

/// The error answered when joining a leaderboard failed with `e`.
pub fn join_leaderboard_error(e: TimeError) -> (r: TimeError)
    ensures
        r == spec_join_leaderboard_error(e),
{
    match e {
        TimeError::DieselError(DbErrorKind::UniqueViolation, _) => TimeError::AlreadyMember,
        TimeError::DieselError(DbErrorKind::NotFound, _) => TimeError::LeaderboardNotFound,
        _ => e,
    }
}

/// A taken username violates uniqueness when renaming.
pub open spec fn spec_change_username_error(e: TimeError) -> TimeError {
    match e {
        TimeError::DieselError(DbErrorKind::UniqueViolation, _) => TimeError::UsernameTaken,
        _ => e,
    }
}

/// The error answered when changing a username failed with `e`.
pub fn change_username_error(e: TimeError) -> (r: TimeError)
    ensures
        r == spec_change_username_error(e),
{
    match e {
        TimeError::DieselError(DbErrorKind::UniqueViolation, _) => TimeError::UsernameTaken,
        _ => e,
    }
}

/// An email address already in use violates uniqueness.
pub open spec fn spec_change_email_error(e: TimeError) -> TimeError {
    match e {
        TimeError::DieselError(DbErrorKind::UniqueViolation, _) => TimeError::EmailTaken,
        _ => e,
    }
}

/// The error answered when changing an email address failed with `e`.
pub fn change_email_error(e: TimeError) -> (r: TimeError)
    ensures
        r == spec_change_email_error(e),
{
    match e {
        TimeError::DieselError(DbErrorKind::UniqueViolation, _) => TimeError::EmailTaken,
        _ => e,
    }
}

/// Every error is answered with a client error (4xx) or a server error (5xx),
/// and it is a server error exactly for the failures of the service itself.
pub proof fn lemma_status_is_error(e: TimeError)
    ensures
        400 <= spec_status_code(e) < 600,
        spec_status_code(e) == 500 <==> (e is DieselError || e is DieselConnectionError
            || e is DeadpoolError || e is AxumError || e is UnknownError || e is SmtpError
            || e is HashError),
{
}

} // verus!
