use testaustime::error::{
    add_friend_error, change_email_error, change_username_error, create_leaderboard_error, join_leaderboard_error, DbErrorKind, TimeError,
};

#[test]
fn status_codes_by_kind() {
    assert_eq!(TimeError::UserNotFound.status_code(), 404);
    assert_eq!(TimeError::LeaderboardNotFound.status_code(), 404);
    assert_eq!(TimeError::NotActive.status_code(), 404);
    assert_eq!(TimeError::BadUsername.status_code(), 400);
    assert_eq!(TimeError::InvalidLength("x".to_string()).status_code(), 400);
    assert_eq!(TimeError::BadId.status_code(), 400);
    assert_eq!(TimeError::InvalidEmail.status_code(), 400);
    assert_eq!(TimeError::BadCode.status_code(), 400);
    assert_eq!(TimeError::HeaderError("h".to_string()).status_code(), 400);
    assert_eq!(TimeError::CurrentUser.status_code(), 403);
    assert_eq!(TimeError::NotMember.status_code(), 403);
    assert_eq!(TimeError::LastAdmin.status_code(), 403);
    assert_eq!(TimeError::AlreadyFriends.status_code(), 409);
    assert_eq!(TimeError::LeaderboardExists.status_code(), 409);
    assert_eq!(TimeError::AlreadyMember.status_code(), 409);
    assert_eq!(TimeError::UsernameTaken.status_code(), 409);
    assert_eq!(TimeError::EmailTaken.status_code(), 409);
    assert_eq!(TimeError::Unauthorized.status_code(), 401);
    assert_eq!(TimeError::InvalidCredentials.status_code(), 401);
    assert_eq!(TimeError::InvalidPasswordResetToken.status_code(), 400);
    assert_eq!(TimeError::ExpiredPasswordResetToken.status_code(), 400);
    assert_eq!(TimeError::TooManyRegisters.status_code(), 429);
    assert_eq!(
        TimeError::DieselError(DbErrorKind::Other, "x".to_string()).status_code(),
        500
    );
    assert_eq!(TimeError::DieselConnectionError.status_code(), 500);
    assert_eq!(TimeError::DeadpoolError.status_code(), 500);
    assert_eq!(TimeError::AxumError("a".to_string()).status_code(), 500);
    assert_eq!(TimeError::UnknownError.status_code(), 500);
    assert_eq!(TimeError::SmtpError.status_code(), 500);
    assert_eq!(TimeError::HashError.status_code(), 500);
}

#[test]
fn messages_of_errors() {
    assert_eq!(TimeError::UsernameTaken.message(), "User exists");
    assert_eq!(TimeError::UserNotFound.message(), "User not found");
    assert_eq!(TimeError::CurrentUser.message(), "You cannot add yourself");
    assert_eq!(TimeError::InvalidCredentials.message(), "Invalid username or password");
    assert_eq!(
        TimeError::LastAdmin.message(),
        "There are no more admins left, you cannot leave"
    );
    assert_eq!(TimeError::NotActive.message(), "The user has no active session");
    assert_eq!(TimeError::HashError.message(), "Password hashing failed");
    assert_eq!(
        TimeError::InvalidLength("Hostname is over 64 chars".to_string()).message(),
        "Hostname is over 64 chars"
    );
    assert_eq!(
        TimeError::DieselError(DbErrorKind::NotFound, "Record not found".to_string()).message(),
        "Diesel transaction failed `Record not found`"
    );
    assert_eq!(TimeError::AxumError("bad json".to_string()).message(), "bad json");
    assert_eq!(
        TimeError::BadUsername.message(),
        "Username has to contain characters from [a-zA-Z0-9_] and has to be between 2 and 32 characters"
    );
}

#[test]
fn unique_violation_detected() {
    assert!(TimeError::DieselError(DbErrorKind::UniqueViolation, String::new()).is_unique_violation());
    assert!(!TimeError::DieselError(DbErrorKind::NotFound, String::new()).is_unique_violation());
    assert!(!TimeError::AlreadyFriends.is_unique_violation());
}

#[test]
fn database_errors_mapped_per_operation() {
    let unique = TimeError::DieselError(DbErrorKind::UniqueViolation, "dup".to_string());
    let missing = TimeError::DieselError(DbErrorKind::NotFound, "none".to_string());
    assert_eq!(add_friend_error(unique.clone()), TimeError::AlreadyFriends);
    assert_eq!(add_friend_error(missing.clone()), missing);
    assert_eq!(create_leaderboard_error(unique.clone()), TimeError::LeaderboardExists);
    assert_eq!(create_leaderboard_error(TimeError::BadCode), TimeError::BadCode);
    assert_eq!(join_leaderboard_error(unique), TimeError::AlreadyMember);
    assert_eq!(join_leaderboard_error(missing), TimeError::LeaderboardNotFound);
    assert_eq!(join_leaderboard_error(TimeError::SmtpError), TimeError::SmtpError);
}

#[test]
fn renaming_conflicts_mapped() {
    let unique = TimeError::DieselError(DbErrorKind::UniqueViolation, "dup".to_string());
    assert_eq!(change_username_error(unique.clone()), TimeError::UsernameTaken);
    assert_eq!(change_email_error(unique), TimeError::EmailTaken);
    assert_eq!(change_email_error(TimeError::DeadpoolError), TimeError::DeadpoolError);
}
