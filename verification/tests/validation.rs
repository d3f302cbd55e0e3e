use testaustime::error::TimeError;
use testaustime::validation::{
    check_leaderboard_name, check_login_password, check_new_email, check_new_password,
    check_new_username, check_oauth_code, is_valid_name, validate_email, validate_registration,
};

#[test]
fn names_are_word_characters_of_bounded_length() {
    assert!(is_valid_name("ab"));
    assert!(is_valid_name("user_123"));
    assert!(is_valid_name(&"a".repeat(32)));
    assert!(!is_valid_name("a"));
    assert!(!is_valid_name(&"a".repeat(33)));
    assert!(!is_valid_name("bad name"));
    assert!(!is_valid_name("bad-name"));
    assert!(!is_valid_name("ääkkönen"));
    assert!(!is_valid_name(""));
}

#[test]
fn email_addresses() {
    assert!(validate_email("user@example.com"));
    assert!(!validate_email("not an email"));
    assert!(!validate_email("user@"));
    assert_eq!(check_new_email("user@example.com"), Ok(()));
    assert_eq!(check_new_email("nope"), Err(TimeError::InvalidEmail));
}

#[test]
fn password_lengths() {
    let msg = "Password has to be between 8 and 128 characters long".to_string();
    assert_eq!(check_new_password("1234567"), Err(TimeError::InvalidLength(msg.clone())));
    assert_eq!(check_new_password("12345678"), Ok(()));
    assert_eq!(check_new_password(&"x".repeat(128)), Ok(()));
    assert_eq!(check_new_password(&"x".repeat(129)), Err(TimeError::InvalidLength(msg)));
    // Lengths are counted in bytes: four two-byte characters make eight.
    assert_eq!(check_new_password("ääää"), Ok(()));
}

#[test]
fn login_password_limit() {
    assert_eq!(check_login_password(&"x".repeat(128)), Ok(()));
    assert_eq!(
        check_login_password(&"x".repeat(129)),
        Err(TimeError::InvalidLength(
            "Password cannot be longer than 128 characters".to_string()
        ))
    );
    assert_eq!(check_login_password(""), Ok(()));
}

#[test]
fn registration_checks_in_order() {
    assert_eq!(validate_registration("good_name", "password123", None), Ok(()));
    assert_eq!(
        validate_registration("good_name", "password123", Some("me@example.com")),
        Ok(())
    );
    assert_eq!(
        validate_registration("good_name", "password123", Some("garbage")),
        Err(TimeError::InvalidEmail)
    );
    assert_eq!(
        validate_registration("bad name", "password123", Some("garbage")),
        Err(TimeError::BadUsername)
    );
    assert_eq!(
        validate_registration("bad name", "short", Some("garbage")),
        Err(TimeError::InvalidLength(
            "Password has to be between 8 and 128 characters long".to_string()
        ))
    );
}

#[test]
fn new_usernames() {
    assert_eq!(check_new_username("new_name"), Ok(()));
    assert_eq!(
        check_new_username("x"),
        Err(TimeError::InvalidLength("Username is not between 2 and 32 chars".to_string()))
    );
    assert_eq!(
        check_new_username(&"x".repeat(33)),
        Err(TimeError::InvalidLength("Username is not between 2 and 32 chars".to_string()))
    );
    assert_eq!(check_new_username("no spaces"), Err(TimeError::BadUsername));
}

#[test]
fn leaderboard_names() {
    assert_eq!(check_leaderboard_name("team_a"), Ok(()));
    assert_eq!(check_leaderboard_name("t"), Err(TimeError::BadLeaderboardName));
    assert_eq!(check_leaderboard_name("team a"), Err(TimeError::BadLeaderboardName));
}

#[test]
fn oauth_codes() {
    assert_eq!(check_oauth_code("abcDEF123"), Ok(()));
    assert_eq!(check_oauth_code(""), Ok(()));
    assert_eq!(check_oauth_code("abc-123"), Err(TimeError::BadCode));
    assert_eq!(check_oauth_code("abc 123"), Err(TimeError::BadCode));
}
