use testaustime::error::TimeError;
use testaustime::password_reset::{
    check_reset_token, reset_expiry, reset_mail_body, reset_mail_recipient, RESET_LIFETIME_NS,
};

#[test]
fn tokens_last_thirty_minutes() {
    assert_eq!(RESET_LIFETIME_NS, 30 * 60 * 1_000_000_000);
    let expires = reset_expiry(1_000);
    assert_eq!(expires, 1_000 + RESET_LIFETIME_NS);
    assert_eq!(check_reset_token(Some(expires), 1_000), Ok(()));
    assert_eq!(check_reset_token(Some(expires), expires - 1), Ok(()));
    assert_eq!(check_reset_token(Some(expires), expires), Err(TimeError::ExpiredPasswordResetToken));
    assert_eq!(check_reset_token(None, 0), Err(TimeError::InvalidPasswordResetToken));
}

#[test]
fn reset_mail_contents() {
    assert_eq!(reset_mail_recipient("alice", "a@example.com"), Ok("alice <a@example.com>".to_string()));
    assert_eq!(reset_mail_recipient("alice", "not an address"), Err(TimeError::InvalidEmail));
    assert_eq!(
        reset_mail_body("TOKEN"),
        "Here is your testaustime password reset link: https://testaustime.fi/reset_password?token=TOKEN"
    );
}
