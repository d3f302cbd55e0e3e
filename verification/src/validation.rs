//! Checks of user-supplied names, passwords, email addresses and codes.

use vstd::prelude::*;
use vstd::utf8::encode_utf8;
use crate::activity::spec_byte_len;
use crate::error::TimeError;

verus! {

/// ASCII letters, digits and the underscore (the regex class `[[:word:]]`).
pub open spec fn spec_is_word_char(c: char) -> bool {
    ('0' <= c && c <= '9') || ('A' <= c && c <= 'Z') || ('a' <= c && c <= 'z') || c == '_'
}

/// A valid user or leaderboard name: 2 to 32 characters, each an ASCII
/// letter, digit or underscore.
pub open spec fn spec_is_valid_name(s: Seq<char>) -> bool {
    &&& 2 <= s.len() <= 32
    &&& forall|i: int| 0 <= i < s.len() ==> spec_is_word_char(#[trigger] s[i])
}

/// `regex::Regex::new(pattern)` then `Regex::is_match(text)`, for the name
/// pattern `^[[:word:]]{2,32}$` only. Claimed: the match succeeds exactly
/// for 2 to 32 characters that are all ASCII letters, digits or
/// underscores. In the `regex` crate `[[:word:]]` is the ASCII class
/// `[0-9A-Za-z_]`, `{2,32}` counts characters, and `^`/`$` anchor at the
/// ends of the text; the pattern compiles.
#[verifier::external_body]
fn regex_is_match(pattern: &str, text: &str) -> (b: bool)
    requires
        pattern@ == "^[[:word:]]{2,32}$"@,
    ensures
        b == spec_is_valid_name(text@),
{
    regex::Regex::new(pattern).unwrap().is_match(text)
}

/// Whether `name` is a valid user or leaderboard name.
pub fn is_valid_name(name: &str) -> (b: bool)
    ensures
        b == spec_is_valid_name(name@),
{
    regex_is_match("^[[:word:]]{2,32}$", name)
}

/// Whether `lettre` accepts the text as an email address (`Address::from_str`).
pub uninterp spec fn lettre_address_valid(s: Seq<char>) -> bool;

/// `s.parse::<lettre::Address>().is_ok()`. Claimed: the outcome is the
/// named function `lettre_address_valid` of the text; the parsing rules
/// themselves (RFC local part and domain checks) are not stated here.
#[verifier::external_body]
fn parse_address(s: &str) -> (b: bool)
    ensures
        b == lettre_address_valid(s@),
{
    s.parse::<lettre::Address>().is_ok()
}

/// Whether `email` is a valid email address.
pub fn validate_email(email: &str) -> (b: bool)
    ensures
        b == lettre_address_valid(email@),
{
    parse_address(email)
}

/// Whether `char::is_alphanumeric` holds of a character (Unicode
/// `Alphabetic` or `Numeric`).
pub uninterp spec fn char_is_alphanumeric(c: char) -> bool;

/// `char::is_alphanumeric`. Claimed: the outcome is the named function
/// `char_is_alphanumeric`; the Unicode tables behind it are not stated here.
#[verifier::external_body]
fn is_alphanumeric(c: char) -> (b: bool)
    ensures
        b == char_is_alphanumeric(c),
{
    c.is_alphanumeric()
}

/// An OAuth authorization code: alphanumeric characters only.
pub open spec fn spec_is_valid_oauth_code(code: Seq<char>) -> bool {
    forall|i: int| 0 <= i < code.len() ==> char_is_alphanumeric(#[trigger] code[i])
}

/// The `/auth/callback` check: an authorization code must be made of
/// alphanumeric characters, else the request fails with `BadCode`.
pub fn check_oauth_code(code: &str) -> (r: Result<(), TimeError>)
    ensures
        r is Ok <==> spec_is_valid_oauth_code(code@),
        r matches Err(e) ==> e == TimeError::BadCode,
{
    for c in it: code.chars()
        invariant
            it.seq() == code@,
            forall|k: int| 0 <= k < it.index() ==> char_is_alphanumeric(#[trigger] code@[k]),
    {
        if !is_alphanumeric(c) {
            return Err(TimeError::BadCode);
        }
    }
    Ok(())
}

/// Passwords are 8 to 128 bytes long.
pub open spec fn spec_password_length_ok(password: Seq<char>) -> bool {
    8 <= spec_byte_len(password) <= 128
}

/// The check on a new password: 8 to 128 bytes long.
pub fn check_new_password(password: &str) -> (r: Result<(), TimeError>)
    ensures
        r is Ok <==> spec_password_length_ok(password@),
        r matches Err(e) ==> e matches TimeError::InvalidLength(m) && m@
            == "Password has to be between 8 and 128 characters long"@,
{
    let n = password.len();
    if n < 8 || n > 128 {
        Err(TimeError::InvalidLength("Password has to be between 8 and 128 characters long".to_owned()))
    } else {
        Ok(())
    }
}

/// The `/auth/register` checks, in order: password length, username,
/// then the email address when one is given.
pub open spec fn spec_registration_error(username: Seq<char>, password: Seq<char>, email: Option<Seq<char>>) -> Option<TimeError> {
    if !spec_password_length_ok(password) {
        Some(TimeError::InvalidLength(arbitrary()))
    } else if !spec_is_valid_name(username) {
        Some(TimeError::BadUsername)
    } else if email matches Some(e) && !lettre_address_valid(e) {
        Some(TimeError::InvalidEmail)
    } else {
        None
    }
}

/// The checks of a registration request that need no database: the first
/// that fails gives the error.
pub fn validate_registration(username: &str, password: &str, email: Option<&str>) -> (r: Result<(), TimeError>)
    ensures
        r is Ok <==> spec_registration_error(username@, password@, email.deep_view()) is None,
        r matches Err(e) ==> match spec_registration_error(username@, password@, email.deep_view()) {
            Some(TimeError::InvalidLength(_)) => e matches TimeError::InvalidLength(m) && m@
                == "Password has to be between 8 and 128 characters long"@,
            Some(other) => e == other,
            None => false,
        },
{
    check_new_password(password)?;
    if !is_valid_name(username) {
        return Err(TimeError::BadUsername);
    }
    match email {
        Some(e) => if !validate_email(e) {
            return Err(TimeError::InvalidEmail);
        },
        None => {},
    }
    Ok(())
}

/// The `/auth/login` check: a password over 128 bytes is refused.
pub fn check_login_password(password: &str) -> (r: Result<(), TimeError>)
    ensures
        r is Ok <==> spec_byte_len(password@) <= 128,
        r matches Err(e) ==> e matches TimeError::InvalidLength(m) && m@
            == "Password cannot be longer than 128 characters"@,
{
    if password.len() > 128 {
        Err(TimeError::InvalidLength("Password cannot be longer than 128 characters".to_owned()))
    } else {
        Ok(())
    }
}

/// The `/auth/change-username` checks: 2 to 32 bytes, then a valid name.
pub fn check_new_username(name: &str) -> (r: Result<(), TimeError>)
    ensures
        r is Ok <==> 2 <= spec_byte_len(name@) <= 32 && spec_is_valid_name(name@),
        r matches Err(e) ==> if 2 <= spec_byte_len(name@) <= 32 {
            e == TimeError::BadUsername
        } else {
            e matches TimeError::InvalidLength(m) && m@ == "Username is not between 2 and 32 chars"@
        },
{
    let n = name.len();
    if n < 2 || n > 32 {
        return Err(TimeError::InvalidLength("Username is not between 2 and 32 chars".to_owned()));
    }
    if !is_valid_name(name) {
        return Err(TimeError::BadUsername);
    }
    Ok(())
}

/// The `/auth/change-email` check.
pub fn check_new_email(email: &str) -> (r: Result<(), TimeError>)
    ensures
        r is Ok <==> lettre_address_valid(email@),
        r matches Err(e) ==> e == TimeError::InvalidEmail,
{
    if validate_email(email) {
        Ok(())
    } else {
        Err(TimeError::InvalidEmail)
    }
}

/// The `/leaderboards/create` check on the name.
pub fn check_leaderboard_name(name: &str) -> (r: Result<(), TimeError>)
    ensures
        r is Ok <==> spec_is_valid_name(name@),
        r matches Err(e) ==> e == TimeError::BadLeaderboardName,
{
    if is_valid_name(name) {
        Ok(())
    } else {
        Err(TimeError::BadLeaderboardName)
    }
}

} // verus!
