//! Password reset by emailed token, valid for thirty minutes.

use vstd::prelude::*;
use crate::activity::valid_instant;
use crate::error::TimeError;

verus! {

/// Life of a password reset token, nanoseconds.
pub const RESET_LIFETIME_NS: i128 = 1_800_000_000_000;

/// When a reset token issued at `now` expires.
pub fn reset_expiry(now: i128) -> (t: i128)
    requires
        valid_instant(now),
    ensures
        t == now + RESET_LIFETIME_NS,
{
    now + RESET_LIFETIME_NS
}

/// The `/auth/complete-password-reset` decision: an unknown token is
/// invalid; a known token works until it expires.
pub open spec fn spec_check_reset_token(expires: Option<i128>, now: i128) -> Result<(), TimeError> {
    match expires {
        None => Err(TimeError::InvalidPasswordResetToken),
        Some(t) => if t > now {
            Ok(())
        } else {
            Err(TimeError::ExpiredPasswordResetToken)
        },
    }
}

/// See `spec_check_reset_token`; `expires` is the expiry of the token
/// presented, if it is known.
pub fn check_reset_token(expires: Option<i128>, now: i128) -> (r: Result<(), TimeError>)
    ensures
        r == spec_check_reset_token(expires, now),
{
    match expires {
        None => Err(TimeError::InvalidPasswordResetToken),
        Some(t) => if t > now {
            Ok(())
        } else {
            Err(TimeError::ExpiredPasswordResetToken)
        },
    }
}

/// Whether `lettre` accepts the text as a mailbox, `Name <address>`
/// (`Mailbox::from_str`).
pub uninterp spec fn lettre_mailbox_valid(s: Seq<char>) -> bool;

/// `s.parse::<lettre::message::Mailbox>().is_ok()`. Claimed: the outcome is
/// the named function `lettre_mailbox_valid` of the text (the parse depends
/// on nothing else); the mailbox grammar itself is not stated here.
#[verifier::external_body]
fn parse_mailbox(s: &str) -> (b: bool)
    ensures
        b == lettre_mailbox_valid(s@),
{
    s.parse::<lettre::message::Mailbox>().is_ok()
}

/// The mailbox `Name <address>` a reset mail is sent to.
pub open spec fn spec_reset_mail_recipient(username: Seq<char>, email: Seq<char>) -> Seq<char> {
    username + " <"@ + email + ">"@
}

/// The recipient of a reset mail, `Name <address>`; a recipient the mail
/// library does not accept as a mailbox is an `InvalidEmail`.
pub fn reset_mail_recipient(username: &str, email: &str) -> (r: Result<String, TimeError>)
    ensures
        r is Ok <==> lettre_mailbox_valid(spec_reset_mail_recipient(username@, email@)),
        r matches Ok(m) ==> m@ == spec_reset_mail_recipient(username@, email@),
        r matches Err(e) ==> e == TimeError::InvalidEmail,
{
    let mut r = username.to_owned();
    r.append(" <");
    r.append(email);
    r.append(">");
    if parse_mailbox(r.as_str()) {
        Ok(r)
    } else {
        Err(TimeError::InvalidEmail)
    }
}

/// The body of a reset mail: the reset link carrying the token.
pub fn reset_mail_body(token: &str) -> (r: String)
    ensures
        r@ == "Here is your testaustime password reset link: https://testaustime.fi/reset_password?token="@ + token@,
{
    let mut r = "Here is your testaustime password reset link: https://testaustime.fi/reset_password?token=".to_owned();
    r.append(token);
    r
}

/// A token works for its whole thirty minutes and not after.
pub proof fn lemma_reset_token_lifetime(issued: i128, now: i128)
    requires
        valid_instant(issued),
    ensures
        spec_check_reset_token(Some((issued + RESET_LIFETIME_NS) as i128), now) is Ok <==> now < issued + RESET_LIFETIME_NS,
{
}

} // verus!
