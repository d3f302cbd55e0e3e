//! Accounts with a password: creation, checking credentials, logging in and
//! changing the password.

use vstd::prelude::*;
use vstd::utf8::encode_utf8;
use crate::error::TimeError;
use crate::models::{NewUserIdentity, SelfUser, TestaustimeUser, UserIdentity};
use crate::password::{argon2_check, hash_password, verify_password};
use crate::tokens::{generate_auth_token, generate_friend_code, spec_is_prefixed_secret, spec_is_secret};

verus! {

/// The records of a new account: its identity, with fresh authentication
/// token and friend code, registered at `now`, and the hash of its password
/// to store beside it. A taken username is refused before anything is
/// hashed.
pub fn new_account(username_taken: bool, username: &str, password: &str, email: Option<&str>, now: i128) -> (r: Result<(NewUserIdentity, String), TimeError>)
    ensures
        username_taken ==> r == Err::<(NewUserIdentity, String), TimeError>(TimeError::UsernameTaken),
        !username_taken && encode_utf8(password@).len() <= 0xFFFF_FFFF ==> r is Ok,
        r matches Err(e) ==> e == TimeError::UsernameTaken || e == TimeError::HashError,
        r matches Err(e) && e == TimeError::HashError ==> !username_taken && encode_utf8(password@).len()
            > 0xFFFF_FFFF,
        r matches Ok((u, h)) ==> {
            &&& !username_taken
            &&& u.username@ == username@
            &&& u.email.deep_view() == email.deep_view()
            &&& u.registration_time == now
            &&& spec_is_secret(u.auth_token@, 32)
            &&& spec_is_prefixed_secret(u.friend_code@, "ttfc_"@, 24)
            &&& argon2_check(h@, password@) == Some(true)
        },
{
    if username_taken {
        return Err(TimeError::UsernameTaken);
    }
    let hash = hash_password(password)?;
    let email_owned = match email {
        Some(e) => Some(e.to_owned()),
        None => None,
    };
    let identity = NewUserIdentity {
        auth_token: generate_auth_token(),
        username: username.to_owned(),
        friend_code: generate_friend_code(),
        registration_time: now,
        email: email_owned,
    };
    Ok((identity, hash))
}

/// The identity of a user signing in through Testausserveri ID for the
/// first time, registered at `now`: the name given by the identity
/// service, fresh authentication token and friend code, and no email.
pub fn new_oauth_identity(username: String, now: i128) -> (u: NewUserIdentity)
    ensures
        u.username == username,
        u.email is None,
        u.registration_time == now,
        spec_is_secret(u.auth_token@, 32),
        spec_is_prefixed_secret(u.friend_code@, "ttfc_"@, 24),
{
    NewUserIdentity {
        auth_token: generate_auth_token(),
        username,
        friend_code: generate_friend_code(),
        registration_time: now,
        email: None,
    }
}

/// Whether `password` is the password whose stored hash is `stored_hash`:
/// the user when it is, `None` when it is not; a stored hash that does not
/// parse is a `HashError`.
pub open spec fn spec_check_credentials(user: UserIdentity, stored_hash: Seq<char>, password: Seq<char>) -> Result<Option<UserIdentity>, TimeError> {
    match argon2_check(stored_hash, password) {
        Some(true) => Ok(Some(user)),
        Some(false) => Ok(None),
        None => Err(TimeError::HashError),
    }
}

/// Whether `password` is the password of `user`, whose password record is
/// `stored` (see `spec_check_credentials`).
pub fn check_credentials(user: UserIdentity, stored: &TestaustimeUser, password: &str) -> (r: Result<Option<UserIdentity>, TimeError>)
    ensures
        r == spec_check_credentials(user, stored.password@, password@),
{
    match verify_password(stored.password.as_str(), password) {
        Ok(true) => Ok(Some(user)),
        Ok(false) => Ok(None),
        Err(e) => Err(e),
    }
}

/// The `/auth/login` answer once the credentials were looked up: the user's
/// own profile when they matched; every failure, a wrong password or an
/// error of the lookup alike, is `InvalidCredentials`.
pub fn login_result(checked: Result<Option<UserIdentity>, TimeError>) -> (r: Result<SelfUser, TimeError>)
    ensures
        checked matches Ok(Some(u)) ==> r matches Ok(s) && s.id == u.id && s.auth_token == u.auth_token
            && s.friend_code == u.friend_code && s.username == u.username && s.registration_time
            == u.registration_time && s.is_public == u.is_public,
        !(checked matches Ok(Some(_))) ==> r == Err::<SelfUser, TimeError>(TimeError::InvalidCredentials),
{
    match checked {
        Ok(Some(u)) => Ok(SelfUser::from_identity(u)),
        _ => Err(TimeError::InvalidCredentials),
    }
}

/// The `/auth/changepassword` step after the old password was checked: the
/// hash of the new password to store, or `Unauthorized` when the old one
/// did not match.
pub fn new_password_hash(old_matches: bool, new_password: &str) -> (r: Result<String, TimeError>)
    ensures
        !old_matches ==> r == Err::<String, TimeError>(TimeError::Unauthorized),
        old_matches ==> (r matches Ok(h) ==> argon2_check(h@, new_password@) == Some(true)) && (r matches Err(
            e,
        ) ==> e == TimeError::HashError),
        old_matches && encode_utf8(new_password@).len() <= 0xFFFF_FFFF ==> r is Ok,
{
    if !old_matches {
        return Err(TimeError::Unauthorized);
    }
    hash_password(new_password)
}

/// The password an account was created with, or last changed to, logs the
/// user in: the hash stored for it accepts it.
pub proof fn lemma_stored_password_accepted(user: UserIdentity, stored_hash: Seq<char>, password: Seq<char>)
    requires
        argon2_check(stored_hash, password) == Some(true),
    ensures
        spec_check_credentials(user, stored_hash, password) == Ok::<Option<UserIdentity>, TimeError>(Some(user)),
{
}

} // verus!
