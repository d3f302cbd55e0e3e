//! Short-lived secured-access tokens: a token names a user for one hour.

use vstd::prelude::*;
use dashmap::DashMap;
use crate::tokens::{generate_token, spec_is_secret};

verus! {

/// Life of a secured-access token, nanoseconds.
pub const TOKEN_LIFETIME_NS: u64 = 3_600_000_000_000;

/// Why a secured-access token is not accepted.
#[derive(Clone, Copy, Debug, PartialEq, Eq)]
pub enum SecuredAccessError {
    InvalidToken,
    ExpiredToken,
}

/// The user a token was issued to and when it expires (nanoseconds of a monotonic clock).
#[derive(Clone, Copy, Debug, PartialEq, Eq)]
pub struct SecuredAccessTokenInstance {
    pub user_id: i32,
    pub expires: u64,
}

#[verifier::external_type_specification]
#[verifier::external_body]
#[verifier::reject_recursive_types(K)]
#[verifier::reject_recursive_types(V)]
#[verifier::reject_recursive_types(S)]
pub struct ExDashMap<K, V, S>(DashMap<K, V, S>);

/// Issued tokens by their text.
pub type TokenTable = DashMap<String, SecuredAccessTokenInstance>;

/// The entries of a token table, by the token's text.
pub uninterp spec fn token_table(m: TokenTable) -> Map<Seq<char>, SecuredAccessTokenInstance>;

/// `DashMap::new()`. Claimed: the table is empty.
#[verifier::external_body]
fn table_new() -> (table: TokenTable)
    ensures
        forall|k: Seq<char>| !(#[trigger] token_table(table).contains_key(k)),
{
    DashMap::new()
}

/// `DashMap::get`, copying the entry out. Claimed: the entry of the token,
/// if there is one (`String` keys are equal exactly when their texts are).
#[verifier::external_body]
fn table_get(m: &TokenTable, token: &String) -> (r: Option<SecuredAccessTokenInstance>)
    ensures
        r == (if token_table(*m).contains_key(token@) {
            Some(token_table(*m)[token@])
        } else {
            None::<SecuredAccessTokenInstance>
        }),
{
    m.get(token).map(|e| *e.value())
}

/// `DashMap::insert`. Claimed: the token's entry is set, the others kept.
#[verifier::external_body]
fn table_insert(m: &mut TokenTable, token: String, v: SecuredAccessTokenInstance)
    ensures
        token_table(*final(m)) == token_table(*old(m)).insert(token@, v),
{
    m.insert(token, v);
}

/// `DashMap::remove`. Claimed: the token's entry, if any, is gone and the
/// others kept.
#[verifier::external_body]
fn table_remove(m: &mut TokenTable, token: &String)
    ensures
        token_table(*final(m)) == token_table(*old(m)).remove(token@),
{
    m.remove(token);
}

/// Whether a token is still valid after `now`.
pub fn is_live(v: &SecuredAccessTokenInstance, now: u64) -> (b: bool)
    ensures
        b == (v.expires > now),
{
    v.expires > now
}

/// `DashMap::retain` with `is_live`. Claimed: exactly the entries valid
/// after `now` are kept, unchanged (the closure does not modify them).
#[verifier::external_body]
fn table_retain_live(m: &mut TokenTable, now: u64)
    ensures
        token_table(*final(m)) == token_table(*old(m)).restrict(
            token_table(*old(m)).dom().filter(|k: Seq<char>| token_table(*old(m))[k].expires > now),
        ),
{
    m.retain(|_, v| is_live(v, now));
}

/// The issued tokens.
pub struct SecuredAccessTokenStorage {
    pub inner: TokenTable,
}

/// The tokens after issuing `token` to `user_id` at `now` and dropping
/// those expired by then.
pub open spec fn spec_after_issue(
    m: Map<Seq<char>, SecuredAccessTokenInstance>,
    token: Seq<char>,
    user_id: i32,
    now: u64,
) -> Map<Seq<char>, SecuredAccessTokenInstance> {
    let m2 = m.insert(token, SecuredAccessTokenInstance { user_id, expires: (now + TOKEN_LIFETIME_NS) as u64 });
    m2.restrict(m2.dom().filter(|k: Seq<char>| m2[k].expires > now))
}

/// The answer to presenting `token` at `now`.
pub open spec fn spec_lookup(
    m: Map<Seq<char>, SecuredAccessTokenInstance>,
    token: Seq<char>,
    now: u64,
) -> Result<SecuredAccessTokenInstance, SecuredAccessError> {
    if !m.contains_key(token) {
        Err(SecuredAccessError::InvalidToken)
    } else if m[token].expires < now {
        Err(SecuredAccessError::ExpiredToken)
    } else {
        Ok(m[token])
    }
}

impl SecuredAccessTokenStorage {
    /// The issued tokens by their text.
    pub open spec fn tokens(&self) -> Map<Seq<char>, SecuredAccessTokenInstance> {
        token_table(self.inner)
    }

    /// No tokens.
    pub fn new() -> (s: Self)
        ensures
            s.tokens() == Map::<Seq<char>, SecuredAccessTokenInstance>::empty(),
    {
        let s = SecuredAccessTokenStorage { inner: table_new() };
        assert(s.tokens() =~= Map::<Seq<char>, SecuredAccessTokenInstance>::empty());
        s
    }

    /// Checks `token` at `now`: unknown tokens are invalid; an expired token
    /// is dropped and reported as expired.
    pub fn get(&mut self, token: &String, now: u64) -> (r: Result<SecuredAccessTokenInstance, SecuredAccessError>)
        ensures
            r == spec_lookup(old(self).tokens(), token@, now),
            final(self).tokens() == (if r == Err::<SecuredAccessTokenInstance, SecuredAccessError>(SecuredAccessError::ExpiredToken) {
                old(self).tokens().remove(token@)
            } else {
                old(self).tokens()
            }),
    {
        match table_get(&self.inner, token) {
            None => Err(SecuredAccessError::InvalidToken),
            Some(instance) => {
                if instance.expires < now {
                    table_remove(&mut self.inner, token);
                    Err(SecuredAccessError::ExpiredToken)
                } else {
                    Ok(instance)
                }
            },
        }
    }

    /// Records `token` as issued to `user_id` at `now`, valid for an hour,
    /// and drops the tokens that have expired.
    pub fn issue(&mut self, token: String, user_id: i32, now: u64)
        requires
            now + TOKEN_LIFETIME_NS <= u64::MAX,
        ensures
            final(self).tokens() == spec_after_issue(old(self).tokens(), token@, user_id, now),
    {
        table_insert(&mut self.inner, token, SecuredAccessTokenInstance { user_id, expires: now + TOKEN_LIFETIME_NS });
        table_retain_live(&mut self.inner, now);
    }

    /// Issues a fresh random token (32 ASCII letters and digits) to
    /// `user_id` at `now`, valid for an hour, dropping expired tokens.
    pub fn create_token(&mut self, user_id: i32, now: u64) -> (token: String)
        requires
            now + TOKEN_LIFETIME_NS <= u64::MAX,
        ensures
            spec_is_secret(token@, 32),
            final(self).tokens() == spec_after_issue(old(self).tokens(), token@, user_id, now),
    {
        let token = generate_token();
        self.issue(token.clone(), user_id, now);
        token
    }
}

/// A token can be used for its whole hour: presenting it from the moment
/// it is issued until it expires yields the user it was issued to.
pub proof fn lemma_issued_token_valid(
    m: Map<Seq<char>, SecuredAccessTokenInstance>,
    token: Seq<char>,
    user_id: i32,
    now: u64,
    later: u64,
)
    requires
        now + TOKEN_LIFETIME_NS <= u64::MAX,
        now <= later <= now + TOKEN_LIFETIME_NS,
    ensures
        spec_lookup(spec_after_issue(m, token, user_id, now), token, later)
            == Ok::<SecuredAccessTokenInstance, SecuredAccessError>(SecuredAccessTokenInstance {
            user_id,
            expires: (now + TOKEN_LIFETIME_NS) as u64,
        }),
{
    let m2 = m.insert(token, SecuredAccessTokenInstance { user_id, expires: (now + TOKEN_LIFETIME_NS) as u64 });
    assert(m2.dom().filter(|k: Seq<char>| m2[k].expires > now).contains(token));
}

/// After its hour a token is refused as expired, until it is dropped.
pub proof fn lemma_token_expires(
    m: Map<Seq<char>, SecuredAccessTokenInstance>,
    token: Seq<char>,
    user_id: i32,
    now: u64,
    later: u64,
)
    requires
        now + TOKEN_LIFETIME_NS <= u64::MAX,
        later > now + TOKEN_LIFETIME_NS,
    ensures
        spec_lookup(spec_after_issue(m, token, user_id, now), token, later)
            == Err::<SecuredAccessTokenInstance, SecuredAccessError>(SecuredAccessError::ExpiredToken),
{
    let m2 = m.insert(token, SecuredAccessTokenInstance { user_id, expires: (now + TOKEN_LIFETIME_NS) as u64 });
    assert(m2.dom().filter(|k: Seq<char>| m2[k].expires > now).contains(token));
}

} // verus!
