//! Random secrets (auth tokens, friend codes, invite codes, reset tokens)
//! and the normalisation of codes that users type in.

use vstd::prelude::*;
use rand::distr::Alphanumeric;
use rand::rngs::ThreadRng;
use rand::Rng;
use crate::text::{
    spec_strip_prefix, spec_trim, spec_trim_start_matches, strip_prefix, trim,
    trim_start_matches, lemma_trim_start_matches_absorbs_prefix,
};

verus! {

#[verifier::external_type_specification]
#[verifier::external_body]
pub struct ExThreadRng(ThreadRng);

/// ASCII letters and digits.
pub open spec fn spec_is_ascii_alphanumeric(c: char) -> bool {
    ('0' <= c && c <= '9') || ('A' <= c && c <= 'Z') || ('a' <= c && c <= 'z')
}

/// A secret of `len` ASCII letters and digits.
pub open spec fn spec_is_secret(s: Seq<char>, len: nat) -> bool {
    &&& s.len() == len
    &&& forall|i: int| 0 <= i < s.len() ==> spec_is_ascii_alphanumeric(#[trigger] s[i])
}

/// `rand::rng()`: the thread-local random generator. Nothing is claimed of it.
#[verifier::external_body]
fn thread_rng() -> ThreadRng {
    rand::rng()
}

/// `Rng::sample` with the `Alphanumeric` distribution, as a character.
/// Claimed: the character is an ASCII letter or digit (the distribution's
/// documented range). Which one comes out is random and not claimed.
#[verifier::external_body]
fn sample_alphanumeric(rng: &mut ThreadRng) -> (c: char)
    ensures
        spec_is_ascii_alphanumeric(c),
{
    char::from(rng.sample(Alphanumeric))
}

/// `String::push`. Claimed: the character is appended.
#[verifier::external_body]
fn push_char(s: &mut String, c: char)
    ensures
        final(s)@ == old(s)@.push(c),
{
    s.push(c)
}

/// A fresh random string of `len` ASCII letters and digits, one sample of
/// the thread's generator per character.
pub fn random_alphanumeric(len: usize) -> (s: String)
    ensures
        spec_is_secret(s@, len as nat),
{
    let mut rng = thread_rng();
    let mut s = String::new();
    let mut i: usize = 0;
    while i < len
        invariant
            i <= len,
            spec_is_secret(s@, i as nat),
        decreases len - i,
    {
        let c = sample_alphanumeric(&mut rng);
        push_char(&mut s, c);
        i = i + 1;
    }
    s
}

/// A fresh authentication token: 32 random ASCII letters and digits.
pub fn generate_auth_token() -> (s: String)
    ensures
        spec_is_secret(s@, 32),
{
    random_alphanumeric(32)
}

/// A code made of `prefix` followed by a secret of `len` ASCII letters and digits.
pub open spec fn spec_is_prefixed_secret(s: Seq<char>, prefix: Seq<char>, len: nat) -> bool {
    &&& s.len() == prefix.len() + len
    &&& s.subrange(0, prefix.len() as int) == prefix
    &&& spec_is_secret(s.subrange(prefix.len() as int, s.len() as int), len)
}

fn prefixed_secret(prefix: &str, len: usize) -> (s: String)
    ensures
        spec_is_prefixed_secret(s@, prefix@, len as nat),
{
    let mut s = prefix.to_owned();
    let r = random_alphanumeric(len);
    s.append(r.as_str());
    assert(s@.subrange(0, prefix@.len() as int) =~= prefix@);
    assert(s@.subrange(prefix@.len() as int, s@.len() as int) =~= r@);
    s
}

/// A fresh friend code: "ttfc_" followed by 24 random ASCII letters and digits.
pub fn generate_friend_code() -> (s: String)
    ensures
        spec_is_prefixed_secret(s@, "ttfc_"@, 24),
{
    prefixed_secret("ttfc_", 24)
}

/// A fresh leaderboard invite code: "ttlic_" followed by 32 random ASCII
/// letters and digits.
pub fn generate_invite_code() -> (s: String)
    ensures
        spec_is_prefixed_secret(s@, "ttlic_"@, 32),
{
    prefixed_secret("ttlic_", 32)
}

/// A fresh password reset token: 48 random ASCII letters and digits.
pub fn generate_password_reset_token() -> (s: String)
    ensures
        spec_is_secret(s@, 48),
{
    random_alphanumeric(48)
}

/// A fresh general-purpose token (secured access): 32 random ASCII letters
/// and digits.
pub fn generate_token() -> (s: String)
    ensures
        spec_is_secret(s@, 32),
{
    random_alphanumeric(32)
}

/// The friend code a user typed, in its stored form: any leading "ttfc_"
/// prefixes are dropped and one is put back.
pub open spec fn spec_normalize_friend_code(code: Seq<char>) -> Seq<char> {
    "ttfc_"@ + spec_trim_start_matches(code, "ttfc_"@)
}

/// The friend code meant by what a user typed: friend codes are accepted
/// with or without the "ttfc_" prefix.
pub fn normalize_friend_code(code: &str) -> (r: String)
    ensures
        r@ == spec_normalize_friend_code(code@),
{
    let mut r = "ttfc_".to_owned();
    let rest = trim_start_matches(code, "ttfc_");
    r.append(rest.as_str());
    r
}

/// A leaderboard invite a user typed, in its stored form: trimmed, any
/// leading "ttlic_" prefixes dropped and one put back.
pub open spec fn spec_normalize_invite_code(invite: Seq<char>) -> Seq<char> {
    "ttlic_"@ + spec_trim_start_matches(spec_trim(invite), "ttlic_"@)
}

/// The invite code meant by what a user typed: surrounding whitespace and
/// the "ttlic_" prefix are ignored.
pub fn normalize_invite_code(invite: &str) -> (r: String)
    ensures
        r@ == spec_normalize_invite_code(invite@),
{
    let t = trim(invite);
    let mut r = "ttlic_".to_owned();
    let rest = trim_start_matches(t.as_str(), "ttlic_");
    r.append(rest.as_str());
    r
}

/// The token of an `Authorization` header value of the form
/// `Bearer <token>`, surrounding whitespace ignored.
pub open spec fn spec_bearer_token(header: Seq<char>) -> Option<Seq<char>> {
    spec_strip_prefix(spec_trim(header), "Bearer "@)
}

/// The token carried by an `Authorization` header value, if it is a bearer token.
pub fn bearer_token(header: &str) -> (r: Option<String>)
    ensures
        r is None <==> spec_bearer_token(header@) is None,
        r matches Some(t) ==> spec_bearer_token(header@) == Some(t@),
{
    let t = trim(header);
    strip_prefix(t.as_str(), "Bearer ")
}

/// A friend code is accepted with or without its "ttfc_" prefix: both
/// forms name the same code.
pub proof fn lemma_friend_code_prefix_optional(code: Seq<char>)
    ensures
        spec_normalize_friend_code("ttfc_"@ + code) == spec_normalize_friend_code(code),
{
    reveal_strlit("ttfc_");
    lemma_trim_start_matches_absorbs_prefix(code, "ttfc_"@);
}

/// An invite code is accepted with or without its "ttlic_" prefix.
pub proof fn lemma_invite_code_prefix_optional(code: Seq<char>)
    requires
        spec_trim(code) == code,
    ensures
        spec_normalize_invite_code("ttlic_"@ + code) == spec_normalize_invite_code(code),
{
    reveal_strlit("ttlic_");
    lemma_trim_of_prefixed(code);
    lemma_trim_start_matches_absorbs_prefix(code, "ttlic_"@);
}

/// A secret of letters and digits does not start with a prefix ending in
/// an underscore, so stripping that prefix leaves it whole.
proof fn lemma_secret_not_prefixed(r: Seq<char>, prefix: Seq<char>, len: nat)
    requires
        spec_is_secret(r, len),
        prefix.len() > 0,
        prefix.last() == '_',
    ensures
        spec_trim_start_matches(r, prefix) == r,
{
    if crate::text::spec_starts_with(r, prefix) {
        let k = prefix.len() - 1;
        assert(r.subrange(0, prefix.len() as int)[k] == r[k]);
        assert(spec_is_ascii_alphanumeric(r[k]));
    }
}

/// A generated friend code is found again as typed: its stored form is itself.
pub proof fn lemma_generated_friend_code_accepted(code: Seq<char>)
    requires
        spec_is_prefixed_secret(code, "ttfc_"@, 24),
    ensures
        spec_normalize_friend_code(code) == code,
{
    reveal_strlit("ttfc_");
    let r = code.subrange(5, code.len() as int);
    assert(code =~= "ttfc_"@ + r);
    lemma_trim_start_matches_absorbs_prefix(r, "ttfc_"@);
    lemma_secret_not_prefixed(r, "ttfc_"@, 24);
}

/// A generated invite code is found again as typed: its stored form is itself.
pub proof fn lemma_generated_invite_code_accepted(code: Seq<char>)
    requires
        spec_is_prefixed_secret(code, "ttlic_"@, 32),
    ensures
        spec_normalize_invite_code(code) == code,
{
    reveal_strlit("ttlic_");
    let r = code.subrange(6, code.len() as int);
    assert(code =~= "ttlic_"@ + r);
    assert(!crate::text::spec_is_whitespace(r[0]));
    assert(!crate::text::spec_is_whitespace(r.last()));
    assert(crate::text::spec_trim_start(r) == r);
    assert(crate::text::spec_trim_end(r) == r);
    lemma_trim_of_prefixed(r);
    lemma_trim_start_matches_absorbs_prefix(r, "ttlic_"@);
    lemma_secret_not_prefixed(r, "ttlic_"@, 32);
}

/// Trimming leaves "ttlic_" + a trimmed code unchanged.
proof fn lemma_trim_of_prefixed(code: Seq<char>)
    requires
        spec_trim(code) == code,
    ensures
        spec_trim("ttlic_"@ + code) == "ttlic_"@ + code,
{
    reveal_strlit("ttlic_");
    let s = "ttlic_"@ + code;
    assert(!crate::text::spec_is_whitespace(s[0]));
    assert(crate::text::spec_trim_start(s) == s);
    if code.len() == 0 {
        assert(s.len() == 6);
        assert(!crate::text::spec_is_whitespace(s.last()));
    } else {
        lemma_trimmed_ends(code);
        assert(s.last() == code.last());
    }
    assert(crate::text::spec_trim_end(s) == s);
}

/// A non-empty text that trimming leaves unchanged neither starts nor ends
/// with whitespace.
proof fn lemma_trimmed_ends(code: Seq<char>)
    requires
        spec_trim(code) == code,
        code.len() > 0,
    ensures
        !crate::text::spec_is_whitespace(code[0]),
        !crate::text::spec_is_whitespace(code.last()),
{
    if crate::text::spec_is_whitespace(code[0]) {
        lemma_trim_start_len(code.drop_first());
        lemma_trim_end_len(crate::text::spec_trim_start(code));
        assert(false);
    }
    assert(crate::text::spec_trim_start(code) == code);
    if crate::text::spec_is_whitespace(code.last()) {
        lemma_trim_end_len(code.drop_last());
        assert(false);
    }
}

proof fn lemma_trim_start_len(s: Seq<char>)
    ensures
        crate::text::spec_trim_start(s).len() <= s.len(),
    decreases s.len(),
{
    if s.len() > 0 && crate::text::spec_is_whitespace(s[0]) {
        lemma_trim_start_len(s.drop_first());
    }
}

proof fn lemma_trim_end_len(s: Seq<char>)
    ensures
        crate::text::spec_trim_end(s).len() <= s.len(),
    decreases s.len(),
{
    if s.len() > 0 && crate::text::spec_is_whitespace(s.last()) {
        lemma_trim_end_len(s.drop_last());
    }
}

} // verus!
