use testaustime::secured_access::{
    SecuredAccessError, SecuredAccessTokenInstance, SecuredAccessTokenStorage, TOKEN_LIFETIME_NS,
};

#[test]
fn issued_token_names_its_user_for_an_hour() {
    let mut s = SecuredAccessTokenStorage::new();
    let token = s.create_token(5, 1_000);
    assert_eq!(token.len(), 32);
    assert!(token.chars().all(|c| c.is_ascii_alphanumeric()));
    let expected = SecuredAccessTokenInstance { user_id: 5, expires: 1_000 + TOKEN_LIFETIME_NS };
    assert_eq!(s.get(&token, 1_000), Ok(expected));
    assert_eq!(s.get(&token, 1_000 + TOKEN_LIFETIME_NS), Ok(expected));
}

#[test]
fn expired_token_reported_then_forgotten() {
    let mut s = SecuredAccessTokenStorage::new();
    s.issue("tok".to_string(), 1, 0);
    assert_eq!(s.get(&"tok".to_string(), TOKEN_LIFETIME_NS + 1), Err(SecuredAccessError::ExpiredToken));
    assert_eq!(s.get(&"tok".to_string(), TOKEN_LIFETIME_NS + 1), Err(SecuredAccessError::InvalidToken));
}

#[test]
fn unknown_token_invalid() {
    let mut s = SecuredAccessTokenStorage::new();
    assert_eq!(s.get(&"nothing".to_string(), 0), Err(SecuredAccessError::InvalidToken));
}

#[test]
fn issuing_drops_expired_tokens() {
    let mut s = SecuredAccessTokenStorage::new();
    s.issue("old".to_string(), 1, 0);
    s.issue("new".to_string(), 2, TOKEN_LIFETIME_NS + 5);
    assert_eq!(s.inner.len(), 1);
    assert_eq!(s.get(&"old".to_string(), TOKEN_LIFETIME_NS + 5), Err(SecuredAccessError::InvalidToken));
    assert_eq!(s.get(&"new".to_string(), TOKEN_LIFETIME_NS + 5).map(|t| t.user_id), Ok(2));
}

#[test]
fn reissuing_a_token_replaces_it() {
    let mut s = SecuredAccessTokenStorage::new();
    s.issue("t".to_string(), 1, 0);
    s.issue("t".to_string(), 9, 100);
    assert_eq!(s.inner.len(), 1);
    assert_eq!(
        s.get(&"t".to_string(), 200),
        Ok(SecuredAccessTokenInstance { user_id: 9, expires: 100 + TOKEN_LIFETIME_NS })
    );
}

#[test]
fn tokens_issued_late_on_the_clock() {
    let mut s = SecuredAccessTokenStorage::new();
    let now = u64::MAX - TOKEN_LIFETIME_NS;
    s.issue("late".to_string(), 4, now);
    assert_eq!(s.get(&"late".to_string(), u64::MAX).map(|t| t.user_id), Ok(4));
}
