use testaustime::tokens::{
    bearer_token, generate_auth_token, generate_friend_code, generate_invite_code,
    generate_password_reset_token,
    generate_token, normalize_friend_code, normalize_invite_code, random_alphanumeric,
};

fn is_secret(s: &str, len: usize) -> bool {
    s.len() == len && s.chars().all(|c| c.is_ascii_alphanumeric())
}

#[test]
fn generated_secrets_have_their_lengths() {
    assert!(is_secret(&generate_auth_token(), 32));
    let code = generate_friend_code();
    assert!(code.starts_with("ttfc_"));
    assert!(is_secret(&code[5..], 24));
    let invite = generate_invite_code();
    assert!(invite.starts_with("ttlic_"));
    assert!(is_secret(&invite[6..], 32));
    assert!(is_secret(&generate_password_reset_token(), 48));
    assert!(is_secret(&generate_token(), 32));
    assert!(is_secret(&random_alphanumeric(0), 0));
    assert!(is_secret(&random_alphanumeric(100), 100));
}

#[test]
fn generated_secrets_differ() {
    assert_ne!(generate_auth_token(), generate_auth_token());
    assert_ne!(generate_friend_code(), generate_friend_code());
}

#[test]
fn friend_codes_with_or_without_prefix() {
    assert_eq!(normalize_friend_code("ttfc_abc123"), "ttfc_abc123");
    assert_eq!(normalize_friend_code("abc123"), "ttfc_abc123");
    assert_eq!(normalize_friend_code("ttfc_ttfc_abc"), "ttfc_abc");
    assert_eq!(normalize_friend_code(""), "ttfc_");
    let code = generate_friend_code();
    assert_eq!(normalize_friend_code(&code), code);
}

#[test]
fn invite_codes_trimmed_and_unprefixed() {
    assert_eq!(normalize_invite_code("  ttlic_xyz \n"), "ttlic_xyz");
    assert_eq!(normalize_invite_code("xyz"), "ttlic_xyz");
    assert_eq!(normalize_invite_code("ttlic_"), "ttlic_");
    let invite = generate_invite_code();
    assert_eq!(normalize_invite_code(&format!(" {} ", invite)), invite);
}

#[test]
fn bearer_tokens() {
    assert_eq!(bearer_token("Bearer abc"), Some("abc".to_string()));
    assert_eq!(bearer_token("  Bearer abc  "), Some("abc".to_string()));
    assert_eq!(bearer_token("Basic abc"), None);
    assert_eq!(bearer_token("Bearer"), None);
    assert_eq!(bearer_token("bearer abc"), None);
}
