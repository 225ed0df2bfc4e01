use wishlist::auth::{AuthToken, CredentialError};

#[test]
fn bearer_header_yields_rest_verbatim() {
    let t = AuthToken::try_from(Some("Bearer abc.def.ghi")).ok().unwrap();
    assert_eq!(t.0, "abc.def.ghi");
}

#[test]
fn bearer_header_keeps_inner_spaces_and_case() {
    let t = AuthToken::try_from(Some("Bearer  Tok En")).ok().unwrap();
    assert_eq!(t.0, " Tok En");
}

#[test]
fn bearer_prefix_alone_gives_empty_credential() {
    let t = AuthToken::try_from(Some("Bearer ")).ok().unwrap();
    assert_eq!(t.0, "");
}

#[test]
fn missing_header_is_missing_credential() {
    let r = AuthToken::try_from(None);
    assert!(matches!(r, Err(CredentialError::MissingCredential)));
}

#[test]
fn other_scheme_is_missing_credential() {
    assert!(matches!(AuthToken::try_from(Some("Basic dXNlcg==")), Err(CredentialError::MissingCredential)));
    assert!(matches!(AuthToken::try_from(Some("bearer abc")), Err(CredentialError::MissingCredential)));
    assert!(matches!(AuthToken::try_from(Some("Bearer")), Err(CredentialError::MissingCredential)));
    assert!(matches!(AuthToken::try_from(Some("")), Err(CredentialError::MissingCredential)));
}

#[test]
fn non_ascii_credential_is_kept() {
    let t = AuthToken::try_from(Some("Bearer ключ✓")).ok().unwrap();
    assert_eq!(t.0, "ключ✓");
}

#[test]
fn token_text_form() {
    let t = AuthToken("xyz".to_string());
    assert_eq!(t.fmt(), "AuthToken:xyz");
}
