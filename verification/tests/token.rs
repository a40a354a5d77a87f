use forward_auth::entity::CasdoorUser;
use forward_auth::response::TokenResponse;
use forward_auth::token::{
    parse_jwt_token, strip_bearer, validate_login_token, ExchangeOutcome, LoginVerdict,
};

const TEST_PUB_KEY: &str = "-----BEGIN PUBLIC KEY-----\nMFwwDQYJKoZIhvcNAQEBBQADSwAwSAJBAKj34GkxFhD90vcNLYLInFEX6Ppy1tPf\n9Cnzj4p4WGeKLs1Pt8QuKUpRKfFLfRYC9AIKjbJTWit+CqvjWYzvQwECAwEAAQ==\n-----END PUBLIC KEY-----";

fn bundle(token: &str) -> TokenResponse {
    TokenResponse {
        access_token: token.to_string(),
        expires_in: 3600,
        id_token: String::new(),
        refresh_token: String::new(),
        scope: "read".to_string(),
        token_type: "Bearer".to_string(),
    }
}

#[test]
fn malformed_token_does_not_verify() {
    assert!(parse_jwt_token("not-a-jwt", TEST_PUB_KEY).is_none());
    assert!(parse_jwt_token("", TEST_PUB_KEY).is_none());
    assert!(parse_jwt_token("a.b.c", TEST_PUB_KEY).is_none());
}

#[test]
fn token_with_a_broken_key_does_not_verify() {
    assert!(parse_jwt_token("a.b.c", "not a key").is_none());
}

#[test]
fn bearer_prefix_is_stripped_and_anything_else_is_kept() {
    assert_eq!(strip_bearer("Bearer abc.def.ghi"), "abc.def.ghi");
    assert_eq!(strip_bearer("Bearer "), "");
    assert_eq!(strip_bearer("Bearer"), "Bearer");
    assert_eq!(strip_bearer("abc.def.ghi"), "abc.def.ghi");
    assert_eq!(strip_bearer("bearer abc"), "bearer abc");
    assert_eq!(strip_bearer(""), "");
    assert_eq!(strip_bearer("Bearer Bearer x"), "Bearer x");
}

#[test]
fn failed_transport_during_the_exchange_is_the_upstream_failure() {
    let v = validate_login_token(ExchangeOutcome::TransportFailed, None);
    assert!(matches!(v, LoginVerdict::UpstreamFailed));
    assert_eq!(v.status(), 502);
}

#[test]
fn unreadable_bundle_is_the_default_rejection() {
    let v = validate_login_token(ExchangeOutcome::Unreadable, None);
    assert!(matches!(v, LoginVerdict::Rejected));
    assert_eq!(v.status(), 403);
}

#[test]
fn unverified_token_is_never_answered() {
    let v = validate_login_token(ExchangeOutcome::Bundle(bundle("a.b.c")), None);
    assert!(matches!(v, LoginVerdict::Rejected));
    assert_eq!(v.status(), 403);
}

#[test]
fn verified_token_is_answered_exactly() {
    let user = CasdoorUser::new("acme".to_string(), "alice".to_string());
    let v = validate_login_token(ExchangeOutcome::Bundle(bundle("a.b.c")), Some(&user));
    match v {
        LoginVerdict::Token(ref token) => assert_eq!(token, "a.b.c"),
        ref other => panic!("expected Token, got {:?}", other),
    }
    assert_eq!(v.status(), 200);
}
