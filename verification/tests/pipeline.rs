use forward_auth::entity::CasdoorUser;
use forward_auth::pipeline::{decide, start_request, StartStep};
use forward_auth::response::ActiveResponse;
use forward_auth::verdict::{ErrorKind, Verdict};

fn user(owner: &str, name: &str) -> CasdoorUser {
    CasdoorUser::new(owner.to_string(), name.to_string())
}

fn remote_user_of(v: &Verdict) -> Option<String> {
    match v {
        Verdict::Allow { remote_user } => remote_user.clone(),
        _ => None,
    }
}

#[test]
fn active_token_permitted_is_allowed_with_identity_header() {
    let run = decide(
        Some("tok".to_string()),
        "GET",
        "/orders",
        Some(ActiveResponse::with_active(true)),
        Some(user("acme", "alice")),
        Ok(true),
    );
    assert!(matches!(run.verdict, Verdict::Allow { .. }));
    assert_eq!(remote_user_of(&run.verdict), Some("acme/alice".to_string()));
    assert_eq!(run.verdict.status(), 200);
    assert!(run.introspection_called);
    assert!(run.enforcement_called);
}

#[test]
fn active_token_refused_by_policy_is_denied_without_identity_header() {
    let run = decide(
        Some("tok".to_string()),
        "POST",
        "/admin",
        Some(ActiveResponse::with_active(true)),
        Some(user("acme", "alice")),
        Ok(false),
    );
    assert!(matches!(run.verdict, Verdict::Deny));
    assert_eq!(remote_user_of(&run.verdict), None);
    assert_eq!(run.verdict.status(), 403);
}

#[test]
fn inactive_token_fails_authentication_and_skips_enforcement() {
    let run = decide(
        Some("tok".to_string()),
        "GET",
        "/orders",
        Some(ActiveResponse::with_active(false)),
        Some(user("acme", "alice")),
        Ok(true),
    );
    assert!(matches!(run.verdict, Verdict::Unauthenticated));
    assert_eq!(run.verdict.status(), 401);
    assert!(run.introspection_called);
    assert!(!run.enforcement_called);
}

#[test]
fn missing_token_is_rejected_without_any_upstream_call() {
    let run = decide(
        None,
        "GET",
        "/orders",
        Some(ActiveResponse::with_active(true)),
        Some(user("acme", "alice")),
        Ok(true),
    );
    assert!(matches!(
        run.verdict,
        Verdict::Rejected(ErrorKind::MissingToken)
    ));
    assert_eq!(run.verdict.status(), 502);
    assert!(!run.introspection_called);
    assert!(!run.enforcement_called);
}

#[test]
fn introspection_timeout_is_upstream_unavailable_and_skips_enforcement() {
    let run = decide(
        Some("tok".to_string()),
        "GET",
        "/orders",
        None,
        Some(user("acme", "alice")),
        Ok(true),
    );
    assert!(matches!(
        run.verdict,
        Verdict::Rejected(ErrorKind::UpstreamUnavailable)
    ));
    assert_eq!(run.verdict.status(), 502);
    assert!(run.introspection_called);
    assert!(!run.enforcement_called);
}

#[test]
fn preflight_is_allowed_without_consulting_any_upstream() {
    let run = decide(None, "OPTIONS", "/orders", None, None, Ok(false));
    match &run.verdict {
        Verdict::Allow { remote_user } => assert!(remote_user.is_none()),
        other => panic!("expected Allow, got {:?}", other),
    }
    assert_eq!(run.verdict.status(), 200);
    assert!(!run.introspection_called);
    assert!(!run.enforcement_called);
}

#[test]
fn failed_verification_after_active_introspection_is_invalid_token() {
    let run = decide(
        Some("tok".to_string()),
        "GET",
        "/orders",
        Some(ActiveResponse::with_active(true)),
        None,
        Ok(true),
    );
    assert!(matches!(
        run.verdict,
        Verdict::Rejected(ErrorKind::InvalidToken)
    ));
    assert_eq!(run.verdict.status(), 502);
    assert!(!matches!(run.verdict, Verdict::Allow { .. }));
}

#[test]
fn strategy_failure_is_reported_as_its_own_error() {
    let run = decide(
        Some("tok".to_string()),
        "GET",
        "/orders",
        Some(ActiveResponse::with_active(true)),
        Some(user("acme", "alice")),
        Err(ErrorKind::EnforceFailed),
    );
    assert!(matches!(
        run.verdict,
        Verdict::Rejected(ErrorKind::EnforceFailed)
    ));
    assert_eq!(run.verdict.status(), 502);

    let build_failed = decide(
        Some("tok".to_string()),
        "GET",
        "/orders",
        Some(ActiveResponse::with_active(true)),
        Some(user("acme", "alice")),
        Err(ErrorKind::EnforcerBuildFailed),
    );
    assert!(matches!(
        build_failed.verdict,
        Verdict::Rejected(ErrorKind::EnforcerBuildFailed)
    ));
    assert_eq!(build_failed.verdict.status(), 502);
}

#[test]
fn identical_requests_with_fixed_upstream_outcomes_get_identical_verdicts() {
    let one = decide(
        Some("tok".to_string()),
        "GET",
        "/orders?page=2",
        Some(ActiveResponse::with_active(true)),
        Some(user("acme", "alice")),
        Ok(true),
    );
    let two = decide(
        Some("tok".to_string()),
        "GET",
        "/orders?page=2",
        Some(ActiveResponse::with_active(true)),
        Some(user("acme", "alice")),
        Ok(true),
    );
    assert_eq!(one.verdict.status(), two.verdict.status());
    assert_eq!(remote_user_of(&one.verdict), remote_user_of(&two.verdict));
    assert_eq!(one.introspection_called, two.introspection_called);
    assert_eq!(one.enforcement_called, two.enforcement_called);
}

#[test]
fn object_handed_to_enforcement_ignores_the_query_string() {
    let with_query = start_request(Some("tok".to_string()), "GET", "/a/b?x=1&y=2");
    let without = start_request(Some("tok".to_string()), "GET", "/a/b");
    let obj_with = match with_query {
        StartStep::Introspect { object, .. } => object,
        _ => panic!("expected introspection step"),
    };
    let obj_without = match without {
        StartStep::Introspect { object, .. } => object,
        _ => panic!("expected introspection step"),
    };
    assert_eq!(obj_with, "/a/b");
    assert_eq!(obj_with, obj_without);
}

#[test]
fn action_handed_to_enforcement_is_the_lower_cased_method() {
    let step = start_request(Some("tok".to_string()), "DELETE", "/a");
    match step {
        StartStep::Introspect { action, .. } => assert_eq!(action, "delete"),
        _ => panic!("expected introspection step"),
    }
}
