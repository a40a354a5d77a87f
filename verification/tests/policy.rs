use forward_auth::entity::CasdoorUser;
use forward_auth::pipeline::{decide, start_request, StartStep};
use forward_auth::policy::{EmbeddedPolicy, PolicyModel, PolicyRule};
use forward_auth::response::ActiveResponse;
use forward_auth::verdict::Verdict;

fn grant(v0: &str, v1: &str, v2: &str) -> PolicyRule {
    PolicyRule::grant(v0.to_string(), v1.to_string(), v2.to_string())
}

fn group(v0: &str, v1: &str) -> PolicyRule {
    PolicyRule::group(v0.to_string(), v1.to_string())
}

#[test]
fn exact_match_permits_and_everything_else_is_refused() {
    let p = EmbeddedPolicy::new(
        PolicyModel { has_role_definition: false },
        vec![grant("acme/alice", "/orders", "get")],
    );
    assert!(p.enforce("acme/alice", "/orders", "get"));
    assert!(!p.enforce("acme/alice", "/admin", "post"));
    assert!(!p.enforce("acme/bob", "/orders", "get"));
    assert!(!p.enforce("acme/alice", "/orders", "post"));
}

#[test]
fn role_membership_grants_through_the_hierarchy() {
    let p = EmbeddedPolicy::new(
        PolicyModel { has_role_definition: true },
        vec![
            group("acme/alice", "admin"),
            grant("admin", "/admin", "post"),
        ],
    );
    assert!(p.enforce("acme/alice", "/admin", "post"));
    assert!(!p.enforce("acme/bob", "/admin", "post"));
}

#[test]
fn role_hierarchy_is_ignored_when_the_model_declares_none() {
    let p = EmbeddedPolicy::new(
        PolicyModel { has_role_definition: false },
        vec![
            group("acme/alice", "admin"),
            grant("admin", "/admin", "post"),
        ],
    );
    assert!(!p.enforce("acme/alice", "/admin", "post"));
}

#[test]
fn role_expansion_is_transitive() {
    let p = EmbeddedPolicy::new(
        PolicyModel { has_role_definition: true },
        vec![
            group("acme/alice", "staff"),
            group("staff", "admin"),
            grant("admin", "/admin", "post"),
        ],
    );
    assert!(p.enforce("acme/alice", "/admin", "post"));
}

#[test]
fn cyclic_grouping_rules_terminate_and_grant_nothing_extra() {
    let p = EmbeddedPolicy::new(
        PolicyModel { has_role_definition: true },
        vec![
            group("a", "b"),
            group("b", "a"),
            grant("c", "/x", "get"),
        ],
    );
    assert!(!p.enforce("a", "/x", "get"));
    assert!(p.enforce("c", "/x", "get"));
}

#[test]
fn grouping_rules_alone_never_grant() {
    let p = EmbeddedPolicy::new(
        PolicyModel { has_role_definition: true },
        vec![group("acme/alice", "/orders")],
    );
    assert!(!p.enforce("acme/alice", "/orders", "get"));
}

#[test]
fn empty_rule_store_refuses_everything() {
    let p = EmbeddedPolicy::new(PolicyModel { has_role_definition: true }, vec![]);
    assert!(!p.enforce("acme/alice", "/orders", "get"));
}

#[test]
fn pipeline_with_the_embedded_strategy_decides_end_to_end() {
    let p = EmbeddedPolicy::new(
        PolicyModel { has_role_definition: false },
        vec![grant("acme/alice", "/orders", "get")],
    );
    let user = CasdoorUser::new("acme".to_string(), "alice".to_string());
    let (object, action) = match start_request(Some("tok".to_string()), "GET", "/orders?page=1") {
        StartStep::Introspect { object, action, .. } => (object, action),
        _ => panic!("expected introspection step"),
    };
    let permitted = p.enforce(&user.subject(), &object, &action);
    let run = decide(
        Some("tok".to_string()),
        "GET",
        "/orders?page=1",
        Some(ActiveResponse::with_active(true)),
        Some(user),
        Ok(permitted),
    );
    match run.verdict {
        Verdict::Allow { remote_user } => assert_eq!(remote_user.as_deref(), Some("acme/alice")),
        other => panic!("expected Allow, got {:?}", other),
    }

    let denied = p.enforce("acme/alice", "/admin", "post");
    let run = decide(
        Some("tok".to_string()),
        "POST",
        "/admin",
        Some(ActiveResponse::with_active(true)),
        Some(CasdoorUser::new("acme".to_string(), "alice".to_string())),
        Ok(denied),
    );
    assert!(matches!(run.verdict, Verdict::Deny));
}
