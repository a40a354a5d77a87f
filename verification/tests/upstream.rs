use forward_auth::enforce::{bearer_header_value, parse_enforce_reply, remote_decision_request};
use forward_auth::upstream::{enforce_url, introspect_url, login_token_url};
use forward_auth::verdict::ErrorKind;

#[test]
fn login_token_request_line_is_exact() {
    let url = login_token_url("http://p", "cid", "cs", "thecode");
    assert_eq!(
        url,
        "http://p/api/login/oauth/access_token?grant_type=authorization_code&client_id=cid&client_secret=cs&code=thecode"
    );
}

#[test]
fn introspection_request_line_is_exact() {
    let url = introspect_url("http://p", "tok", "cid", "cs");
    assert_eq!(
        url,
        "http://p/api/login/oauth/introspect?token=tok&token_type_hint=access_token&client_id=cid&client_secret=cs"
    );
}

#[test]
fn enforcement_endpoint_is_exact() {
    assert_eq!(enforce_url("http://p"), "http://p/api/enforce");
}

#[test]
fn remote_request_scopes_by_org_and_permission_resource() {
    let r = remote_decision_request("acme", "door", "/a/b".to_string(), "get".to_string());
    assert_eq!(r.id, "acme/door");
    assert_eq!(r.v1, "/a/b");
    assert_eq!(r.v2, "get");
}

#[test]
fn bearer_credential_forwards_the_token() {
    assert_eq!(bearer_header_value("tok"), "Bearer tok");
}

#[test]
fn enforcement_reply_is_a_literal_boolean() {
    assert_eq!(parse_enforce_reply(Some(&"true".to_string())), Ok(true));
    assert_eq!(parse_enforce_reply(Some(&"false".to_string())), Ok(false));
    assert_eq!(
        parse_enforce_reply(Some(&"yes".to_string())),
        Err(ErrorKind::UpstreamUnavailable)
    );
    assert_eq!(
        parse_enforce_reply(Some(&"True".to_string())),
        Err(ErrorKind::UpstreamUnavailable)
    );
    assert_eq!(parse_enforce_reply(None), Err(ErrorKind::UpstreamUnavailable));
}
