use forward_auth::entity::{normalize_cert_key, CasdoorUser, Config};
use forward_auth::normalize::strip_query_string;
use forward_auth::text::{str_eq, to_lowercase_ascii};

#[test]
fn query_string_is_stripped_from_the_object() {
    assert_eq!(strip_query_string("/a/b?x=1&y=2"), "/a/b");
    assert_eq!(strip_query_string("/a/b"), "/a/b");
    assert_eq!(strip_query_string("/a/b?"), "/a/b");
    assert_eq!(strip_query_string("?x=1"), "");
    assert_eq!(strip_query_string(""), "");
    assert_eq!(strip_query_string("/a?x=1?y=2"), "/a");
}

#[test]
fn methods_are_lower_cased() {
    assert_eq!(to_lowercase_ascii("GET"), "get");
    assert_eq!(to_lowercase_ascii("Post"), "post");
    assert_eq!(to_lowercase_ascii("delete"), "delete");
    assert_eq!(to_lowercase_ascii("X-123"), "x-123");
    assert_eq!(to_lowercase_ascii(""), "");
}

#[test]
fn string_equality_is_by_characters() {
    assert!(str_eq("abc", "abc"));
    assert!(!str_eq("abc", "abd"));
    assert!(!str_eq("abc", "ab"));
    assert!(str_eq("", ""));
}

#[test]
fn certificate_markers_become_public_key_markers() {
    let cert = "-----BEGIN CERTIFICATE-----\nMIIB\n-----END CERTIFICATE-----";
    let key = normalize_cert_key(cert);
    assert_eq!(key, "-----BEGIN PUBLIC KEY-----\nMIIB\n-----END PUBLIC KEY-----");
}

#[test]
fn text_without_the_marker_is_unchanged() {
    assert_eq!(normalize_cert_key("no marker here"), "no marker here");
    assert_eq!(normalize_cert_key("CERTIFIC"), "CERTIFIC");
    assert_eq!(normalize_cert_key(""), "");
}

#[test]
fn config_normalization_rewrites_only_the_key() {
    let conf = Config {
        address: "0.0.0.0".to_string(),
        port: 8080,
        endpoint: "http://provider".to_string(),
        client_id: "id".to_string(),
        client_secret: "secret".to_string(),
        jwt_pub_key: "-----BEGIN CERTIFICATE-----".to_string(),
        org_name: "acme".to_string(),
        app_name: None,
        permission_name: "door".to_string(),
    };
    let conf = conf.with_public_key();
    assert_eq!(conf.jwt_pub_key, "-----BEGIN PUBLIC KEY-----");
    assert_eq!(conf.endpoint, "http://provider");
    assert_eq!(conf.port, 8080);
}

#[test]
fn subject_is_owner_slash_name() {
    let u = CasdoorUser::new("acme".to_string(), "alice".to_string());
    assert_eq!(u.subject(), "acme/alice");
}
