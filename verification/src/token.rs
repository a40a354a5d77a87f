//! The identity verifier: offline validation of a bearer token against the
//! configured public key, the bearer-scheme prefix handling, and the login
//! flow's final token check.

use vstd::prelude::*;
use crate::entity::{informational_empty, CasdoorUser};
use crate::response::TokenResponse;

verus! {

broadcast use vstd::string::group_string_axioms;

/// The `owner` and `name` claims a token carries in its payload. They are
/// read from the token's own text, so they are a function of the token
/// alone; whether verification succeeds is a separate question.
pub uninterp spec fn claims_of(token: Seq<char>) -> (Seq<char>, Seq<char>);

/// Relies on `jsonwebtoken::decode` with a key from
/// `DecodingKey::from_rsa_pem` and `Validation::new(Algorithm::RS256)`: it
/// verifies the token's signature and expiry against the configured public
/// key and returns the `owner` and `name` claims, or `None` on any
/// mismatch. On success the two claims are deserialized from the token's
/// own payload segment, so they are `claims_of` the token; success itself
/// also depends on the process clock (expiry is part of validation), so it
/// is not promised.
#[verifier::external_body]
fn decode_rs256_claims(token: &str, jwt_pub_key: &str) -> (r: Option<(String, String)>)
    ensures
        r matches Some(p) ==> p.0@ == claims_of(token@).0 && p.1@ == claims_of(token@).1,
{
    let key = jsonwebtoken::DecodingKey::from_rsa_pem(jwt_pub_key.as_bytes()).ok()?;
    let validation = jsonwebtoken::Validation::new(jsonwebtoken::Algorithm::RS256);
    let data = jsonwebtoken::decode::<serde_json::Value>(token, &key, &validation).ok()?;
    let owner = data.claims.get("owner").and_then(serde_json::Value::as_str)?.to_owned();
    let name = data.claims.get("name").and_then(serde_json::Value::as_str)?.to_owned();
    Some((owner, name))
}

/// Decode and verify a bearer token into its identity claim set: a pure
/// function of the token and the configured key, with no network call. Any
/// failure of the signature, algorithm or expiry checks yields `None`; a
/// verified token yields the claim set carrying its own `owner` and `name`
/// claims, with every informational field left empty.
pub fn parse_jwt_token(token: &str, jwt_pub_key: &str) -> (r: Option<CasdoorUser>)
    ensures
        r matches Some(u) ==> u.owner@ == claims_of(token@).0 && u.name@ == claims_of(token@).1
            && informational_empty(u),
{
    match decode_rs256_claims(token, jwt_pub_key) {
        Some((owner, name)) => Some(CasdoorUser::new(owner, name)),
        None => None,
    }
}

/// Whether an authorization header value opens with the bearer scheme
/// prefix.
pub open spec fn has_bearer_prefix(h: Seq<char>) -> bool {
    h.len() >= 7 && h.take(7) == "Bearer "@
}

/// The bare token of an authorization header value: the text after the
/// bearer scheme prefix, or the whole value when no prefix is present.
pub open spec fn bearer_token(h: Seq<char>) -> Seq<char> {
    if has_bearer_prefix(h) {
        h.skip(7)
    } else {
        h
    }
}

/// Strip the bearer scheme prefix from an authorization header value, so
/// the pipeline and the upstream calls see the bare token.
pub fn strip_bearer(header: &str) -> (r: String)
    ensures
        r@ == bearer_token(header@),
{
    proof {
        reveal_strlit("Bearer ");
    }
    let n = header.unicode_len();
    if n < 7 {
        return header.to_owned();
    }
    let marker = "Bearer ";
    let mut k: usize = 0;
    while k < 7
        invariant
            k <= 7,
            7 <= n,
            n == header@.len(),
            marker@ == "Bearer "@,
            marker@.len() == 7,
            forall|j: int| 0 <= j < k ==> header@[j] == marker@[j],
        decreases 7 - k,
    {
        if header.get_char(k) != marker.get_char(k) {
            assert(header@.take(7)[k as int] != "Bearer "@[k as int]);
            return header.to_owned();
        }
        k += 1;
    }
    proof {
        assert(header@.take(7) =~= "Bearer "@);
    }
    let rest = header.substring_char(7, n);
    proof {
        assert(header@.subrange(7, n as int) =~= header@.skip(7));
    }
    rest.to_owned()
}

/// The token-exchange outcome as the login flow reads it.
#[derive(Debug)]
pub enum ExchangeOutcome {
    /// The provider answered with a token bundle.
    Bundle(TokenResponse),
    /// The call failed in transport, or timed out.
    TransportFailed,
    /// The call answered, but the bundle was unreadable.
    Unreadable,
}

/// Outcome of the login flow, translated by the caller into its response.
#[derive(Debug)]
pub enum LoginVerdict {
    /// The validated access token, answered as the login body.
    Token(String),
    /// The exchange could not be made: the gateway-broke status.
    UpstreamFailed,
    /// The default rejection: an unreadable bundle, or a token that does
    /// not verify.
    Rejected,
}

impl LoginVerdict {
    /// The fixed HTTP status of each login outcome.
    pub fn status(&self) -> (s: u16)
        ensures
            self is Token ==> s == 200,
            self is UpstreamFailed ==> s == 502,
            self is Rejected ==> s == 403,
    {
        match self {
            LoginVerdict::Token(_) => 200,
            LoginVerdict::UpstreamFailed => 502,
            LoginVerdict::Rejected => 403,
        }
    }
}

/// The login flow's final step, over the exchange outcome and the
/// verification outcome of the bundle's access token: the token is
/// answered if and only if the exchange yielded a bundle and that token
/// verified; a failed transport is the upstream failure, and every other
/// failure is the default rejection.
pub fn validate_login_token(exchange: ExchangeOutcome, verification: Option<&CasdoorUser>) -> (r:
    LoginVerdict)
    ensures
        exchange is TransportFailed ==> r is UpstreamFailed,
        exchange is Unreadable ==> r is Rejected,
        exchange matches ExchangeOutcome::Bundle(b) ==> match verification {
            Some(_) => r matches LoginVerdict::Token(t) && t@ == b.access_token@,
            None => r is Rejected,
        },
{
    match exchange {
        ExchangeOutcome::Bundle(b) => match verification {
            Some(_) => LoginVerdict::Token(b.access_token),
            None => LoginVerdict::Rejected,
        },
        ExchangeOutcome::TransportFailed => LoginVerdict::UpstreamFailed,
        ExchangeOutcome::Unreadable => LoginVerdict::Rejected,
    }
}

} // verus!
