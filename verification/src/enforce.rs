//! The remote enforcement strategy: the fixed-shape decision request it
//! sends, the bearer credential it forwards, and the parsing of the
//! verdict that comes back.

use vstd::prelude::*;
use crate::text::{push_char, str_eq};
use crate::verdict::ErrorKind;

verus! {

/// The decision request the remote strategy posts: `id` names the policy
/// resource `org/permission` on the remote side to evaluate against, `v1`
/// is the normalized object and `v2` the lower-cased action. The caller's
/// own subject does not appear; the forwarded bearer token authenticates
/// the call instead.
#[derive(Debug, Clone)]
pub struct RemoteDecisionRequest {
    pub id: String,
    pub v1: String,
    pub v2: String,
}

/// Build the remote decision request from the configured organization and
/// permission resource and the normalized request.
pub fn remote_decision_request(
    org_name: &str,
    permission_name: &str,
    object: String,
    action: String,
) -> (r: RemoteDecisionRequest)
    ensures
        r.id@ == org_name@ + seq!['/'] + permission_name@,
        r.v1@ == object@,
        r.v2@ == action@,
{
    let mut id = org_name.to_owned();
    push_char(&mut id, '/');
    id.append(permission_name);
    RemoteDecisionRequest { id, v1: object, v2: action }
}

/// The authorization header value that forwards the caller's token as the
/// remote call's credential.
pub fn bearer_header_value(token: &str) -> (r: String)
    ensures
        r@ == "Bearer "@ + token@,
{
    let mut s = "Bearer ".to_owned();
    s.append(token);
    s
}

/// Parse the remote enforcer's answer. The literal texts `true` and
/// `false` are the only verdicts; any other body — like a call that never
/// answered, passed as `None` — is upstream-unavailable.
pub fn parse_enforce_reply(body: Option<&String>) -> (r: Result<bool, ErrorKind>)
    ensures
        body is None ==> r == Err::<bool, ErrorKind>(ErrorKind::UpstreamUnavailable),
        body matches Some(s) ==> r == (if s@ == "true"@ {
            Ok::<bool, ErrorKind>(true)
        } else if s@ == "false"@ {
            Ok::<bool, ErrorKind>(false)
        } else {
            Err::<bool, ErrorKind>(ErrorKind::UpstreamUnavailable)
        }),
{
    match body {
        None => Err(ErrorKind::UpstreamUnavailable),
        Some(s) => {
            if str_eq(s.as_str(), "true") {
                Ok(true)
            } else if str_eq(s.as_str(), "false") {
                Ok(false)
            } else {
                Err(ErrorKind::UpstreamUnavailable)
            }
        },
    }
}

} // verus!
