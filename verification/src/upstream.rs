//! The exact request lines of the identity provider's interface: the
//! token-exchange, introspection and remote-enforcement endpoints.

use vstd::prelude::*;

verus! {

/// The token-exchange request for an authorization code, with the
/// service's own client credentials.
pub fn login_token_url(endpoint: &str, client_id: &str, client_secret: &str, code: &str) -> (r:
    String)
    ensures
        r@ == endpoint@ + "/api/login/oauth/access_token?grant_type=authorization_code&client_id="@
            + client_id@ + "&client_secret="@ + client_secret@ + "&code="@ + code@,
{
    let mut s = endpoint.to_owned();
    s.append("/api/login/oauth/access_token?grant_type=authorization_code&client_id=");
    s.append(client_id);
    s.append("&client_secret=");
    s.append(client_secret);
    s.append("&code=");
    s.append(code);
    s
}

/// The introspection request for a token, with the fixed access-token hint
/// and the service's own client credentials.
pub fn introspect_url(endpoint: &str, token: &str, client_id: &str, client_secret: &str) -> (r:
    String)
    ensures
        r@ == endpoint@ + "/api/login/oauth/introspect?token="@ + token@
            + "&token_type_hint=access_token&client_id="@ + client_id@ + "&client_secret="@
            + client_secret@,
{
    let mut s = endpoint.to_owned();
    s.append("/api/login/oauth/introspect?token=");
    s.append(token);
    s.append("&token_type_hint=access_token&client_id=");
    s.append(client_id);
    s.append("&client_secret=");
    s.append(client_secret);
    s
}

/// The remote enforcement endpoint.
pub fn enforce_url(endpoint: &str) -> (r: String)
    ensures
        r@ == endpoint@ + "/api/enforce"@,
{
    let mut s = endpoint.to_owned();
    s.append("/api/enforce");
    s
}

} // verus!
