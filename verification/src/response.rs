//! Bodies of the identity provider's answers, reduced to plain values
//! before the pipeline reads them.

use vstd::prelude::*;

verus! {

/// The token bundle the provider returns for an authorization code.
#[derive(Debug, Clone)]
pub struct TokenResponse {
    pub access_token: String,
    pub expires_in: u32,
    pub id_token: String,
    pub refresh_token: String,
    pub scope: String,
    pub token_type: String,
}

/// The provider's introspection answer. Only `active` feeds the decision
/// pipeline; the remaining fields are informational.
#[derive(Debug, Clone)]
pub struct ActiveResponse {
    pub active: bool,
    pub aud: Option<Vec<String>>,
    pub client_id: Option<String>,
    pub exp: Option<i32>,
    pub iat: Option<i32>,
    pub iss: Option<String>,
    pub jti: Option<String>,
    pub nbf: Option<i32>,
    pub scope: Option<String>,
    pub sub: Option<String>,
    pub token_type: Option<String>,
    pub username: Option<String>,
}

impl ActiveResponse {
    /// An answer that carries only the liveness flag.
    pub fn with_active(active: bool) -> (r: ActiveResponse)
        ensures
            r.active == active,
    {
        ActiveResponse {
            active,
            aud: None,
            client_id: None,
            exp: None,
            iat: None,
            iss: None,
            jti: None,
            nbf: None,
            scope: None,
            sub: None,
            token_type: None,
            username: None,
        }
    }
}

} // verus!
