//! Verdict and error taxonomy of the decision pipeline, and the translation
//! of every outcome into the fixed HTTP status the calling proxy sees.

use vstd::prelude::*;

verus! {

/// The internal failures the pipeline can end with. Every one of them is
/// translated to the same gateway-broke status, distinguishable from the
/// verdict statuses for denial and failed authentication.
#[derive(Clone, Copy, Debug, PartialEq, Eq, Structural)]
pub enum ErrorKind {
    /// No bearer token accompanied a non-preflight request.
    MissingToken,
    /// The token's signature, algorithm or claims are malformed.
    InvalidToken,
    /// The embedded policy evaluator could not be constructed.
    EnforcerBuildFailed,
    /// The embedded policy evaluator failed while evaluating.
    EnforceFailed,
    /// An upstream call failed in transport or returned an unreadable body.
    UpstreamUnavailable,
}

/// Outcome of the decision pipeline for one inbound request. `Allow` carries
/// the identity-header value when the request was authenticated (a preflight
/// request is allowed without one); `Deny` and `Unauthenticated` are expected
/// business outcomes, not errors.
#[derive(Debug)]
pub enum Verdict {
    Allow { remote_user: Option<String> },
    Deny,
    Unauthenticated,
    Rejected(ErrorKind),
}

/// The ghost view of a verdict, with the identity header as a character
/// sequence.
pub enum SpecVerdict {
    Allow(Option<Seq<char>>),
    Deny,
    Unauthenticated,
    Rejected(ErrorKind),
}

impl View for Verdict {
    type V = SpecVerdict;

    open spec fn view(&self) -> SpecVerdict {
        match self {
            Verdict::Allow { remote_user } => SpecVerdict::Allow(
                match remote_user {
                    Some(s) => Some(s@),
                    None => None,
                },
            ),
            Verdict::Deny => SpecVerdict::Deny,
            Verdict::Unauthenticated => SpecVerdict::Unauthenticated,
            Verdict::Rejected(k) => SpecVerdict::Rejected(*k),
        }
    }
}

/// The fixed HTTP status for each outcome: success 200, failed
/// authentication 401, policy denial 403, and any internal failure 502.
pub open spec fn spec_status(v: SpecVerdict) -> u16 {
    match v {
        SpecVerdict::Allow(_) => 200,
        SpecVerdict::Unauthenticated => 401,
        SpecVerdict::Deny => 403,
        SpecVerdict::Rejected(_) => 502,
    }
}

impl Verdict {
    /// Translate the verdict into the HTTP status the caller answers with.
    pub fn status(&self) -> (s: u16)
        ensures
            s == spec_status(self@),
    {
        match self {
            Verdict::Allow { .. } => 200,
            Verdict::Unauthenticated => 401,
            Verdict::Deny => 403,
            Verdict::Rejected(_) => 502,
        }
    }
}

} // verus!
