//! The decision pipeline: normalize the inbound request, confirm token
//! liveness, extract the subject identity, evaluate policy, and settle on a
//! verdict. The two upstream calls (introspection and enforcement) happen
//! between the stages; every decision around them is made here, as a pure
//! function of the request and of the upstream outcomes.

use vstd::prelude::*;
use crate::entity::{spec_subject, CasdoorUser};
use crate::normalize::{strip_query, strip_query_string};
use crate::response::ActiveResponse;
use crate::text::{lower_seq, str_eq, to_lowercase_ascii};
use crate::verdict::{spec_status, ErrorKind, SpecVerdict, Verdict};

verus! {

/// The CORS preflight method, allowed through without credentials.
pub open spec fn is_preflight(method: Seq<char>) -> bool {
    method == "OPTIONS"@
}

/// The liveness outcome an introspection answer stands for: `None` when the
/// call failed in transport or its body was unreadable.
pub open spec fn spec_liveness(introspection: Option<ActiveResponse>) -> Option<bool> {
    match introspection {
        Some(r) => Some(r.active),
        None => None,
    }
}

/// The claim pair a verification outcome stands for: `None` when the token
/// did not verify.
pub open spec fn spec_claims(verification: Option<CasdoorUser>) -> Option<(Seq<char>, Seq<char>)> {
    match verification {
        Some(u) => Some((u.owner@, u.name@)),
        None => None,
    }
}

/// Whether the pipeline consults the introspection upstream at all: only a
/// non-preflight request that carries a token reaches that stage.
pub open spec fn introspection_consulted(token: Option<Seq<char>>, method: Seq<char>) -> bool {
    !is_preflight(method) && token is Some
}

/// Whether the pipeline consults the token verifier: only once introspection
/// answered and reported the token active.
pub open spec fn verification_consulted(
    token: Option<Seq<char>>,
    method: Seq<char>,
    introspection: Option<bool>,
) -> bool {
    introspection_consulted(token, method) && introspection == Some(true)
}

/// Whether the pipeline consults the enforcement strategy: only once a
/// verified claim set produced a subject.
pub open spec fn enforcement_consulted(
    token: Option<Seq<char>>,
    method: Seq<char>,
    introspection: Option<bool>,
    verification: Option<(Seq<char>, Seq<char>)>,
) -> bool {
    verification_consulted(token, method, introspection) && verification is Some
}

/// The verdict of the whole pipeline as a function of the request and of the
/// three upstream outcomes: preflight is allowed without identity; a missing
/// token, a failed introspection call, an inactive token and a failed
/// verification each end the pipeline early; otherwise the enforcement
/// outcome decides, and an allowed request carries `owner/name`.
pub open spec fn spec_verdict(
    token: Option<Seq<char>>,
    method: Seq<char>,
    path: Seq<char>,
    introspection: Option<bool>,
    verification: Option<(Seq<char>, Seq<char>)>,
    enforcement: Result<bool, ErrorKind>,
) -> SpecVerdict {
    if is_preflight(method) {
        SpecVerdict::Allow(None)
    } else if token is None {
        SpecVerdict::Rejected(ErrorKind::MissingToken)
    } else if introspection is None {
        SpecVerdict::Rejected(ErrorKind::UpstreamUnavailable)
    } else if introspection == Some(false) {
        SpecVerdict::Unauthenticated
    } else {
        match verification {
            None => SpecVerdict::Rejected(ErrorKind::InvalidToken),
            Some((owner, name)) => match enforcement {
                Ok(true) => SpecVerdict::Allow(Some(spec_subject(owner, name))),
                Ok(false) => SpecVerdict::Deny,
                Err(k) => SpecVerdict::Rejected(k),
            },
        }
    }
}

/// Outcome of the first stage: either the request is already settled, or the
/// introspection upstream must be consulted with the normalized request.
pub enum StartStep {
    Settled(Verdict),
    Introspect { token: String, object: String, action: String },
}

/// First stage. A preflight request is allowed at once with no identity
/// header; a non-preflight request without a token is rejected; otherwise
/// the object is the path with its query string stripped and the action is
/// the lower-cased method, and introspection is due.
pub fn start_request(token: Option<String>, method: &str, path: &str) -> (s: StartStep)
    ensures
        match s {
            StartStep::Settled(v) => (is_preflight(method@) && v@ == SpecVerdict::Allow(
                None,
            )) || (!is_preflight(method@) && token is None && v@ == SpecVerdict::Rejected(
                ErrorKind::MissingToken,
            )),
            StartStep::Introspect { token: t, object, action } => !is_preflight(method@) && (
            token matches Some(given) && t@ == given@) && object@ == strip_query(path@)
                && action@ == lower_seq(method@),
        },
{
    if str_eq(method, "OPTIONS") {
        return StartStep::Settled(Verdict::Allow { remote_user: None });
    }
    match token {
        None => StartStep::Settled(Verdict::Rejected(ErrorKind::MissingToken)),
        Some(t) => StartStep::Introspect {
            token: t,
            object: strip_query_string(path),
            action: to_lowercase_ascii(method),
        },
    }
}

/// Outcome of the liveness stage: settled, or authenticated and due for
/// identification and enforcement.
pub enum LivenessStep {
    Settled(Verdict),
    Authenticated,
}

/// Second stage. A failed introspection call rejects the request as
/// upstream-unavailable; an inactive token fails authentication; an active
/// token proceeds.
pub fn check_liveness(introspection: Option<&ActiveResponse>) -> (s: LivenessStep)
    ensures
        match s {
            LivenessStep::Settled(v) => (introspection is None && v@ == SpecVerdict::Rejected(
                ErrorKind::UpstreamUnavailable,
            )) || (introspection matches Some(r) && !r.active && v@ == SpecVerdict::Unauthenticated),
            LivenessStep::Authenticated => introspection matches Some(r) && r.active,
        },
{
    match introspection {
        None => LivenessStep::Settled(Verdict::Rejected(ErrorKind::UpstreamUnavailable)),
        Some(r) => {
            if r.active {
                LivenessStep::Authenticated
            } else {
                LivenessStep::Settled(Verdict::Unauthenticated)
            }
        },
    }
}

/// Outcome of the identification stage: settled, or a subject to enforce
/// policy against.
pub enum IdentifyStep {
    Settled(Verdict),
    Identified { subject: String },
}

/// Third stage. A token that does not verify after introspection reported it
/// active is a harder error than failed authentication: it is rejected as
/// invalid. A verified claim set yields the subject `owner/name`.
pub fn identify(verification: Option<&CasdoorUser>) -> (s: IdentifyStep)
    ensures
        match s {
            IdentifyStep::Settled(v) => verification is None && v@ == SpecVerdict::Rejected(
                ErrorKind::InvalidToken,
            ),
            IdentifyStep::Identified { subject } => verification matches Some(u) && subject@
                == spec_subject(u.owner@, u.name@),
        },
{
    match verification {
        None => IdentifyStep::Settled(Verdict::Rejected(ErrorKind::InvalidToken)),
        Some(u) => IdentifyStep::Identified { subject: u.subject() },
    }
}

/// Last stage. The enforcement outcome decides: permitted requests are
/// allowed and carry the subject as identity header, refused ones are
/// denied, and a failed strategy rejects with its own error.
pub fn settle(enforcement: Result<bool, ErrorKind>, subject: String) -> (v: Verdict)
    ensures
        v@ == match enforcement {
            Ok(true) => SpecVerdict::Allow(Some(subject@)),
            Ok(false) => SpecVerdict::Deny,
            Err(k) => SpecVerdict::Rejected(k),
        },
{
    match enforcement {
        Ok(true) => Verdict::Allow { remote_user: Some(subject) },
        Ok(false) => Verdict::Deny,
        Err(k) => Verdict::Rejected(k),
    }
}

/// One full run of the pipeline: the verdict, and which upstreams were
/// consulted on the way.
pub struct PipelineRun {
    pub verdict: Verdict,
    pub introspection_called: bool,
    pub enforcement_called: bool,
}

/// The whole pipeline over given upstream outcomes: a pure function of the
/// request, the introspection answer, the verification outcome and the
/// enforcement outcome. The flags say exactly which upstreams a driver
/// consults on this request.
pub fn decide(
    token: Option<String>,
    method: &str,
    path: &str,
    introspection: Option<ActiveResponse>,
    verification: Option<CasdoorUser>,
    enforcement: Result<bool, ErrorKind>,
) -> (run: PipelineRun)
    ensures
        run.verdict@ == spec_verdict(
            match token {
                Some(t) => Some(t@),
                None => None,
            },
            method@,
            path@,
            spec_liveness(introspection),
            spec_claims(verification),
            enforcement,
        ),
        run.introspection_called == introspection_consulted(
            match token {
                Some(t) => Some(t@),
                None => None,
            },
            method@,
        ),
        run.enforcement_called == enforcement_consulted(
            match token {
                Some(t) => Some(t@),
                None => None,
            },
            method@,
            spec_liveness(introspection),
            spec_claims(verification),
        ),
{
    match start_request(token, method, path) {
        StartStep::Settled(v) => PipelineRun {
            verdict: v,
            introspection_called: false,
            enforcement_called: false,
        },
        StartStep::Introspect { .. } => {
            let liveness = match &introspection {
                Some(r) => check_liveness(Some(r)),
                None => check_liveness(None),
            };
            match liveness {
                LivenessStep::Settled(v) => PipelineRun {
                    verdict: v,
                    introspection_called: true,
                    enforcement_called: false,
                },
                LivenessStep::Authenticated => {
                    let identity = match &verification {
                        Some(u) => identify(Some(u)),
                        None => identify(None),
                    };
                    match identity {
                        IdentifyStep::Settled(v) => PipelineRun {
                            verdict: v,
                            introspection_called: true,
                            enforcement_called: false,
                        },
                        IdentifyStep::Identified { subject } => PipelineRun {
                            verdict: settle(enforcement, subject),
                            introspection_called: true,
                            enforcement_called: true,
                        },
                    }
                },
            }
        },
    }
}

/// A request whose token fails signature verification is never allowed:
/// whatever the other outcomes, the verdict is not `Allow`, and once
/// introspection reported the token active the verdict is exactly the
/// invalid-token rejection, translated to the gateway-broke status.
pub proof fn lemma_failed_verification_never_allows(
    token: Option<Seq<char>>,
    method: Seq<char>,
    path: Seq<char>,
    introspection: Option<bool>,
    enforcement: Result<bool, ErrorKind>,
)
    requires
        !is_preflight(method),
    ensures
        !(spec_verdict(token, method, path, introspection, None, enforcement) is Allow),
        token is Some && introspection == Some(true) ==> spec_verdict(
            token,
            method,
            path,
            introspection,
            None,
            enforcement,
        ) == SpecVerdict::Rejected(ErrorKind::InvalidToken) && spec_status(
            spec_verdict(token, method, path, introspection, None, enforcement),
        ) == 502,
{
}

/// A token the provider reports inactive fails authentication, and the
/// enforcement strategy is never consulted for it.
pub proof fn lemma_inactive_never_enforced(
    token: Option<Seq<char>>,
    method: Seq<char>,
    path: Seq<char>,
    verification: Option<(Seq<char>, Seq<char>)>,
    enforcement: Result<bool, ErrorKind>,
)
    requires
        !is_preflight(method),
        token is Some,
    ensures
        spec_verdict(token, method, path, Some(false), verification, enforcement)
            == SpecVerdict::Unauthenticated,
        !enforcement_consulted(token, method, Some(false), verification),
{
}

/// A preflight request is allowed with no identity header, and neither
/// introspection nor enforcement is consulted for it.
pub proof fn lemma_preflight_skips_upstreams(
    token: Option<Seq<char>>,
    method: Seq<char>,
    path: Seq<char>,
    introspection: Option<bool>,
    verification: Option<(Seq<char>, Seq<char>)>,
    enforcement: Result<bool, ErrorKind>,
)
    requires
        is_preflight(method),
    ensures
        spec_verdict(token, method, path, introspection, verification, enforcement)
            == SpecVerdict::Allow(None),
        !introspection_consulted(token, method),
        !enforcement_consulted(token, method, introspection, verification),
{
}

/// Idempotence: the pipeline is a pure function of the request and of the
/// upstream outcomes, so two identical requests against unchanged upstream
/// state settle on identical verdicts.
pub proof fn lemma_pipeline_idempotent(
    token: Option<Seq<char>>,
    method: Seq<char>,
    path: Seq<char>,
    introspection: Option<bool>,
    verification: Option<(Seq<char>, Seq<char>)>,
    enforcement: Result<bool, ErrorKind>,
    token2: Option<Seq<char>>,
    method2: Seq<char>,
    path2: Seq<char>,
    introspection2: Option<bool>,
    verification2: Option<(Seq<char>, Seq<char>)>,
    enforcement2: Result<bool, ErrorKind>,
)
    requires
        token == token2,
        method == method2,
        path == path2,
        introspection == introspection2,
        verification == verification2,
        enforcement == enforcement2,
    ensures
        spec_verdict(token, method, path, introspection, verification, enforcement) == spec_verdict(
            token2,
            method2,
            path2,
            introspection2,
            verification2,
            enforcement2,
        ),
{
}

} // verus!
