//! Forward-authentication gateway library.
//!
//! The library holds the verified core of an authentication/authorization
//! gateway: a decision pipeline that normalizes an inbound request, checks
//! token liveness against an identity provider, extracts a stable subject
//! identity from a verified token, and evaluates the subject against an
//! access-control policy, producing an allow/deny verdict that a reverse
//! proxy acts on. Network transport stays outside the library; every
//! decision taken between the upstream calls is verified here.

pub mod enforce;
pub mod entity;
pub mod normalize;
pub mod pipeline;
pub mod policy;
pub mod response;
pub mod text;
pub mod token;
pub mod upstream;
pub mod verdict;
