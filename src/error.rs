use vstd::prelude::*;

verus! {

/// Every failure the library reports.
#[derive(Debug, Clone)]
pub enum ZinharoError {
    /// The credentials given to a login were refused.
    BadCredentials,
    /// This client is older than the coordinator's minimum supported version.
    ApiVersionInadequate,
    /// The transport failed (could not connect, timed out, body unreadable);
    /// holds the transport's own description.
    ReqwestError(String),
    /// The coordinator answered with a status this endpoint does not expect.
    UnknownStatusCode(u16),
    /// The coordinator asked the client to slow down.
    Ratelimited,
    /// A local input/output operation failed; holds its description.
    IOError(String),
    /// No job is queued at the moment.
    NoJobsAvailable,
    /// The username given to a signup is already registered.
    UsernameTaken,
    /// The version endpoint answered 403: a firewall or CDN blocks this client.
    FirewallBlock,
    /// A response body held a malformed value (version string, base64
    /// payload, timestamp, compressed data).
    InvalidResponse,
}

} // verus!
