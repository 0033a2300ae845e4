use vstd::prelude::*;
use crate::error::ZinharoError;

verus! {

/// The coordinator's endpoints; a status code means different things on each.
#[derive(Debug, Clone, Copy, PartialEq, Eq, Structural)]
pub enum Endpoint {
    /// `GET /min_version/`
    MinVersion,
    /// `GET /auth/`
    Login,
    /// `POST /auth/`
    Signup,
    /// `GET /job/`
    Lease,
    /// `POST /job/`
    Submit,
    /// `POST /report/`
    Report,
    /// `POST /hash/`
    Hash,
}

/// The envelope around every answer of the coordinator: a status word and
/// the operation's own body.
#[derive(Debug, Clone)]
pub struct ApiJson<T> {
    pub status: String,
    pub body: T,
}

impl<T> ApiJson<T> {
    /// The operation's own body, the only part that is decoded further.
    pub fn into_body(self) -> (r: T)
        ensures
            r == self.body,
    {
        self.body
    }
}

/// What a status code on an endpoint means: `Ok` for 200, otherwise the
/// error that the endpoint gives it.
pub open spec fn status_meaning(endpoint: Endpoint, status: u16) -> Result<(), ZinharoError> {
    if status == 200 {
        Ok(())
    } else if status == 403 && endpoint == Endpoint::MinVersion {
        Err(ZinharoError::FirewallBlock)
    } else if status == 403 && endpoint == Endpoint::Login {
        Err(ZinharoError::BadCredentials)
    } else if status == 403 && endpoint == Endpoint::Signup {
        Err(ZinharoError::UsernameTaken)
    } else if status == 404 && endpoint == Endpoint::Lease {
        Err(ZinharoError::NoJobsAvailable)
    } else if status == 429 && endpoint != Endpoint::MinVersion {
        Err(ZinharoError::Ratelimited)
    } else {
        Err(ZinharoError::UnknownStatusCode(status))
    }
}

/// Classifies the status code of a response from `endpoint`.
pub fn classify(endpoint: Endpoint, status: u16) -> (r: Result<(), ZinharoError>)
    ensures
        r == status_meaning(endpoint, status),
{
    if status == 200 {
        return Ok(());
    }
    match (endpoint, status) {
        (Endpoint::MinVersion, 403) => Err(ZinharoError::FirewallBlock),
        (Endpoint::Login, 403) => Err(ZinharoError::BadCredentials),
        (Endpoint::Signup, 403) => Err(ZinharoError::UsernameTaken),
        (Endpoint::Lease, 404) => Err(ZinharoError::NoJobsAvailable),
        (Endpoint::MinVersion, _) => Err(ZinharoError::UnknownStatusCode(status)),
        (_, 429) => Err(ZinharoError::Ratelimited),
        _ => Err(ZinharoError::UnknownStatusCode(status)),
    }
}

} // verus!
