use vstd::prelude::*;

verus! {

/// Everything that can go wrong in the middleware: the two construction failures
/// (no key-source configured, key set could not be loaded) and the two
/// per-request failures (token present but invalid, policy denied).
#[derive(Debug)]
pub enum JwtAuthError {
    /// No key-source URL was configured for the middleware.
    NoKeystoreSpecified,
    /// The key set could not be fetched from its URL; the cause as the
    /// key-set library reported it.
    FailedToLoadKeystore(jwks_client::error::Error),
    /// An `Authorization` header carried the bearer scheme but its token did
    /// not verify; the cause as the key-set library reported it.
    InvalidBearerAuth(jwks_client::error::Error),
    /// The policy function denied the request.
    Unauthorised,
}

impl JwtAuthError {
    /// The protocol status that this error is surfaced as: configuration
    /// failures are server errors, per-request failures are unauthorized.
    pub open spec fn spec_status_code(&self) -> u16 {
        match self {
            JwtAuthError::NoKeystoreSpecified => 500,
            JwtAuthError::FailedToLoadKeystore(_) => 500,
            JwtAuthError::InvalidBearerAuth(_) => 401,
            JwtAuthError::Unauthorised => 401,
        }
    }

    /// Maps each error to the status code of the response it is surfaced as.
    pub fn status_code(&self) -> (c: u16)
        ensures
            c == self.spec_status_code(),
    {
        match self {
            JwtAuthError::NoKeystoreSpecified => 500,
            JwtAuthError::FailedToLoadKeystore(_) => 500,
            JwtAuthError::InvalidBearerAuth(_) => 401,
            JwtAuthError::Unauthorised => 401,
        }
    }

    /// The human-readable description of this error. The cause carried by a
    /// payload is deliberately not interpolated: verification internals are
    /// logged server-side, not surfaced to the caller.
    pub open spec fn spec_message(&self) -> Seq<char> {
        match self {
            JwtAuthError::NoKeystoreSpecified => "No JWKS keystore address specified"@,
            JwtAuthError::FailedToLoadKeystore(_) => "Failed to load JWKS keystore"@,
            JwtAuthError::InvalidBearerAuth(_) => "Bearer authentication token invalid"@,
            JwtAuthError::Unauthorised => "Access to this resource is not authorised"@,
        }
    }

    /// Describes the error in words, for logs and response bodies.
    pub fn message(&self) -> (m: String)
        ensures
            m@ == self.spec_message(),
    {
        match self {
            JwtAuthError::NoKeystoreSpecified => "No JWKS keystore address specified".to_string(),
            JwtAuthError::FailedToLoadKeystore(_) => "Failed to load JWKS keystore".to_string(),
            JwtAuthError::InvalidBearerAuth(_) => "Bearer authentication token invalid".to_string(),
            JwtAuthError::Unauthorised => "Access to this resource is not authorised".to_string(),
        }
    }
}

/// The conversion the construction path leans on: any key-set fetch error
/// becomes `FailedToLoadKeystore` with that error as the cause.
impl From<jwks_client::error::Error> for JwtAuthError {
    fn from(e: jwks_client::error::Error) -> Self {
        JwtAuthError::FailedToLoadKeystore(e)
    }
}

impl vstd::std_specs::convert::FromSpecImpl<jwks_client::error::Error> for JwtAuthError {
    open spec fn obeys_from_spec() -> bool {
        true
    }

    open spec fn from_spec(e: jwks_client::error::Error) -> Self {
        JwtAuthError::FailedToLoadKeystore(e)
    }
}

} // verus!
