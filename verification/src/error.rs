//! The ways in which a request fails, and what the client is told.

use vstd::prelude::*;

verus! {

/// Why a request was not authenticated. The reason is for the log: the client
/// is told the same for each.
#[derive(Debug, Clone, Copy, PartialEq, Eq, Structural)]
pub enum Rejection {
    /// No authorization header, or none that carries a bearer token.
    MissingAuthorization,
    /// The token is forged, malformed or expired.
    InvalidToken,
    /// The token is genuine and unexpired, but was revoked: a credential that
    /// was given up and is tried again.
    TokenRevoked,
}

/// The failures of the gateway.
#[derive(Debug, Clone, Copy, PartialEq, Eq, Structural)]
pub enum GatewayError {
    /// The credential is missing, invalid, expired or revoked.
    Unauthorized(Rejection),
    /// The CSRF state is unknown: the client must start the login again.
    BadRequest,
    /// The store is unreachable or answered out of turn, signing failed, or
    /// the configuration is malformed.
    InternalError,
    /// A call to the identity provider failed. The client is told what it is
    /// told of an internal error.
    UpstreamError,
}

impl GatewayError {
    /// The HTTP status of the failure.
    pub open spec fn spec_status(self) -> u16 {
        match self {
            GatewayError::Unauthorized(_) => 401,
            GatewayError::BadRequest => 400,
            GatewayError::InternalError => 500,
            GatewayError::UpstreamError => 500,
        }
    }

    /// The HTTP status with which the failure is answered.
    #[verifier::when_used_as_spec(spec_status)]
    pub fn status(self) -> (r: u16)
        ensures
            r == self.spec_status(),
    {
        match self {
            GatewayError::Unauthorized(_) => 401,
            GatewayError::BadRequest => 400,
            GatewayError::InternalError => 500,
            GatewayError::UpstreamError => 500,
        }
    }

    /// Whether the failure lies with the gateway or a service behind it, and
    /// not with the request.
    pub open spec fn spec_is_server_fault(self) -> bool {
        self == GatewayError::InternalError || self == GatewayError::UpstreamError
    }

    /// Whether the failure lies with the gateway or a service behind it.
    #[verifier::when_used_as_spec(spec_is_server_fault)]
    pub fn is_server_fault(self) -> (r: bool)
        ensures
            r == self.spec_is_server_fault(),
    {
        match self {
            GatewayError::InternalError => true,
            GatewayError::UpstreamError => true,
            _ => false,
        }
    }
}

/// A failure of a call to the identity provider.
#[derive(Debug, Clone, PartialEq, Eq)]
pub struct UpstreamFailure {
    /// What went wrong, for the log.
    pub detail: String,
}

/// A failure of the relational user store.
#[derive(Debug, Clone, PartialEq, Eq)]
pub struct UserStoreFailure {
    /// What went wrong, for the log.
    pub detail: String,
}

} // verus!
