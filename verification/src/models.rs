//! The values that travel through the authorization handshake.

use vstd::prelude::*;

verus! {

/// The characters of an optional text.
pub open spec fn optional_text(text: Option<String>) -> Option<Seq<char>> {
    match text {
        Some(t) => Some(t@),
        None => None,
    }
}

/// Query parameters received on the provider's callback.
#[derive(Debug, Clone, PartialEq, Eq)]
pub struct OAuthCallbackQuery {
    pub code: String,
    pub state: String,
}

/// What the client receives after a successful authentication.
#[derive(Debug, Clone, PartialEq, Eq)]
pub struct AuthResponse {
    pub token: String,
}

/// The identity and lifetime that a session token carries.
#[derive(Debug, Clone, PartialEq, Eq)]
pub struct Claims {
    /// Subject: the stable internal user id.
    pub sub: String,
    pub email: String,
    pub name: String,
    /// Expiry, in seconds since the Unix epoch. The token is valid strictly
    /// before this instant.
    pub exp: u32,
    /// Unique token id, by which the token is revoked.
    pub jti: String,
}

/// The mathematical value of a [`Claims`].
pub struct ClaimsView {
    pub sub: Seq<char>,
    pub email: Seq<char>,
    pub name: Seq<char>,
    pub exp: u32,
    pub jti: Seq<char>,
}

impl View for Claims {
    type V = ClaimsView;

    open spec fn view(&self) -> ClaimsView {
        ClaimsView {
            sub: self.sub@,
            email: self.email@,
            name: self.name@,
            exp: self.exp,
            jti: self.jti@,
        }
    }
}

impl Claims {
    /// A copy with the same fields.
    pub fn duplicate(&self) -> (r: Claims)
        ensures
            r@ == self@,
    {
        Claims {
            sub: self.sub.clone(),
            email: self.email.clone(),
            name: self.name.clone(),
            exp: self.exp,
            jti: self.jti.clone(),
        }
    }
}

/// The profile that the identity provider returns for a user.
#[derive(Debug, Clone, PartialEq, Eq)]
pub struct UserInfo {
    pub sub: String,
    pub email: String,
    pub name: String,
}

/// The provider's answer to the exchange of an authorization code.
#[derive(Debug, Clone, PartialEq, Eq)]
pub struct OAuthTokenResponse {
    pub access_token: String,
}

/// A request for the devices of one kind.
#[derive(Debug, Clone, PartialEq, Eq)]
pub struct DevicesRequest {
    pub kind: String,
}

/// A device registered for a user.
#[derive(Debug, Clone, PartialEq, Eq)]
pub struct Device {
    pub id: String,
    pub kind: String,
}

} // verus!
