//! Settings and secrets of the gateway.

use vstd::prelude::*;
use vstd::string::StringExecFns;

verus! {

/// Lifetime of the session tokens.
#[derive(Debug, Clone, PartialEq, Eq)]
pub struct JwtConfig {
    /// Seconds from the minting of a token to its expiry.
    pub expires_in: u32,
}

impl Default for JwtConfig {
    fn default() -> (r: Self)
        ensures
            r.expires_in == 86400,
    {
        JwtConfig { expires_in: 86400 }
    }
}

/// Settings of the authorization handshake.
#[derive(Debug, Clone, PartialEq, Eq)]
pub struct OAuthConfig {
    pub jwt: JwtConfig,
    /// Base URL of this service, from which the redirect URI is built.
    pub base_url: String,
}

impl Default for OAuthConfig {
    fn default() -> (r: Self)
        ensures
            r.jwt.expires_in == 86400,
            r.base_url@ == "http://localhost:8000"@,
    {
        OAuthConfig { jwt: JwtConfig::default(), base_url: String::from_str("http://localhost:8000") }
    }
}

impl OAuthConfig {
    /// The mathematical value of the redirect URI: the base URL followed by
    /// `/auth/callback`.
    pub open spec fn spec_redirect_uri(&self) -> Seq<char> {
        self.base_url@ + "/auth/callback"@
    }

    /// The URI at which the provider calls this service back.
    pub fn redirect_uri(&self) -> (r: String)
        ensures
            r@ == self.spec_redirect_uri(),
    {
        self.base_url.clone().concat("/auth/callback")
    }
}

/// Settings of the ephemeral key-value store.
#[derive(Debug, Clone, PartialEq, Eq)]
pub struct RedisConfig {
    /// Seconds for which a CSRF state token stays consumable.
    pub oauth_state_ttl: u64,
}

impl Default for RedisConfig {
    fn default() -> (r: Self)
        ensures
            r.oauth_state_ttl == 300,
    {
        RedisConfig { oauth_state_ttl: 300 }
    }
}

/// Settings of the relational user store.
#[derive(Debug, Clone, PartialEq, Eq)]
pub struct PgConfig {
    /// Number of pooled connections.
    pub db_pool_size: u32,
}

impl Default for PgConfig {
    fn default() -> (r: Self)
        ensures
            r.db_pool_size == 5,
    {
        PgConfig { db_pool_size: 5 }
    }
}

/// `zeroize::Zeroize::zeroize` on a `String`: overwrites the bytes of the
/// text with zeroes and leaves the text empty.
#[verifier::external_body]
fn scrub(text: &mut String)
    ensures
        final(text)@ == Seq::<char>::empty(),
    opens_invariants none
    no_unwind
{
    zeroize::Zeroize::zeroize(text)
}

/// The credentials of the gateway. They are overwritten in memory when the
/// value is dropped.
pub struct ApiSecrets {
    /// The symmetric secret with which session tokens are signed.
    pub jwt_secret: String,
    /// The client id at the identity provider.
    pub client_id: String,
    /// The client secret at the identity provider.
    pub client_secret: String,
}

/// A credential that the environment does not hold.
#[derive(Debug, Clone, Copy, PartialEq, Eq, Structural)]
pub enum MissingSecret {
    JwtSecret,
    ClientId,
    ClientSecret,
}

/// The environment variable of the signing secret.
pub const JWT_SECRET_VARIABLE: &'static str = "JWT_SECRET";

/// The environment variable of the client id.
pub const CLIENT_ID_VARIABLE: &'static str = "CLIENT_ID";

/// The environment variable of the client secret.
pub const CLIENT_SECRET_VARIABLE: &'static str = "CLIENT_SECRET";

impl MissingSecret {
    /// The environment variable in which the credential is looked for.
    pub open spec fn spec_variable(self) -> &'static str {
        match self {
            MissingSecret::JwtSecret => JWT_SECRET_VARIABLE,
            MissingSecret::ClientId => CLIENT_ID_VARIABLE,
            MissingSecret::ClientSecret => CLIENT_SECRET_VARIABLE,
        }
    }

    /// The environment variable that is not set.
    #[verifier::when_used_as_spec(spec_variable)]
    pub fn variable(self) -> (r: &'static str)
        ensures
            r == self.spec_variable(),
    {
        match self {
            MissingSecret::JwtSecret => JWT_SECRET_VARIABLE,
            MissingSecret::ClientId => CLIENT_ID_VARIABLE,
            MissingSecret::ClientSecret => CLIENT_SECRET_VARIABLE,
        }
    }
}

impl ApiSecrets {
    /// The credentials as they were read from the environment: all three must
    /// be set. Where some are not, the first of the signing secret, the
    /// client id and the client secret that is not set is reported.
    pub fn from_env(jwt_secret: Option<String>, client_id: Option<String>, client_secret: Option<String>) -> (r: Result<
        ApiSecrets,
        MissingSecret,
    >)
        ensures
            match (jwt_secret, client_id, client_secret) {
                (Some(j), Some(i), Some(s)) => r matches Ok(secrets) && secrets.jwt_secret == j && secrets.client_id
                    == i && secrets.client_secret == s,
                (None, _, _) => r matches Err(MissingSecret::JwtSecret),
                (Some(_), None, _) => r matches Err(MissingSecret::ClientId),
                (Some(_), Some(_), None) => r matches Err(MissingSecret::ClientSecret),
            },
    {
        let jwt_secret = match jwt_secret {
            Some(v) => v,
            None => {
                return Err(MissingSecret::JwtSecret);
            },
        };
        let client_id = match client_id {
            Some(v) => v,
            None => {
                return Err(MissingSecret::ClientId);
            },
        };
        let client_secret = match client_secret {
            Some(v) => v,
            None => {
                return Err(MissingSecret::ClientSecret);
            },
        };
        Ok(ApiSecrets { jwt_secret, client_id, client_secret })
    }

    /// Overwrites the three credentials and leaves them empty.
    pub fn wipe(&mut self)
        ensures
            final(self).jwt_secret@ == Seq::<char>::empty(),
            final(self).client_id@ == Seq::<char>::empty(),
            final(self).client_secret@ == Seq::<char>::empty(),
        opens_invariants none
        no_unwind
    {
        scrub(&mut self.jwt_secret);
        scrub(&mut self.client_id);
        scrub(&mut self.client_secret);
    }

    /// A copy of the credentials.
    pub fn duplicate(&self) -> (r: ApiSecrets)
        ensures
            r.jwt_secret@ == self.jwt_secret@,
            r.client_id@ == self.client_id@,
            r.client_secret@ == self.client_secret@,
    {
        ApiSecrets {
            jwt_secret: self.jwt_secret.clone(),
            client_id: self.client_id.clone(),
            client_secret: self.client_secret.clone(),
        }
    }
}

impl Drop for ApiSecrets {
    fn drop(&mut self)
        opens_invariants none
        no_unwind
    {
        self.wipe();
    }
}

} // verus!
