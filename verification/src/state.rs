//! The state that every request shares: settings, secrets, and the
//! operations of session control that depend on them.

use vstd::prelude::*;
use crate::config::{ApiSecrets, OAuthConfig, RedisConfig};
use crate::models::{Claims, ClaimsView};
use crate::store::{command_view, is_state_token, is_uuid_text, revoked_key, RedisClient, StoreCommand};
use crate::store::StoreCommandView;
use crate::time::now_sec;
use crate::token::{accepted_claims, issue_token, issued_token, outcome_view, signed_view, token_claims, verify_token};
use crate::token::TokenError;

verus! {

/// `uuid::Uuid::new_v4`, written out by `to_string`: a random version 4
/// UUID in its hyphenated form, which is 36 characters long, with hyphens at
/// the positions 8, 13, 18 and 23 and digits of lowercase hexadecimal
/// everywhere else. Nothing else is claimed of it: which UUID comes out is
/// up to the random number generator of the operating system. Where the
/// operating system has no random bytes to give, the crate panics.
#[verifier::external_body]
pub(crate) fn random_uuid() -> (r: String)
    ensures
        is_uuid_text(r@),
{
    uuid::Uuid::new_v4().to_string()
}

/// The seconds for which a revocation must be kept when claims are revoked
/// at `now`: what is left of the token's life, and nothing once it has
/// expired.
pub open spec fn remaining_life(exp: u32, now: u32) -> u64 {
    if exp > now {
        (exp - now) as u64
    } else {
        0
    }
}

/// The store command by which claims are revoked at `now`: none for a token
/// that has expired, else a revocation entry that lasts as long as the token
/// would have.
pub open spec fn revocation(claims: ClaimsView, now: u32) -> Option<StoreCommandView> {
    if remaining_life(claims.exp, now) == 0 {
        None
    } else {
        Some(StoreCommandView::Put { key: revoked_key(claims.jti), ttl_secs: remaining_life(claims.exp, now) })
    }
}

/// Settings and secrets of a running gateway.
pub struct ApiState {
    pub oauth: OAuthConfig,
    pub redis: RedisConfig,
    pub secrets: ApiSecrets,
    pub redis_client: RedisClient,
}

impl ApiState {
    /// A state with the given settings and secrets.
    pub fn new(oauth: OAuthConfig, redis: RedisConfig, secrets: ApiSecrets) -> (r: ApiState)
        ensures
            r.oauth == oauth,
            r.redis == redis,
            r.secrets == secrets,
    {
        ApiState { oauth, redis, secrets, redis_client: RedisClient {  } }
    }

    /// The settings of the authorization handshake.
    pub fn oauth_config(&self) -> (r: &OAuthConfig)
        ensures
            *r == self.oauth,
    {
        &self.oauth
    }

    /// The credentials.
    pub fn secrets(&self) -> (r: &ApiSecrets)
        ensures
            *r == self.secrets,
    {
        &self.secrets
    }

    /// The command that stores a CSRF state token issued on login, for the
    /// configured time. There is none for a text that has not the form of a
    /// state token.
    pub fn store_oauth_state(&self, state: &str) -> (r: Option<StoreCommand>)
        ensures
            command_view(r) == if is_state_token(state@) {
                Some(StoreCommandView::Put { key: state@, ttl_secs: self.redis.oauth_state_ttl })
            } else {
                None
            },
    {
        self.redis_client.store_oauth_state(state, self.redis.oauth_state_ttl)
    }

    /// The command that consumes a CSRF state token on callback. A reply
    /// that the key was not there means that the callback must be refused.
    /// So must a callback for which there is no command: its state has not
    /// the form of a state token, so it was never issued, and nothing is
    /// deleted for it.
    pub fn consume_oauth_state(&self, state: &str) -> (r: Option<StoreCommand>)
        ensures
            command_view(r) == if is_state_token(state@) {
                Some(StoreCommandView::Delete { key: state@ })
            } else {
                None
            },
    {
        self.redis_client.consume_oauth_state(state)
    }

    /// Checks a session token at the instant `now` and returns its claims.
    pub fn decode_jwt_at(&self, token: &str, now: u32) -> (r: Result<Claims, TokenError>)
        ensures
            outcome_view(r) == accepted_claims(token_claims(token@, self.secrets.jwt_secret@), now),
    {
        verify_token(token, self.secrets.jwt_secret.as_str(), now)
    }

    /// Checks a session token against the system clock and returns its
    /// claims. Whatever the clock reads, the outcome is that of
    /// [`Self::decode_jwt_at`] for some instant.
    pub fn decode_jwt(&self, token: &str) -> (r: Result<Claims, TokenError>)
        ensures
            exists|now: u32| outcome_view(r) == #[trigger] accepted_claims(token_claims(token@, self.secrets.jwt_secret@), now),
    {
        let now = now_sec();
        self.decode_jwt_at(token, now)
    }

    /// Mints a session token at the instant `now` with the token id `jti`.
    /// It expires after the configured lifetime.
    pub fn issue_jwt_at(&self, sub: &str, email: &str, name: &str, now: u32, jti: String) -> (r: Result<String, TokenError>)
        ensures
            signed_view(r) == issued_token(
                sub@,
                email@,
                name@,
                now,
                self.oauth.jwt.expires_in,
                jti@,
                self.secrets.jwt_secret@,
            ),
    {
        issue_token(sub, email, name, now, self.oauth.jwt.expires_in, jti, self.secrets.jwt_secret.as_str())
    }

    /// Mints a session token at the reading of the system clock, with a
    /// fresh token id. Whatever the clock and the generator give, the
    /// outcome is that of [`Self::issue_jwt_at`] for some instant and some id
    /// in the form of a hyphenated UUID.
    pub fn issue_jwt(&self, sub: &str, email: &str, name: &str) -> (r: Result<String, TokenError>)
        ensures
            exists|now: u32, jti: Seq<char>| is_uuid_text(jti) && signed_view(r) == #[trigger] issued_token(
                sub@,
                email@,
                name@,
                now,
                self.oauth.jwt.expires_in,
                jti,
                self.secrets.jwt_secret@,
            ),
    {
        let now = now_sec();
        let jti = random_uuid();
        self.issue_jwt_at(sub, email, name, now, jti)
    }

    /// The command by which claims are revoked at the instant `now`: `None`
    /// for a token that has expired, which needs no entry.
    pub fn revoke_jwt_at(&self, claims: &Claims, now: u32) -> (r: Option<StoreCommand>)
        ensures
            command_view(r) == revocation(claims@, now),
    {
        let remaining: u64 = claims.exp.saturating_sub(now) as u64;
        if remaining == 0 {
            return None;
        }
        Some(self.redis_client.revoke_jwt(claims.jti.as_str(), remaining))
    }

    /// The command by which claims are revoked at the reading of the system
    /// clock. Whatever the clock reads, the outcome is that of
    /// [`Self::revoke_jwt_at`] for some instant.
    pub fn revoke_jwt(&self, claims: &Claims) -> (r: Option<StoreCommand>)
        ensures
            exists|now: u32| command_view(r) == #[trigger] revocation(claims@, now),
    {
        let now = now_sec();
        self.revoke_jwt_at(claims, now)
    }

    /// The command that asks whether the token id `jti` was revoked.
    pub fn is_jwt_revoked(&self, jti: &str) -> (r: StoreCommand)
        ensures
            r@ == (StoreCommandView::Exists { key: revoked_key(jti@) }),
    {
        self.redis_client.is_jwt_revoked(jti)
    }
}

} // verus!
