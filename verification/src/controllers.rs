//! The request handlers of the gateway, as steps.
//!
//! A handler never waits. Each step takes the state of the request and what
//! has just happened, and returns the next state with the one thing to do
//! next: a command for the store, a call to the identity provider or the
//! user store, or the response. The caller carries the action out and comes
//! back with its outcome.

use vstd::prelude::*;
use vstd::string::StringExecFns;
use vstd::string::StrSliceExecFns;
use crate::error::{GatewayError, Rejection, UpstreamFailure, UserStoreFailure};
use crate::models::{optional_text, AuthResponse, Claims, Device, DevicesRequest, OAuthCallbackQuery};
use crate::models::{OAuthTokenResponse, UserInfo};
use crate::redirect::{authorization_address, authorization_url};
use crate::state::{random_uuid, revocation, ApiState};
use crate::store::{is_state_token, is_uuid_text, lemma_two_uuids_are_a_state_token};
use crate::store::{present, removed, reply_present, reply_removed, reply_stored, revoked_key, stored};
use crate::store::{StoreCommand, StoreCommandView, StoreError, StoreReply};
use crate::time::now_sec;
use crate::token::{accepted_claims, issued_token, token_claims, TokenError};

verus! {

/// A user whose bearer token was verified and found not revoked.
#[derive(Debug, Clone, PartialEq, Eq)]
pub struct AuthUser(pub Claims);

/// What a handler answers.
#[derive(Debug, Clone, PartialEq, Eq)]
pub enum Reply {
    /// Send the client on to `location`.
    Redirect { location: String },
    /// The session token of a completed login.
    Token(AuthResponse),
    /// Success, with nothing to say.
    NoContent,
    /// A failure, with the text that the client is shown.
    Failure { error: GatewayError, message: &'static str },
}

impl Reply {
    /// The HTTP status of a reply.
    pub open spec fn spec_status(&self) -> u16 {
        match self {
            Reply::Redirect { .. } => 302,
            Reply::Token(_) => 200,
            Reply::NoContent => 204,
            Reply::Failure { error, .. } => error.spec_status(),
        }
    }

    /// The HTTP status with which the reply is sent.
    #[verifier::when_used_as_spec(spec_status)]
    pub fn status(&self) -> (r: u16)
        ensures
            r == self.spec_status(),
    {
        match self {
            Reply::Redirect { .. } => 302,
            Reply::Token(_) => 200,
            Reply::NoContent => 204,
            Reply::Failure { error, .. } => error.status(),
        }
    }

    /// The reply that sends the client on to `address`, where there is one;
    /// without an address to send it to, an internal error.
    pub fn redirect(address: Option<String>) -> (r: Result<Reply, GatewayError>)
        ensures
            match optional_text(address) {
                Some(a) => r matches Ok(Reply::Redirect { location }) && location@ == a,
                None => refused(r, GatewayError::InternalError),
            },
    {
        match address {
            Some(location) => Ok(Reply::Redirect { location }),
            None => Err(GatewayError::InternalError),
        }
    }

    /// The reply that hands out a session token, where one was minted;
    /// without a token, an internal error.
    pub fn token(minted: Result<String, TokenError>) -> (r: Result<Reply, GatewayError>)
        ensures
            match minted {
                Ok(t) => r matches Ok(Reply::Token(response)) && response.token@ == t@,
                Err(_) => refused(r, GatewayError::InternalError),
            },
    {
        match minted {
            Ok(token) => Ok(Reply::Token(AuthResponse { token })),
            Err(_) => Err(GatewayError::InternalError),
        }
    }
}

/// What the identity provider is sent in exchange for a session of its own.
#[derive(Debug, Clone, PartialEq, Eq)]
pub struct CodeExchange {
    /// The authorization code that the callback delivered.
    pub code: String,
    pub client_id: String,
    pub client_secret: String,
    pub redirect_uri: String,
}

/// What has just happened to a request.
#[derive(Debug, PartialEq, Eq)]
pub enum Event {
    /// A login was asked for.
    Begin,
    /// A request arrived at a protected route, with this authorization
    /// header, if it has one that is text.
    Request { authorization: Option<String> },
    /// The identity provider called back.
    Callback(OAuthCallbackQuery),
    /// The request passed authentication.
    Authenticated(AuthUser),
    /// The store answered the last command, or failed.
    Store(Result<StoreReply, StoreError>),
    /// The identity provider answered the exchange of the code.
    Exchanged(Result<OAuthTokenResponse, UpstreamFailure>),
    /// The identity provider answered with the user's profile.
    Profile(Result<UserInfo, UpstreamFailure>),
    /// The user store recorded the user and returned the internal id.
    Upserted(Result<String, UserStoreFailure>),
}

/// What is to be done next for a request.
#[derive(Debug, Clone, PartialEq, Eq)]
pub enum Action {
    /// Send the command to the store and come back with `Event::Store`.
    Store(StoreCommand),
    /// Exchange the code at the provider and come back with
    /// `Event::Exchanged`.
    ExchangeCode(CodeExchange),
    /// Fetch the user's profile with the provider's access token and come
    /// back with `Event::Profile`.
    FetchProfile { access_token: String },
    /// Insert or update the user and come back with `Event::Upserted`.
    UpsertUser(UserInfo),
    /// Let the request through, on behalf of this user.
    Proceed(AuthUser),
    /// Answer the request. Nothing follows.
    Respond(Reply),
}

/// How far the authentication of a request has come.
#[derive(Debug, Clone, PartialEq, Eq)]
pub enum AuthState {
    /// Nothing is known of the request.
    Unauthenticated,
    /// The token is genuine and unexpired; whether it was revoked is being
    /// asked.
    SignatureValid(Claims),
    /// The request was let through or refused.
    Done,
}

/// How far a login has come.
#[derive(Debug, Clone, PartialEq, Eq)]
pub enum LoginState {
    Start,
    /// The CSRF state token is being stored.
    AwaitStore { csrf_state: String },
    Done,
}

/// How far a callback has come.
#[derive(Debug, Clone, PartialEq, Eq)]
pub enum CallbackState {
    Start,
    /// The CSRF state token is being consumed.
    AwaitConsume { code: String },
    /// The code is being exchanged.
    AwaitExchange,
    /// The profile is being fetched.
    AwaitProfile,
    /// The user is being recorded.
    AwaitUpsert { email: String, name: String },
    Done,
}

/// How far a logout has come.
#[derive(Debug, Clone, PartialEq, Eq)]
pub enum LogoutState {
    Start,
    /// The revocation is being stored.
    AwaitStore,
    Done,
}

/// The text shown for every request that is not authenticated, whatever the
/// reason.
pub const UNAUTHORIZED_MESSAGE: &'static str = "Unauthorized";

/// The text shown when authentication could not be decided.
pub const INTERNAL_MESSAGE: &'static str = "Internal server error";

/// The text shown when a login or a callback fails.
pub const LOGIN_FAILED_MESSAGE: &'static str = "Authentication failed";

/// The text shown when a logout fails.
pub const LOGOUT_FAILED_MESSAGE: &'static str = "Logout failed";

/// The text shown for a callback whose CSRF state is unknown.
pub const INVALID_STATE_MESSAGE: &'static str = "Invalid state parameter";

/// The scheme word and the space that precede a bearer token.
pub const BEARER_PREFIX: &'static str = "Bearer ";

/// The bearer token of an authorization header: what follows `Bearer ` in a
/// header that begins so.
pub open spec fn bearer_token(header: Seq<char>) -> Option<Seq<char>> {
    if BEARER_PREFIX@.is_prefix_of(header) {
        Some(header.skip(BEARER_PREFIX@.len() as int))
    } else {
        None
    }
}

/// Takes the bearer token out of an authorization header.
pub fn extract_bearer(header: &str) -> (r: Option<String>)
    ensures
        optional_text(r) == bearer_token(header@),
{
    proof {
        reveal_strlit("Bearer ");
    }
    let n = header.unicode_len();
    if n < 7 {
        return None;
    }
    let head = String::from_str(header.substring_char(0, 7));
    if head == String::from_str(BEARER_PREFIX) {
        let rest = String::from_str(header.substring_char(7, n));
        assert(rest@ =~= header@.skip(7));
        Some(rest)
    } else {
        None
    }
}

/// Whether a step failed with exactly `error`.
pub open spec fn refused<T>(outcome: Result<T, GatewayError>, error: GatewayError) -> bool {
    outcome matches Err(e) && e == error
}

/// The text that the client is shown when authentication fails with `error`:
/// the same for every reason of a refusal.
pub open spec fn rejection_message(error: GatewayError) -> &'static str {
    match error {
        GatewayError::Unauthorized(_) => UNAUTHORIZED_MESSAGE,
        _ => INTERNAL_MESSAGE,
    }
}

/// What a handler does with the outcome of a step: a step that succeeded
/// stands as it is, and a failure ends the request with a reply that carries
/// the failure and `message`.
pub open spec fn settled<S>(
    outcome: Result<(S, Action), GatewayError>,
    done: S,
    message: &'static str,
    r: (S, Action),
) -> bool {
    match outcome {
        Ok(step) => r == step,
        Err(error) => r == (done, Action::Respond(Reply::Failure { error, message })),
    }
}

/// Turns the outcome of a step into what is to be done: the step itself, or
/// the reply to a failure, with `done` as the state of the request.
pub fn settle<S>(outcome: Result<(S, Action), GatewayError>, done: S, message: &'static str) -> (r: (S, Action))
    ensures
        settled(outcome, done, message, r),
{
    match outcome {
        Ok(step) => step,
        Err(error) => (done, Action::Respond(Reply::Failure { error, message })),
    }
}

impl AuthUser {
    /// The step of authentication at the instant `now`.
    ///
    /// A request without a bearer token is refused as missing its
    /// authorization. A token that does not verify against the signing
    /// secret, or has expired, is refused as invalid; for a token that
    /// verifies, the store is asked whether it was revoked. Once the store
    /// has answered, a revoked token is refused as revoked and any other is
    /// let through with its claims. If the store fails or answers out of
    /// turn, the request fails with an internal error: it is never let
    /// through unchecked.
    pub open spec fn authenticated(
        api: &ApiState,
        state: AuthState,
        event: Event,
        now: u32,
        r: Result<(AuthState, Action), GatewayError>,
    ) -> bool {
        match (state, event) {
            (AuthState::Unauthenticated, Event::Request { authorization }) => match authorization {
                None => refused(r, GatewayError::Unauthorized(Rejection::MissingAuthorization)),
                Some(header) => match bearer_token(header@) {
                    None => refused(r, GatewayError::Unauthorized(Rejection::MissingAuthorization)),
                    Some(token) => match accepted_claims(token_claims(token, api.secrets.jwt_secret@), now) {
                        Err(_) => refused(r, GatewayError::Unauthorized(Rejection::InvalidToken)),
                        Ok(claims) => {
                            &&& r matches Ok((AuthState::SignatureValid(held), Action::Store(command)))
                            &&& held@ == claims
                            &&& command@ == (StoreCommandView::Exists { key: revoked_key(claims.jti) })
                        },
                    },
                },
            },
            (AuthState::SignatureValid(claims), Event::Store(Ok(reply))) => match reply_present(reply) {
                Some(true) => refused(r, GatewayError::Unauthorized(Rejection::TokenRevoked)),
                Some(false) => {
                    &&& r matches Ok((AuthState::Done, Action::Proceed(user)))
                    &&& user.0@ == claims@
                },
                None => refused(r, GatewayError::InternalError),
            },
            _ => refused(r, GatewayError::InternalError),
        }
    }

    /// What follows the check of a token: a token that was refused, for
    /// whatever reason, makes the request unauthorized for an invalid token;
    /// for a token that was accepted, the store is asked whether its id is
    /// listed as revoked.
    pub fn screen(api: &ApiState, verified: Result<Claims, TokenError>) -> (r: Result<
        (AuthState, Action),
        GatewayError,
    >)
        ensures
            match verified {
                Err(_) => refused(r, GatewayError::Unauthorized(Rejection::InvalidToken)),
                Ok(claims) => {
                    &&& r matches Ok((AuthState::SignatureValid(held), Action::Store(command)))
                    &&& held@ == claims@
                    &&& command@ == (StoreCommandView::Exists { key: revoked_key(claims.jti@) })
                },
            },
    {
        match verified {
            Err(_) => Err(GatewayError::Unauthorized(Rejection::InvalidToken)),
            Ok(claims) => {
                let command = api.is_jwt_revoked(claims.jti.as_str());
                Ok((AuthState::SignatureValid(claims), Action::Store(command)))
            },
        }
    }

    /// Takes one step of authentication at the instant `now`.
    pub fn authenticate_at(api: &ApiState, state: AuthState, event: Event, now: u32) -> (r: Result<
        (AuthState, Action),
        GatewayError,
    >)
        ensures
            Self::authenticated(api, state, event, now, r),
    {
        match state {
            AuthState::Unauthenticated => match event {
                Event::Request { authorization } => {
                    let header = match authorization {
                        Some(h) => h,
                        None => {
                            return Err(GatewayError::Unauthorized(Rejection::MissingAuthorization));
                        },
                    };
                    let token = match extract_bearer(header.as_str()) {
                        Some(t) => t,
                        None => {
                            return Err(GatewayError::Unauthorized(Rejection::MissingAuthorization));
                        },
                    };
                    Self::screen(api, api.decode_jwt_at(token.as_str(), now))
                },
                _ => Err(GatewayError::InternalError),
            },
            AuthState::SignatureValid(claims) => match event {
                Event::Store(Ok(reply)) => match present(reply) {
                    Some(true) => Err(GatewayError::Unauthorized(Rejection::TokenRevoked)),
                    Some(false) => Ok((AuthState::Done, Action::Proceed(AuthUser(claims)))),
                    None => Err(GatewayError::InternalError),
                },
                _ => Err(GatewayError::InternalError),
            },
            AuthState::Done => Err(GatewayError::InternalError),
        }
    }

    /// The reply to a request that failed authentication with `error`: the
    /// status of the failure, and a text that does not say why.
    pub fn rejection(error: GatewayError) -> (r: Reply)
        ensures
            r == (Reply::Failure { error, message: rejection_message(error) }),
    {
        match error {
            GatewayError::Unauthorized(_) => Reply::Failure { error, message: UNAUTHORIZED_MESSAGE },
            _ => Reply::Failure { error, message: INTERNAL_MESSAGE },
        }
    }

    /// Takes one step of authentication against the system clock, and turns
    /// a failure into its reply. Whatever the clock reads, the outcome is
    /// that of [`Self::authenticate_at`] for some instant.
    pub fn from_request_parts(api: &ApiState, state: AuthState, event: Event) -> (r: (AuthState, Action))
        ensures
            exists|now: u32, step: Result<(AuthState, Action), GatewayError>|
                {
                    &&& #[trigger] Self::authenticated(api, state, event, now, step)
                    &&& match step {
                        Ok(next) => r == next,
                        Err(error) => r == (
                            AuthState::Done,
                            Action::Respond(Reply::Failure { error, message: rejection_message(error) }),
                        ),
                    }
                },
    {
        let now = now_sec();
        let step = Self::authenticate_at(api, state, event, now);
        let ghost taken = step;
        let r = match step {
            Ok(next) => next,
            Err(error) => (AuthState::Done, Action::Respond(Self::rejection(error))),
        };
        assert(Self::authenticated(api, state, event, now, taken));
        r
    }
}

/// The step of a login whose CSRF state token is `fresh`.
///
/// A login begins by storing the token under its own value, for the
/// configured time. Once the store has it, the client is sent to the
/// identity provider with the token as the `state` of the request. If the
/// token has not the form of a state token, the store fails or answers out
/// of turn, or no address can be built, the login fails with an internal
/// error; for a token of another form nothing is sent to the store.
pub open spec fn login_transition(
    api: &ApiState,
    state: LoginState,
    event: Event,
    fresh: Seq<char>,
    r: Result<(LoginState, Action), GatewayError>,
) -> bool {
    match (state, event) {
        (LoginState::Start, Event::Begin) => if is_state_token(fresh) {
            &&& r matches Ok((LoginState::AwaitStore { csrf_state }, Action::Store(command)))
            &&& csrf_state@ == fresh
            &&& command@ == (StoreCommandView::Put { key: fresh, ttl_secs: api.redis.oauth_state_ttl })
        } else {
            refused(r, GatewayError::InternalError)
        },
        (LoginState::AwaitStore { csrf_state }, Event::Store(Ok(reply))) => if reply_stored(reply) {
            match authorization_address(api.secrets.client_id@, api.oauth.spec_redirect_uri(), csrf_state@) {
                Some(address) => {
                    &&& r matches Ok((LoginState::Done, Action::Respond(Reply::Redirect { location })))
                    &&& location@ == address
                },
                None => refused(r, GatewayError::InternalError),
            }
        } else {
            refused(r, GatewayError::InternalError)
        },
        _ => refused(r, GatewayError::InternalError),
    }
}

/// Takes one step of a login. `fresh` is the CSRF state token of a login
/// that begins; a login under way keeps the token it began with.
pub fn login_step(api: &ApiState, state: LoginState, event: Event, fresh: String) -> (r: Result<
    (LoginState, Action),
    GatewayError,
>)
    ensures
        login_transition(api, state, event, fresh@, r),
{
    match state {
        LoginState::Start => match event {
            Event::Begin => match api.store_oauth_state(fresh.as_str()) {
                Some(command) => Ok((LoginState::AwaitStore { csrf_state: fresh }, Action::Store(command))),
                None => Err(GatewayError::InternalError),
            },
            _ => Err(GatewayError::InternalError),
        },
        LoginState::AwaitStore { csrf_state } => match event {
            Event::Store(Ok(reply)) => {
                if !stored(reply) {
                    return Err(GatewayError::InternalError);
                }
                let redirect_uri = api.oauth.redirect_uri();
                let address = authorization_url(
                    api.secrets.client_id.as_str(),
                    redirect_uri.as_str(),
                    csrf_state.as_str(),
                );
                match Reply::redirect(address) {
                    Ok(reply) => Ok((LoginState::Done, Action::Respond(reply))),
                    Err(e) => Err(e),
                }
            },
            _ => Err(GatewayError::InternalError),
        },
        LoginState::Done => Err(GatewayError::InternalError),
    }
}

/// Draws a CSRF state token: two random UUIDs in a row, which carry 244
/// random bits between them.
fn fresh_state_token() -> (r: String)
    ensures
        is_state_token(r@),
{
    let first = random_uuid();
    let second = random_uuid();
    proof {
        lemma_two_uuids_are_a_state_token(first@, second@);
    }
    first.concat(second.as_str())
}

/// Takes one step of a login, with a fresh random token for a login that
/// begins. Whatever the generator gives, the outcome is that of
/// [`login_step`] for some token in the form of a state token.
pub fn login_impl(api: &ApiState, state: LoginState, event: Event) -> (r: Result<(LoginState, Action), GatewayError>)
    ensures
        exists|fresh: Seq<char>| is_state_token(fresh) && #[trigger] login_transition(api, state, event, fresh, r),
{
    let fresh = fresh_state_token();
    let ghost token = fresh@;
    let r = login_step(api, state, event, fresh);
    assert(is_state_token(token) && login_transition(api, state, event, token, r));
    r
}

/// Takes one step of a login and turns a failure into its reply.
pub fn login(api: &ApiState, state: LoginState, event: Event) -> (r: (LoginState, Action))
    ensures
        exists|fresh: Seq<char>, step: Result<(LoginState, Action), GatewayError>|
            {
                &&& is_state_token(fresh)
                &&& #[trigger] login_transition(api, state, event, fresh, step)
                &&& settled(step, LoginState::Done, LOGIN_FAILED_MESSAGE, r)
            },
{
    let step = login_impl(api, state, event);
    let ghost taken = step;
    let r = settle(step, LoginState::Done, LOGIN_FAILED_MESSAGE);
    proof {
        let fresh = choose|fresh: Seq<char>|
            is_state_token(fresh) && #[trigger] login_transition(api, state, event, fresh, taken);
        assert(is_state_token(fresh) && login_transition(api, state, event, fresh, taken));
    }
    r
}

/// The step of a callback at the instant `now`, for which `fresh` is the
/// id of the session token.
///
/// A callback begins by consuming its CSRF state token. A state that has not
/// the form of a state token was never issued: the callback is answered as
/// a bad request at once, and nothing is sent to the store. If the store
/// says that the token was not there, the callback is answered as a bad
/// request and nothing else is done. If it was there, the code is exchanged at the
/// provider, the profile is fetched with the access token that came back,
/// the user is recorded, and a session token is minted for the internal id
/// with the email and the name of the profile. A failed call to the provider
/// is an upstream error; a failure of the store or of the user store, an
/// answer out of turn, or a token that cannot be minted is an internal
/// error.
pub open spec fn callback_transition(
    api: &ApiState,
    state: CallbackState,
    event: Event,
    now: u32,
    fresh: Seq<char>,
    r: Result<(CallbackState, Action), GatewayError>,
) -> bool {
    match (state, event) {
        (CallbackState::Start, Event::Callback(query)) => if is_state_token(query.state@) {
            &&& r matches Ok((CallbackState::AwaitConsume { code }, Action::Store(command)))
            &&& code@ == query.code@
            &&& command@ == (StoreCommandView::Delete { key: query.state@ })
        } else {
            r == Ok::<(CallbackState, Action), GatewayError>(
                (
                    CallbackState::Done,
                    Action::Respond(Reply::Failure { error: GatewayError::BadRequest, message: INVALID_STATE_MESSAGE }),
                ),
            )
        },
        (CallbackState::AwaitConsume { code }, Event::Store(Ok(reply))) => match reply_removed(reply) {
            Some(true) => {
                &&& r matches Ok((CallbackState::AwaitExchange, Action::ExchangeCode(exchange)))
                &&& exchange.code@ == code@
                &&& exchange.client_id@ == api.secrets.client_id@
                &&& exchange.client_secret@ == api.secrets.client_secret@
                &&& exchange.redirect_uri@ == api.oauth.spec_redirect_uri()
            },
            Some(false) => r == Ok::<(CallbackState, Action), GatewayError>(
                (
                    CallbackState::Done,
                    Action::Respond(Reply::Failure { error: GatewayError::BadRequest, message: INVALID_STATE_MESSAGE }),
                ),
            ),
            None => refused(r, GatewayError::InternalError),
        },
        (CallbackState::AwaitExchange, Event::Exchanged(Ok(granted))) => {
            &&& r matches Ok((CallbackState::AwaitProfile, Action::FetchProfile { access_token }))
            &&& access_token@ == granted.access_token@
        },
        (CallbackState::AwaitExchange, Event::Exchanged(Err(_))) => refused(r, GatewayError::UpstreamError),
        (CallbackState::AwaitProfile, Event::Profile(Ok(profile))) => {
            &&& r matches Ok((CallbackState::AwaitUpsert { email, name }, Action::UpsertUser(user)))
            &&& email@ == profile.email@
            &&& name@ == profile.name@
            &&& user.sub@ == profile.sub@
            &&& user.email@ == profile.email@
            &&& user.name@ == profile.name@
        },
        (CallbackState::AwaitProfile, Event::Profile(Err(_))) => refused(r, GatewayError::UpstreamError),
        (CallbackState::AwaitUpsert { email, name }, Event::Upserted(Ok(id))) => match issued_token(
            id@,
            email@,
            name@,
            now,
            api.oauth.jwt.expires_in,
            fresh,
            api.secrets.jwt_secret@,
        ) {
            Ok(token) => {
                &&& r matches Ok((CallbackState::Done, Action::Respond(Reply::Token(response))))
                &&& response.token@ == token
            },
            Err(_) => refused(r, GatewayError::InternalError),
        },
        _ => refused(r, GatewayError::InternalError),
    }
}

/// Takes one step of a callback at the instant `now`. `fresh` becomes the id
/// of the session token, if this step mints it.
pub fn callback_step(api: &ApiState, state: CallbackState, event: Event, now: u32, fresh: String) -> (r: Result<
    (CallbackState, Action),
    GatewayError,
>)
    ensures
        callback_transition(api, state, event, now, fresh@, r),
{
    match state {
        CallbackState::Start => match event {
            Event::Callback(query) => match api.consume_oauth_state(query.state.as_str()) {
                Some(command) => Ok((CallbackState::AwaitConsume { code: query.code }, Action::Store(command))),
                None => Ok(
                    (
                        CallbackState::Done,
                        Action::Respond(
                            Reply::Failure { error: GatewayError::BadRequest, message: INVALID_STATE_MESSAGE },
                        ),
                    ),
                ),
            },
            _ => Err(GatewayError::InternalError),
        },
        CallbackState::AwaitConsume { code } => match event {
            Event::Store(Ok(reply)) => match removed(reply) {
                Some(true) => {
                    let exchange = CodeExchange {
                        code,
                        client_id: api.secrets.client_id.clone(),
                        client_secret: api.secrets.client_secret.clone(),
                        redirect_uri: api.oauth.redirect_uri(),
                    };
                    Ok((CallbackState::AwaitExchange, Action::ExchangeCode(exchange)))
                },
                Some(false) => Ok(
                    (
                        CallbackState::Done,
                        Action::Respond(
                            Reply::Failure { error: GatewayError::BadRequest, message: INVALID_STATE_MESSAGE },
                        ),
                    ),
                ),
                None => Err(GatewayError::InternalError),
            },
            _ => Err(GatewayError::InternalError),
        },
        CallbackState::AwaitExchange => match event {
            Event::Exchanged(Ok(granted)) => Ok(
                (CallbackState::AwaitProfile, Action::FetchProfile { access_token: granted.access_token }),
            ),
            Event::Exchanged(Err(_)) => Err(GatewayError::UpstreamError),
            _ => Err(GatewayError::InternalError),
        },
        CallbackState::AwaitProfile => match event {
            Event::Profile(Ok(profile)) => {
                let email = profile.email.clone();
                let name = profile.name.clone();
                Ok((CallbackState::AwaitUpsert { email, name }, Action::UpsertUser(profile)))
            },
            Event::Profile(Err(_)) => Err(GatewayError::UpstreamError),
            _ => Err(GatewayError::InternalError),
        },
        CallbackState::AwaitUpsert { email, name } => match event {
            Event::Upserted(Ok(id)) => {
                let minted = api.issue_jwt_at(id.as_str(), email.as_str(), name.as_str(), now, fresh);
                match Reply::token(minted) {
                    Ok(reply) => Ok((CallbackState::Done, Action::Respond(reply))),
                    Err(e) => Err(e),
                }
            },
            _ => Err(GatewayError::InternalError),
        },
        CallbackState::Done => Err(GatewayError::InternalError),
    }
}

/// Takes one step of a callback against the system clock, with a fresh
/// random id for the session token. Whatever the clock and the generator
/// give, the outcome is that of [`callback_step`] for some instant and some
/// id in the form of a hyphenated UUID.
pub fn callback_impl(api: &ApiState, state: CallbackState, event: Event) -> (r: Result<
    (CallbackState, Action),
    GatewayError,
>)
    ensures
        exists|now: u32, fresh: Seq<char>|
            is_uuid_text(fresh) && #[trigger] callback_transition(api, state, event, now, fresh, r),
{
    let now = now_sec();
    let fresh = random_uuid();
    let ghost id = fresh@;
    let r = callback_step(api, state, event, now, fresh);
    assert(is_uuid_text(id) && callback_transition(api, state, event, now, id, r));
    r
}

/// Takes one step of a callback and turns a failure into its reply.
pub fn callback(api: &ApiState, state: CallbackState, event: Event) -> (r: (CallbackState, Action))
    ensures
        exists|now: u32, fresh: Seq<char>, step: Result<(CallbackState, Action), GatewayError>|
            {
                &&& is_uuid_text(fresh)
                &&& #[trigger] callback_transition(api, state, event, now, fresh, step)
                &&& settled(step, CallbackState::Done, LOGIN_FAILED_MESSAGE, r)
            },
{
    let step = callback_impl(api, state, event);
    let ghost taken = step;
    let r = settle(step, CallbackState::Done, LOGIN_FAILED_MESSAGE);
    proof {
        let (now, fresh) = choose|now: u32, fresh: Seq<char>|
            is_uuid_text(fresh) && #[trigger] callback_transition(api, state, event, now, fresh, taken);
        assert(is_uuid_text(fresh) && callback_transition(api, state, event, now, fresh, taken));
    }
    r
}

/// The step of a logout at the instant `now`.
///
/// The logout of an authenticated user revokes the token of the request for
/// what is left of its life. A token that has expired needs no revocation:
/// nothing is written, and the logout is done. Once the store has the
/// revocation, the logout is answered with no content. If the store fails or
/// answers out of turn, the logout fails with an internal error.
pub open spec fn logout_transition(
    api: &ApiState,
    state: LogoutState,
    event: Event,
    now: u32,
    r: Result<(LogoutState, Action), GatewayError>,
) -> bool {
    match (state, event) {
        (LogoutState::Start, Event::Authenticated(user)) => match revocation(user.0@, now) {
            Some(entry) => {
                &&& r matches Ok((LogoutState::AwaitStore, Action::Store(command)))
                &&& command@ == entry
            },
            None => r == Ok::<(LogoutState, Action), GatewayError>((LogoutState::Done, Action::Respond(Reply::NoContent))),
        },
        (LogoutState::AwaitStore, Event::Store(Ok(reply))) => if reply_stored(reply) {
            r == Ok::<(LogoutState, Action), GatewayError>((LogoutState::Done, Action::Respond(Reply::NoContent)))
        } else {
            refused(r, GatewayError::InternalError)
        },
        _ => refused(r, GatewayError::InternalError),
    }
}

/// Takes one step of a logout at the instant `now`.
pub fn logout_step(api: &ApiState, state: LogoutState, event: Event, now: u32) -> (r: Result<
    (LogoutState, Action),
    GatewayError,
>)
    ensures
        logout_transition(api, state, event, now, r),
{
    match state {
        LogoutState::Start => match event {
            Event::Authenticated(user) => match api.revoke_jwt_at(&user.0, now) {
                Some(command) => Ok((LogoutState::AwaitStore, Action::Store(command))),
                None => Ok((LogoutState::Done, Action::Respond(Reply::NoContent))),
            },
            _ => Err(GatewayError::InternalError),
        },
        LogoutState::AwaitStore => match event {
            Event::Store(Ok(reply)) => if stored(reply) {
                Ok((LogoutState::Done, Action::Respond(Reply::NoContent)))
            } else {
                Err(GatewayError::InternalError)
            },
            _ => Err(GatewayError::InternalError),
        },
        LogoutState::Done => Err(GatewayError::InternalError),
    }
}

/// Takes one step of a logout against the system clock. Whatever the clock
/// reads, the outcome is that of [`logout_step`] for some instant.
pub fn logout_impl(api: &ApiState, state: LogoutState, event: Event) -> (r: Result<(LogoutState, Action), GatewayError>)
    ensures
        exists|now: u32| #[trigger] logout_transition(api, state, event, now, r),
{
    let now = now_sec();
    logout_step(api, state, event, now)
}

/// Takes one step of a logout and turns a failure into its reply.
pub fn logout(api: &ApiState, state: LogoutState, event: Event) -> (r: (LogoutState, Action))
    ensures
        exists|now: u32, step: Result<(LogoutState, Action), GatewayError>|
            {
                &&& #[trigger] logout_transition(api, state, event, now, step)
                &&& settled(step, LogoutState::Done, LOGOUT_FAILED_MESSAGE, r)
            },
{
    let step = logout_impl(api, state, event);
    let ghost taken = step;
    let r = settle(step, LogoutState::Done, LOGOUT_FAILED_MESSAGE);
    proof {
        let now = choose|now: u32| #[trigger] logout_transition(api, state, event, now, taken);
        assert(logout_transition(api, state, event, now, taken));
    }
    r
}

/// Answers the question who the user is: with the claims of the session.
pub fn info(user: AuthUser) -> (r: Claims)
    ensures
        r == user.0,
{
    user.0
}

/// Lists the devices of the kind asked for. None are kept, so the list is
/// empty for every user and kind.
pub fn devices(user: &AuthUser, request: &DevicesRequest) -> (r: Vec<Device>)
    ensures
        r@ == Seq::<Device>::empty(),
{
    Vec::new()
}

} // verus!
