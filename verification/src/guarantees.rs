//! What session control guarantees, given a store that behaves as
//! [`StoreModel`] says.
//!
//! The store is shared with other traffic. Each law therefore lets any
//! commands run between the steps it speaks of, and asks of them only that
//! they leave the key in question alone. The gateway's own logins and
//! callbacks keep to that: all they send is about CSRF state tokens, whose
//! form keeps them out of the namespace of the revocations.

use vstd::prelude::*;
use crate::controllers::{bearer_token, callback_transition, login_transition, logout_transition, refused};
use crate::controllers::INVALID_STATE_MESSAGE;
use crate::controllers::{Action, AuthState, AuthUser, CallbackState, Event, LoginState, LogoutState, Reply};
use crate::error::{GatewayError, Rejection};
use crate::models::{Claims, OAuthCallbackQuery};
use crate::redirect::authorization_address;
use crate::state::{revocation, ApiState};
use crate::store::{command_key, deletes, in_revocation_namespace, is_state_token, puts};
use crate::store::{leaves_alone, lemma_absent_stays_absent, lemma_untouched_key_keeps_its_lapse, never_puts};
use crate::store::lemma_state_tokens_are_no_revocations;
use crate::store::{reply_present, reply_removed, revoked_key, StoreCommandView, StoreModel, StoreReply, Timed};
use crate::token::{issued_token, token_claims, TokenError};

verus! {

/// The command that stores the CSRF state token `state` for `ttl` seconds.
pub open spec fn store_state(state: Seq<char>, ttl: u64) -> StoreCommandView {
    StoreCommandView::Put { key: state, ttl_secs: ttl }
}

/// The command that consumes the CSRF state token `state`.
pub open spec fn consume_state(state: Seq<char>) -> StoreCommandView {
    StoreCommandView::Delete { key: state }
}

/// The command that asks whether the token id `jti` was revoked.
pub open spec fn ask_revoked(jti: Seq<char>) -> StoreCommandView {
    StoreCommandView::Exists { key: revoked_key(jti) }
}

/// A CSRF state token that was stored is found by the callback that comes
/// in time.
///
/// Let a token be stored at `issued` for `ttl` seconds, and let nothing write
/// or delete its key until a callback consumes it at `first`, before it
/// lapses. Then the store reports that the token was there.
pub proof fn lemma_stored_state_is_found(
    store: StoreModel,
    state: Seq<char>,
    ttl: u64,
    issued: int,
    between: Seq<Timed>,
    first: int,
)
    requires
        ttl > 0,
        issued <= first < issued + ttl,
        leaves_alone(between, state),
    ensures
        reply_removed(
            store.apply(store_state(state, ttl), issued).run(between).reply(consume_state(state), first),
        ) == Some(true),
{
    let stored = store.apply(store_state(state, ttl), issued);
    lemma_untouched_key_keeps_its_lapse(stored, between, state);
}

/// A CSRF state token that was consumed is gone.
///
/// Whatever the store holds, once a callback has consumed a token, found or
/// not, no later callback finds it, as long as the token is not stored
/// again.
pub proof fn lemma_consumed_state_is_gone(
    store: StoreModel,
    state: Seq<char>,
    first: int,
    after: Seq<Timed>,
    second: int,
)
    requires
        never_puts(after, state),
    ensures
        reply_removed(store.apply(consume_state(state), first).run(after).reply(consume_state(state), second))
            == Some(false),
{
    let taken = store.apply(consume_state(state), first);
    lemma_absent_stays_absent(taken, after, state, second);
}

/// A CSRF state token is consumed exactly once.
///
/// Let a token be stored at `issued` for `ttl` seconds, and let nothing
/// write or delete its key until a first callback consumes it at `first`,
/// before it lapses. Then the first callback finds it, and a callback at any
/// later point does not, as long as the token is not stored again.
pub proof fn lemma_state_is_consumed_once(
    store: StoreModel,
    state: Seq<char>,
    ttl: u64,
    issued: int,
    between: Seq<Timed>,
    first: int,
    after: Seq<Timed>,
    second: int,
)
    requires
        ttl > 0,
        issued <= first < issued + ttl,
        leaves_alone(between, state),
        never_puts(after, state),
    ensures
        ({
            let held = store.apply(store_state(state, ttl), issued).run(between);
            let spent = held.apply(consume_state(state), first).run(after);
            &&& reply_removed(held.reply(consume_state(state), first)) == Some(true)
            &&& reply_removed(spent.reply(consume_state(state), second)) == Some(false)
        }),
{
    lemma_stored_state_is_found(store, state, ttl, issued, between, first);
    let held = store.apply(store_state(state, ttl), issued).run(between);
    lemma_consumed_state_is_gone(held, state, first, after, second);
}

/// A CSRF state token that is not consumed in time is never consumed.
///
/// Let a token be stored at `issued` for `ttl` seconds. Whatever runs in the
/// meantime, short of storing it again, a callback that arrives when the
/// `ttl` seconds have passed does not find it.
pub proof fn lemma_lapsed_state_is_not_consumed(
    store: StoreModel,
    state: Seq<char>,
    ttl: u64,
    issued: int,
    between: Seq<Timed>,
    late: int,
)
    requires
        ttl > 0,
        late >= issued + ttl,
        never_puts(between, state),
    ensures
        reply_removed(
            store.apply(store_state(state, ttl), issued).run(between).reply(consume_state(state), late),
        ) == Some(false),
{
    let stored = store.apply(store_state(state, ttl), issued);
    lemma_absent_stays_absent(stored, between, state, late);
}

/// A callback is honoured once.
///
/// Under the conditions of [`lemma_state_is_consumed_once`], the callback
/// that consumes the token first goes on to exchange its code, and a
/// callback that presents the same token later is answered as a bad request,
/// with status 400, and does nothing else.
pub proof fn lemma_callback_is_honoured_once(
    api: &ApiState,
    store: StoreModel,
    state: Seq<char>,
    ttl: u64,
    issued: int,
    between: Seq<Timed>,
    first: int,
    after: Seq<Timed>,
    second: int,
    code: String,
    now: u32,
    fresh: Seq<char>,
    one: Result<(CallbackState, Action), GatewayError>,
    two: Result<(CallbackState, Action), GatewayError>,
)
    requires
        ttl > 0,
        issued <= first < issued + ttl,
        leaves_alone(between, state),
        never_puts(after, state),
        ({
            let held = store.apply(store_state(state, ttl), issued).run(between);
            let spent = held.apply(consume_state(state), first).run(after);
            &&& callback_transition(
                api,
                CallbackState::AwaitConsume { code },
                Event::Store(Ok(held.reply(consume_state(state), first))),
                now,
                fresh,
                one,
            )
            &&& callback_transition(
                api,
                CallbackState::AwaitConsume { code },
                Event::Store(Ok(spent.reply(consume_state(state), second))),
                now,
                fresh,
                two,
            )
        }),
    ensures
        ({
            &&& one matches Ok((CallbackState::AwaitExchange, Action::ExchangeCode(exchange)))
            &&& exchange.code@ == code@
        }),
        ({
            &&& two matches Ok((CallbackState::Done, Action::Respond(reply)))
            &&& reply.spec_status() == 400
            &&& reply == (Reply::Failure { error: GatewayError::BadRequest, message: INVALID_STATE_MESSAGE })
        }),
{
    lemma_state_is_consumed_once(store, state, ttl, issued, between, first, after, second);
}

/// A revocation lasts exactly as long as the token would have.
///
/// Let claims be revoked at `revoked_at`, before their expiry, and let
/// nothing write or delete the revocation. Then the token id is listed as
/// revoked at every instant before the expiry, and no longer from the expiry
/// on: the entry does not outlive the token.
pub proof fn lemma_revocation_lasts_until_expiry(
    store: StoreModel,
    claims: Claims,
    revoked_at: u32,
    between: Seq<Timed>,
    now: int,
)
    requires
        revoked_at < claims.exp,
        revoked_at <= now,
        leaves_alone(between, revoked_key(claims.jti@)),
    ensures
        revocation(claims@, revoked_at) == Some(
            StoreCommandView::Put { key: revoked_key(claims.jti@), ttl_secs: (claims.exp - revoked_at) as u64 },
        ),
        reply_present(
            store.apply(revocation(claims@, revoked_at)->0, revoked_at as int).run(between).reply(
                ask_revoked(claims.jti@),
                now,
            ),
        ) == Some(now < claims.exp),
{
    let entry = revocation(claims@, revoked_at)->0;
    let listed = store.apply(entry, revoked_at as int);
    lemma_untouched_key_keeps_its_lapse(listed, between, revoked_key(claims.jti@));
}

/// A revoked token is refused as revoked.
///
/// Let the claims of a verified token be revoked at `revoked_at`, before
/// their expiry, and let the token be presented again at `now`, while it is
/// still unexpired. When the store answers the question whether it was
/// revoked, authentication fails as unauthorized, with the reason that the
/// token was revoked.
pub proof fn lemma_revoked_token_is_refused(
    api: &ApiState,
    store: StoreModel,
    claims: Claims,
    revoked_at: u32,
    between: Seq<Timed>,
    now: u32,
    r: Result<(AuthState, Action), GatewayError>,
)
    requires
        revoked_at <= now < claims.exp,
        leaves_alone(between, revoked_key(claims.jti@)),
        AuthUser::authenticated(
            api,
            AuthState::SignatureValid(claims),
            Event::Store(
                Ok(
                    store.apply(revocation(claims@, revoked_at)->0, revoked_at as int).run(between).reply(
                        ask_revoked(claims.jti@),
                        now as int,
                    ),
                ),
            ),
            now,
            r,
        ),
    ensures
        refused(r, GatewayError::Unauthorized(Rejection::TokenRevoked)),
        r matches Err(e) && e.spec_status() == 401,
{
    lemma_revocation_lasts_until_expiry(store, claims, revoked_at, between, now as int);
}

/// A logout locks its token out.
///
/// Let a request carry a bearer token that verifies at `now`, after the
/// user of the same token has logged out at `revoked_at`, before the token
/// expired, and the store has carried out what that logout sent; and let
/// nothing else write or delete the revocation. Then the logout sent one
/// command, authentication of the request asks the store for the id of the
/// token, and on the store's answer the request is refused as unauthorized,
/// with the reason that the token was revoked.
pub proof fn lemma_logout_locks_the_token_out(
    api: &ApiState,
    store: StoreModel,
    header: String,
    user: AuthUser,
    revoked_at: u32,
    between: Seq<Timed>,
    now: u32,
    out: Result<(LogoutState, Action), GatewayError>,
    asked: Result<(AuthState, Action), GatewayError>,
    answered: Result<(AuthState, Action), GatewayError>,
)
    requires
        bearer_token(header@) is Some,
        token_claims(bearer_token(header@)->0, api.secrets.jwt_secret@) == Some(user.0@),
        revoked_at <= now < user.0.exp,
        leaves_alone(between, revoked_key(user.0.jti@)),
        logout_transition(api, LogoutState::Start, Event::Authenticated(user), revoked_at, out),
        AuthUser::authenticated(
            api,
            AuthState::Unauthenticated,
            Event::Request { authorization: Some(header) },
            now,
            asked,
        ),
        out matches Ok((_, Action::Store(entry))) && asked matches Ok((waiting, Action::Store(question)))
            ==> AuthUser::authenticated(
            api,
            waiting,
            Event::Store(Ok(store.apply(entry@, revoked_at as int).run(between).reply(question@, now as int))),
            now,
            answered,
        ),
    ensures
        out matches Ok((LogoutState::AwaitStore, Action::Store(_))),
        asked matches Ok((AuthState::SignatureValid(_), Action::Store(_))),
        refused(answered, GatewayError::Unauthorized(Rejection::TokenRevoked)),
{
    lemma_revocation_lasts_until_expiry(store, user.0, revoked_at, between, now as int);
}

/// The revocation of an expired token writes nothing.
///
/// A logout at or after the expiry of the token sends no command to the
/// store and is answered at once, with no content.
pub proof fn lemma_late_logout_writes_nothing(
    api: &ApiState,
    user: AuthUser,
    now: u32,
    r: Result<(LogoutState, Action), GatewayError>,
)
    requires
        now >= user.0.exp,
        logout_transition(api, LogoutState::Start, Event::Authenticated(user), now, r),
    ensures
        revocation(user.0@, now) is None,
        r == Ok::<(LogoutState, Action), GatewayError>((LogoutState::Done, Action::Respond(Reply::NoContent))),
{
}

/// A failure of the store never lets a request through.
///
/// While it is open whether a token was revoked, a failure of the store, or
/// an answer that is none to the question, ends authentication with an
/// internal error.
pub proof fn lemma_store_failure_fails_closed(
    api: &ApiState,
    claims: Claims,
    event: Event,
    now: u32,
    r: Result<(AuthState, Action), GatewayError>,
)
    requires
        AuthUser::authenticated(api, AuthState::SignatureValid(claims), event, now, r),
        !(event matches Event::Store(Ok(reply)) && reply_present(reply) is Some),
    ensures
        refused(r, GatewayError::InternalError),
{
}

/// A request is let through only on the store's word that its token is not
/// revoked.
///
/// Whatever the state and the event, a step of authentication that lets the
/// request through was taken on a verified token, for which the store has
/// just answered that it is not listed, and the user that is let through
/// carries the claims of that token.
pub proof fn lemma_only_the_unrevoked_proceed(
    api: &ApiState,
    state: AuthState,
    event: Event,
    now: u32,
    r: Result<(AuthState, Action), GatewayError>,
)
    requires
        AuthUser::authenticated(api, state, event, now, r),
        r matches Ok((_, Action::Proceed(_))),
    ensures
        ({
            &&& state matches AuthState::SignatureValid(claims)
            &&& event matches Event::Store(Ok(reply))
            &&& reply_present(reply) == Some(false)
            &&& r matches Ok((_, Action::Proceed(user)))
            &&& user.0@ == claims@
        }),
{
}

/// A login redirects with the token that it stored.
///
/// Let a login begin with the token `fresh`, and let the store confirm the
/// command that the first step sends. Then that command stored `fresh` under
/// its own value, for the configured time, and the second step sends the
/// client to the authorization address whose `state` is `fresh`.
pub proof fn lemma_login_redirects_with_the_stored_state(
    api: &ApiState,
    fresh: Seq<char>,
    other: Seq<char>,
    one: Result<(LoginState, Action), GatewayError>,
    two: Result<(LoginState, Action), GatewayError>,
)
    requires
        login_transition(api, LoginState::Start, Event::Begin, fresh, one),
        one is Ok,
        login_transition(api, one->Ok_0.0, Event::Store(Ok(StoreReply::Stored)), other, two),
        two is Ok,
    ensures
        ({
            &&& one matches Ok((_, Action::Store(command)))
            &&& command@ == store_state(fresh, api.redis.oauth_state_ttl)
        }),
        ({
            &&& two matches Ok((LoginState::Done, Action::Respond(reply)))
            &&& reply matches Reply::Redirect { location }
            &&& reply.spec_status() == 302
            &&& Some(location@) == authorization_address(api.secrets.client_id@, api.oauth.spec_redirect_uri(), fresh)
        }),
{
}

/// A callback goes through its steps in order, and past the first only if
/// the store found its state.
///
/// Whatever the state and the event, a step of a callback that goes on to
/// exchange the code was taken on the store's word that the CSRF state token
/// was there; one that goes on to fetch the profile, on the provider's
/// answer to the exchange; one that goes on to record the user, on the
/// provider's profile; and one that hands out a session token, on the user
/// store's answer, for the id that it gave.
pub proof fn lemma_callback_steps_in_order(
    api: &ApiState,
    state: CallbackState,
    event: Event,
    now: u32,
    fresh: Seq<char>,
    r: Result<(CallbackState, Action), GatewayError>,
)
    requires
        callback_transition(api, state, event, now, fresh, r),
    ensures
        r matches Ok((CallbackState::AwaitExchange, _)) ==> {
            &&& state is AwaitConsume
            &&& event matches Event::Store(Ok(reply))
            &&& reply_removed(reply) == Some(true)
        },
        r matches Ok((CallbackState::AwaitProfile, _)) ==> {
            &&& state is AwaitExchange
            &&& event matches Event::Exchanged(Ok(_))
        },
        r matches Ok((CallbackState::AwaitUpsert { .. }, _)) ==> {
            &&& state is AwaitProfile
            &&& event matches Event::Profile(Ok(_))
        },
        r matches Ok((_, Action::Respond(Reply::Token(response)))) ==> {
            &&& state matches CallbackState::AwaitUpsert { email, name }
            &&& event matches Event::Upserted(Ok(id))
            &&& Ok::<Seq<char>, TokenError>(response.token@) == issued_token(
                id@,
                email@,
                name@,
                now,
                api.oauth.jwt.expires_in,
                fresh,
                api.secrets.jwt_secret@,
            )
        },
{
}

/// A callback leaves the revocations alone.
///
/// Whatever the state and the event, and so whatever state a callback
/// presents, a command that a step of a callback sends to the store is about
/// a CSRF state token: it neither deletes nor writes the revocation of any
/// token id.
pub proof fn lemma_callback_leaves_revocations_alone(
    api: &ApiState,
    state: CallbackState,
    event: Event,
    now: u32,
    fresh: Seq<char>,
    r: Result<(CallbackState, Action), GatewayError>,
    jti: Seq<char>,
)
    requires
        callback_transition(api, state, event, now, fresh, r),
    ensures
        r matches Ok((_, Action::Store(c))) ==> {
            &&& is_state_token(command_key(c@))
            &&& !deletes(c@, revoked_key(jti))
            &&& !puts(c@, revoked_key(jti))
        },
{
    match r {
        Ok((_, Action::Store(c))) => {
            lemma_state_tokens_are_no_revocations(command_key(c@), jti);
        },
        _ => {},
    }
}

/// A login leaves the revocations alone.
///
/// Whatever the state, the event and the token that the generator gave, a
/// command that a step of a login sends to the store is about a CSRF state
/// token: it neither deletes nor writes the revocation of any token id.
pub proof fn lemma_login_leaves_revocations_alone(
    api: &ApiState,
    state: LoginState,
    event: Event,
    fresh: Seq<char>,
    r: Result<(LoginState, Action), GatewayError>,
    jti: Seq<char>,
)
    requires
        login_transition(api, state, event, fresh, r),
    ensures
        r matches Ok((_, Action::Store(c))) ==> {
            &&& is_state_token(command_key(c@))
            &&& !deletes(c@, revoked_key(jti))
            &&& !puts(c@, revoked_key(jti))
        },
{
    match r {
        Ok((_, Action::Store(c))) => {
            lemma_state_tokens_are_no_revocations(command_key(c@), jti);
        },
        _ => {},
    }
}

/// No revocation is ever deleted, and only a logout writes one.
///
/// Whatever the state and the event, a command that a step of
/// authentication sends only asks, and a command that a step of a logout
/// sends writes the revocation of the user's own token id and deletes
/// nothing.
pub proof fn lemma_revocations_are_only_written_by_logout(
    api: &ApiState,
    auth: AuthState,
    logout: LogoutState,
    event: Event,
    now: u32,
    asked: Result<(AuthState, Action), GatewayError>,
    out: Result<(LogoutState, Action), GatewayError>,
    key: Seq<char>,
)
    requires
        AuthUser::authenticated(api, auth, event, now, asked),
        logout_transition(api, logout, event, now, out),
    ensures
        asked matches Ok((_, Action::Store(c))) ==> c@ is Exists,
        out matches Ok((_, Action::Store(c))) ==> {
            &&& !deletes(c@, key)
            &&& event matches Event::Authenticated(user)
            &&& c@ matches StoreCommandView::Put { key: written, .. }
            &&& written == revoked_key(user.0.jti@)
        },
{
}

/// A callback with a forged state is refused before anything is sent.
///
/// Let a callback present a state that has not the form of a state token;
/// every key in the namespace of the revocations is such a state. Then the
/// callback is answered as a bad request, with status 400, and no command
/// goes to the store.
pub proof fn lemma_forged_state_is_refused_unsent(
    api: &ApiState,
    query: OAuthCallbackQuery,
    now: u32,
    fresh: Seq<char>,
    r: Result<(CallbackState, Action), GatewayError>,
)
    requires
        !is_state_token(query.state@) || in_revocation_namespace(query.state@),
        callback_transition(api, CallbackState::Start, Event::Callback(query), now, fresh, r),
    ensures
        r == Ok::<(CallbackState, Action), GatewayError>(
            (
                CallbackState::Done,
                Action::Respond(Reply::Failure { error: GatewayError::BadRequest, message: INVALID_STATE_MESSAGE }),
            ),
        ),
        r matches Ok((_, Action::Respond(reply))) && reply.spec_status() == 400,
{
    if is_state_token(query.state@) {
        lemma_state_tokens_are_no_revocations(query.state@, Seq::<char>::empty());
    }
}

} // verus!
