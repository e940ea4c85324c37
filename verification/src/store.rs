//! The gateway's side of the ephemeral key-value store.
//!
//! The gateway never talks to the store itself. [`RedisClient`] says which
//! command an operation sends and what a reply means; the caller sends the
//! command and hands the reply back. [`StoreModel`] states what the gateway
//! assumes of a store that honours time-to-live, and the laws of CSRF state
//! and revocation are proved against it.
//!
//! The store holds two families of keys. A CSRF state token is its own key,
//! and only a text in the form of such a token is ever written or deleted as
//! one. A revocation is kept under a namespace, in which no state token
//! lies. So what a login or a callback sends cannot touch a revocation,
//! whatever state a callback presents.

use vstd::prelude::*;
use vstd::string::{StrSliceExecFns, StringExecFns};

verus! {

/// A command for the ephemeral key-value store.
#[derive(Debug, Clone, PartialEq, Eq)]
pub enum StoreCommand {
    /// Write `key` with the value 1, to disappear after `ttl_secs` seconds.
    Put { key: String, ttl_secs: u64 },
    /// Delete `key` and report how many keys were removed.
    Delete { key: String },
    /// Report whether `key` is present.
    Exists { key: String },
}

/// The mathematical value of a [`StoreCommand`].
pub enum StoreCommandView {
    Put { key: Seq<char>, ttl_secs: u64 },
    Delete { key: Seq<char> },
    Exists { key: Seq<char> },
}

impl View for StoreCommand {
    type V = StoreCommandView;

    open spec fn view(&self) -> StoreCommandView {
        match self {
            StoreCommand::Put { key, ttl_secs } => StoreCommandView::Put { key: key@, ttl_secs: *ttl_secs },
            StoreCommand::Delete { key } => StoreCommandView::Delete { key: key@ },
            StoreCommand::Exists { key } => StoreCommandView::Exists { key: key@ },
        }
    }
}

/// The mathematical value of an optional command.
pub open spec fn command_view(command: Option<StoreCommand>) -> Option<StoreCommandView> {
    match command {
        Some(c) => Some(c@),
        None => None,
    }
}

/// What the store answers to a command.
#[derive(Debug, Clone, Copy, PartialEq, Eq, Structural)]
pub enum StoreReply {
    /// A `Put` was carried out.
    Stored,
    /// A `Delete` removed this many keys.
    Deleted(i64),
    /// Whether the key of an `Exists` was present.
    Present(bool),
}

/// A failure of the store or of the connection to it. It is never read as
/// "not found".
#[derive(Debug, Clone, PartialEq, Eq)]
pub struct StoreError {
    /// What went wrong, for the log.
    pub detail: String,
}

/// The namespace under which revoked token ids are kept, apart from the
/// other keys of a shared store.
pub open spec fn revoked_prefix() -> Seq<char> {
    "jwt:revoked:"@
}

/// The key under which the token id `jti` is listed as revoked.
pub open spec fn revoked_key(jti: Seq<char>) -> Seq<char> {
    revoked_prefix() + jti
}

/// Whether `key` lies in the namespace of the revocations.
pub open spec fn in_revocation_namespace(key: Seq<char>) -> bool {
    revoked_prefix().is_prefix_of(key)
}

/// Whether `c` is a digit of lowercase hexadecimal.
pub open spec fn is_hex_digit(c: char) -> bool {
    ('0' <= c && c <= '9') || ('a' <= c && c <= 'f')
}

/// Whether `c` can stand at position `i` of a UUID in its hyphenated form: a
/// hyphen at the positions 8, 13, 18 and 23, and a digit of lowercase
/// hexadecimal everywhere else.
pub open spec fn fits_uuid(i: int, c: char) -> bool {
    if i == 8 || i == 13 || i == 18 || i == 23 {
        c == '-'
    } else {
        is_hex_digit(c)
    }
}

/// Whether `text` has the form of a hyphenated UUID in lowercase: 36
/// characters, each fit for its position.
pub open spec fn is_uuid_text(text: Seq<char>) -> bool {
    &&& text.len() == 36
    &&& forall|i: int| 0 <= i < 36 ==> fits_uuid(i, #[trigger] text[i])
}

/// Whether `text` has the form of a CSRF state token: two hyphenated UUIDs
/// in a row. Only such texts are keys of CSRF state.
pub open spec fn is_state_token(text: Seq<char>) -> bool {
    &&& text.len() == 72
    &&& forall|i: int| 0 <= i < 72 ==> fits_uuid(if i < 36 { i } else { i - 36 }, #[trigger] text[i])
}

/// Two hyphenated UUIDs in a row are a state token.
pub proof fn lemma_two_uuids_are_a_state_token(first: Seq<char>, second: Seq<char>)
    requires
        is_uuid_text(first),
        is_uuid_text(second),
    ensures
        is_state_token(first + second),
{
    let text = first + second;
    assert forall|i: int| 0 <= i < 72 implies fits_uuid(if i < 36 { i } else { i - 36 }, #[trigger] text[i]) by {
        if i < 36 {
            assert(text[i] == first[i]);
        } else {
            assert(text[i] == second[i - 36]);
        }
    }
}

/// The keys of CSRF state and the keys of revocations are apart: no state
/// token lies in the namespace of the revocations, so none is the key of a
/// revocation.
pub proof fn lemma_state_tokens_are_no_revocations(text: Seq<char>, jti: Seq<char>)
    requires
        is_state_token(text),
    ensures
        !in_revocation_namespace(text),
        text != revoked_key(jti),
{
    reveal_strlit("jwt:revoked:");
    assert(fits_uuid(0, text[0]));
    assert(revoked_prefix()[0] == 'j');
    assert(revoked_key(jti)[0] == 'j');
    if in_revocation_namespace(text) {
        assert(text.subrange(0, revoked_prefix().len() as int)[0] == text[0]);
    }
}

/// Tells whether a text has the form of a CSRF state token.
pub fn has_state_form(text: &str) -> (r: bool)
    ensures
        r == is_state_token(text@),
{
    if text.unicode_len() != 72 {
        return false;
    }
    let mut i: usize = 0;
    while i < 72
        invariant
            i <= 72,
            text@.len() == 72,
            forall|j: int| 0 <= j < i ==> fits_uuid(if j < 36 { j } else { j - 36 }, #[trigger] text@[j]),
        decreases 72 - i,
    {
        let c = text.get_char(i);
        let at = if i < 36 {
            i
        } else {
            i - 36
        };
        let fits = if at == 8 || at == 13 || at == 18 || at == 23 {
            c == '-'
        } else {
            ('0' <= c && c <= '9') || ('a' <= c && c <= 'f')
        };
        if !fits {
            assert(!fits_uuid(if i < 36 { i as int } else { i - 36 }, text@[i as int]));
            return false;
        }
        i += 1;
    }
    true
}

/// The gateway's operations on the store, as the commands they send and the
/// meaning of the replies.
#[derive(Debug, Clone, Copy, Default, PartialEq, Eq)]
pub struct RedisClient {}

impl RedisClient {
    /// The command that stores a CSRF state token: the token is its own
    /// key, and it disappears after `ttl_secs` seconds. There is none for a
    /// text that has not the form of a state token: no other key is written
    /// on behalf of a login.
    pub fn store_oauth_state(&self, state: &str, ttl_secs: u64) -> (r: Option<StoreCommand>)
        ensures
            command_view(r) == if is_state_token(state@) {
                Some(StoreCommandView::Put { key: state@, ttl_secs })
            } else {
                None
            },
    {
        if has_state_form(state) {
            Some(StoreCommand::Put { key: String::from_str(state), ttl_secs })
        } else {
            None
        }
    }

    /// The command that consumes a CSRF state token: it deletes the key and
    /// reports whether there was one, in a single step. There is none for a
    /// text that has not the form of a state token: such a state was never
    /// issued, and no other key is deleted on behalf of a callback.
    pub fn consume_oauth_state(&self, state: &str) -> (r: Option<StoreCommand>)
        ensures
            command_view(r) == if is_state_token(state@) {
                Some(StoreCommandView::Delete { key: state@ })
            } else {
                None
            },
    {
        if has_state_form(state) {
            Some(StoreCommand::Delete { key: String::from_str(state) })
        } else {
            None
        }
    }

    /// The command that lists the token id `jti` as revoked for `ttl_secs`
    /// seconds.
    pub fn revoke_jwt(&self, jti: &str, ttl_secs: u64) -> (r: StoreCommand)
        ensures
            r@ == (StoreCommandView::Put { key: revoked_key(jti@), ttl_secs }),
    {
        StoreCommand::Put { key: String::from_str("jwt:revoked:").concat(jti), ttl_secs }
    }

    /// The command that asks whether the token id `jti` is listed as
    /// revoked.
    pub fn is_jwt_revoked(&self, jti: &str) -> (r: StoreCommand)
        ensures
            r@ == (StoreCommandView::Exists { key: revoked_key(jti@) }),
    {
        StoreCommand::Exists { key: String::from_str("jwt:revoked:").concat(jti) }
    }
}

/// Whether the reply to a `Put` says that the key was written.
pub open spec fn reply_stored(reply: StoreReply) -> bool {
    reply == StoreReply::Stored
}

/// What the reply to a `Delete` says of the key: whether it was there, which
/// it was if at least one key was removed. `None` for a reply to another
/// command.
pub open spec fn reply_removed(reply: StoreReply) -> Option<bool> {
    match reply {
        StoreReply::Deleted(n) => Some(n > 0),
        _ => None,
    }
}

/// What the reply to an `Exists` says of the key: whether it is there. `None`
/// for a reply to another command.
pub open spec fn reply_present(reply: StoreReply) -> Option<bool> {
    match reply {
        StoreReply::Present(b) => Some(b),
        _ => None,
    }
}

/// Reads the reply to a `Put`.
pub fn stored(reply: StoreReply) -> (r: bool)
    ensures
        r == reply_stored(reply),
{
    match reply {
        StoreReply::Stored => true,
        _ => false,
    }
}

/// Reads the reply to a `Delete`.
pub fn removed(reply: StoreReply) -> (r: Option<bool>)
    ensures
        r == reply_removed(reply),
{
    match reply {
        StoreReply::Deleted(n) => Some(n > 0),
        _ => None,
    }
}

/// Reads the reply to an `Exists`.
pub fn present(reply: StoreReply) -> (r: Option<bool>)
    ensures
        r == reply_present(reply),
{
    match reply {
        StoreReply::Present(b) => Some(b),
        _ => None,
    }
}

/// What the gateway assumes of the store: each key that was put is present
/// until the instant at which it lapses, and a deleted key is gone. Instants
/// are seconds on the clock that the gateway and the store share.
pub struct StoreModel {
    /// For each key that was put and not deleted, the instant at which it
    /// lapses.
    pub lapse: Map<Seq<char>, int>,
}

/// A command and the instant at which the store carries it out.
pub struct Timed {
    pub command: StoreCommandView,
    pub at: int,
}

impl StoreModel {
    /// Whether `key` is present at the instant `now`.
    pub open spec fn holds(self, key: Seq<char>, now: int) -> bool {
        self.lapse.contains_key(key) && now < self.lapse[key]
    }

    /// Whether the store carries `command` out. It fails a `Put` without
    /// lifetime, and nothing else.
    pub open spec fn accepts(command: StoreCommandView) -> bool {
        command matches StoreCommandView::Put { ttl_secs, .. } ==> ttl_secs > 0
    }

    /// The store after it was sent `command` at the instant `now`. A command
    /// that it fails changes nothing.
    pub open spec fn apply(self, command: StoreCommandView, now: int) -> StoreModel {
        match command {
            StoreCommandView::Put { key, ttl_secs } => if ttl_secs > 0 {
                StoreModel { lapse: self.lapse.insert(key, now + ttl_secs) }
            } else {
                self
            },
            StoreCommandView::Delete { key } => StoreModel { lapse: self.lapse.remove(key) },
            StoreCommandView::Exists { key } => self,
        }
    }

    /// The reply of the store to a command that it carries out at the
    /// instant `now`.
    pub open spec fn reply(self, command: StoreCommandView, now: int) -> StoreReply
        recommends
            Self::accepts(command),
    {
        match command {
            StoreCommandView::Put { key, ttl_secs } => StoreReply::Stored,
            StoreCommandView::Delete { key } => StoreReply::Deleted(if self.holds(key, now) { 1i64 } else { 0i64 }),
            StoreCommandView::Exists { key } => StoreReply::Present(self.holds(key, now)),
        }
    }

    /// The store after it carried out the commands of `trace`, first to last.
    pub open spec fn run(self, trace: Seq<Timed>) -> StoreModel
        decreases trace.len(),
    {
        if trace.len() == 0 {
            self
        } else {
            self.run(trace.drop_last()).apply(trace.last().command, trace.last().at)
        }
    }
}

/// Whether `command` writes `key`.
pub open spec fn puts(command: StoreCommandView, key: Seq<char>) -> bool {
    command matches StoreCommandView::Put { key: k, .. } && k == key
}

/// Whether `command` deletes `key`.
pub open spec fn deletes(command: StoreCommandView, key: Seq<char>) -> bool {
    command matches StoreCommandView::Delete { key: k } && k == key
}

/// Whether no command of `trace` writes `key`.
pub open spec fn never_puts(trace: Seq<Timed>, key: Seq<char>) -> bool {
    forall|i: int| 0 <= i < trace.len() ==> !puts(#[trigger] trace[i].command, key)
}

/// Whether no command of `trace` writes or deletes `key`.
pub open spec fn leaves_alone(trace: Seq<Timed>, key: Seq<char>) -> bool {
    forall|i: int| 0 <= i < trace.len() ==> !puts(#[trigger] trace[i].command, key) && !deletes(trace[i].command, key)
}

/// The key that a command is about.
pub open spec fn command_key(command: StoreCommandView) -> Seq<char> {
    match command {
        StoreCommandView::Put { key, .. } => key,
        StoreCommandView::Delete { key } => key,
        StoreCommandView::Exists { key } => key,
    }
}

/// Whether every command of `trace` is about a CSRF state token: the traffic
/// that logins and callbacks make.
pub open spec fn is_state_traffic(trace: Seq<Timed>) -> bool {
    forall|i: int| 0 <= i < trace.len() ==> is_state_token(command_key(#[trigger] trace[i].command))
}

/// The traffic of logins and callbacks leaves every revocation alone.
pub proof fn lemma_state_traffic_leaves_revocations_alone(trace: Seq<Timed>, jti: Seq<char>)
    requires
        is_state_traffic(trace),
    ensures
        leaves_alone(trace, revoked_key(jti)),
{
    assert forall|i: int| 0 <= i < trace.len() implies !puts(#[trigger] trace[i].command, revoked_key(jti))
        && !deletes(trace[i].command, revoked_key(jti)) by {
        lemma_state_tokens_are_no_revocations(command_key(trace[i].command), jti);
    }
}

/// Commands that do not write a key do not bring it back: a key that is
/// absent, or has lapsed by `now`, is still not held at `now` after them.
pub proof fn lemma_absent_stays_absent(store: StoreModel, trace: Seq<Timed>, key: Seq<char>, now: int)
    requires
        never_puts(trace, key),
        !store.holds(key, now),
    ensures
        !store.run(trace).holds(key, now),
    decreases trace.len(),
{
    if trace.len() > 0 {
        let before = trace.drop_last();
        assert forall|i: int| 0 <= i < before.len() implies !puts(#[trigger] before[i].command, key) by {
            assert(before[i] == trace[i]);
        }
        lemma_absent_stays_absent(store, before, key, now);
        assert(!puts(trace[trace.len() - 1].command, key));
    }
}

/// Commands that neither write nor delete a key leave its lapse as it was.
pub proof fn lemma_untouched_key_keeps_its_lapse(store: StoreModel, trace: Seq<Timed>, key: Seq<char>)
    requires
        leaves_alone(trace, key),
    ensures
        store.run(trace).lapse.contains_key(key) == store.lapse.contains_key(key),
        store.lapse.contains_key(key) ==> store.run(trace).lapse[key] == store.lapse[key],
    decreases trace.len(),
{
    if trace.len() > 0 {
        let before = trace.drop_last();
        assert forall|i: int| 0 <= i < before.len() implies !puts(#[trigger] before[i].command, key) && !deletes(
            before[i].command,
            key,
        ) by {
            assert(before[i] == trace[i]);
        }
        lemma_untouched_key_keeps_its_lapse(store, before, key);
        let last = trace[trace.len() - 1].command;
        assert(!puts(last, key) && !deletes(last, key));
    }
}

} // verus!
