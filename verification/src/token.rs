//! Signed session tokens: how claims are laid out in a token, when a token is
//! minted and when a presented token is accepted.
//!
//! Signing and signature checking are done by the `jsonwebtoken` crate. Its
//! results are named by [`jwt_encoded`], [`jwt_decoded`] and
//! [`hs256_signature`]; everything that is decided around them is stated here
//! in full. The library does not take the crate's word for a token: a token
//! is accepted only if it also ends in the signature of what precedes it, and
//! a token is handed out only after it was read back.

use vstd::prelude::*;
use vstd::string::{StrSliceExecFns, StringExecFns};
use vstd::utf8::is_ascii_chars;
use crate::models::{optional_text, Claims, ClaimsView};

verus! {

/// Why a token could not be minted or was not accepted.
#[derive(Debug, Clone, Copy, PartialEq, Eq, Structural)]
pub enum TokenError {
    /// The signature does not match, or the token does not carry well-formed
    /// claims.
    InvalidToken,
    /// The token was genuine, but its expiry has been reached.
    Expired,
    /// The configured lifetime is zero, or the expiry does not fit the
    /// timestamp of a token.
    InvalidLifetime,
    /// The signer did not produce a token, or produced one that does not read
    /// back as the claims it was made for.
    SigningFailed,
}

/// One named member of a token's claims object, as far as claims can use it.
#[derive(Debug, Clone, PartialEq, Eq)]
pub struct Member {
    pub name: String,
    /// The value, where it is a JSON string.
    pub text: Option<String>,
    /// The value, where it is a non-negative JSON integer.
    pub number: Option<u64>,
}

/// The mathematical value of a [`Member`].
pub struct MemberView {
    pub name: Seq<char>,
    pub text: Option<Seq<char>>,
    pub number: Option<u64>,
}

impl View for Member {
    type V = MemberView;

    open spec fn view(&self) -> MemberView {
        MemberView {
            name: self.name@,
            text: match self.text {
                Some(t) => Some(t@),
                None => None,
            },
            number: self.number,
        }
    }
}

/// The members of a claims object, in order, as mathematical values.
pub open spec fn members_view(members: Seq<Member>) -> Seq<MemberView> {
    members.map_values(|m: Member| m@)
}

/// The members of an optional claims object as mathematical values.
pub open spec fn decoded_view(decoded: Option<Vec<Member>>) -> Option<Seq<MemberView>> {
    match decoded {
        Some(members) => Some(members_view(members@)),
        None => None,
    }
}

/// Named texts as mathematical values.
pub open spec fn texts_view(texts: Seq<(String, String)>) -> Seq<(Seq<char>, Seq<char>)> {
    texts.map_values(|p: (String, String)| (p.0@, p.1@))
}

/// Named numbers as mathematical values.
pub open spec fn numbers_view(numbers: Seq<(String, u64)>) -> Seq<(Seq<char>, u64)> {
    numbers.map_values(|p: (String, u64)| (p.0@, p.1))
}

/// The token that `jsonwebtoken::encode` returns for the claims object whose
/// members are the named `texts`, as JSON strings, and the named `numbers`,
/// as JSON integers, signed with `secret` under the default header (HS256);
/// `None` where it returns an error.
pub uninterp spec fn jwt_encoded(
    texts: Seq<(Seq<char>, Seq<char>)>,
    numbers: Seq<(Seq<char>, u64)>,
    secret: Seq<char>,
) -> Option<Seq<char>>;

/// The members of the claims object that `jsonwebtoken::decode` returns for
/// `token` checked against `secret`, with the expiry check switched off:
/// each with its name, with its text where its value is a JSON string, and
/// with its number where its value is a non-negative JSON integer. `None`
/// where the crate returns an error.
pub uninterp spec fn jwt_decoded(token: Seq<char>, secret: Seq<char>) -> Option<Seq<MemberView>>;

/// The signature that `jsonwebtoken::crypto::sign` returns for the bytes of
/// `message` under HS256 with an HMAC key made from the bytes of `secret`, in
/// the form in which a token carries it; `None` where it returns an error.
pub uninterp spec fn hs256_signature(message: Seq<char>, secret: Seq<char>) -> Option<Seq<char>>;

/// Calls `jsonwebtoken::encode` with `Header::default()`, a JSON object that
/// holds each of `texts` as a string and each of `numbers` as an integer,
/// and an HMAC key made from the bytes of `secret`.
///
/// The contract claims only that the outcome is a function of the members
/// and the secret: HMAC signing and JSON serialisation use neither the clock
/// nor any random input.
#[verifier::external_body]
fn sign_members(texts: &Vec<(String, String)>, numbers: &Vec<(String, u64)>, secret: &str) -> (r: Option<String>)
    ensures
        optional_text(r) == jwt_encoded(texts_view(texts@), numbers_view(numbers@), secret@),
{
    let strings = texts.iter().map(|(name, text)| (name.clone(), serde_json::Value::from(text.as_str())));
    let integers = numbers.iter().map(|(name, number)| (name.clone(), serde_json::Value::from(*number)));
    let object: serde_json::Map<String, serde_json::Value> = strings.chain(integers).collect();
    let key = jsonwebtoken::EncodingKey::from_secret(secret.as_bytes());
    jsonwebtoken::encode(&jsonwebtoken::Header::default(), &object, &key).ok()
}

/// Calls `jsonwebtoken::decode` with an HMAC key made from the bytes of
/// `secret` and `Validation::default()` in which `validate_exp` is set to
/// `false`, and hands out the members of the decoded claims object, each
/// with what `serde_json::Value::as_str` and `serde_json::Value::as_u64` give
/// for its value.
///
/// With the expiry check off the crate does not read the clock, so the
/// contract claims that the outcome is a function of the token and the
/// secret, and nothing else.
#[verifier::external_body]
fn open_token(token: &str, secret: &str) -> (r: Option<Vec<Member>>)
    ensures
        decoded_view(r) == jwt_decoded(token@, secret@),
{
    let mut rules = jsonwebtoken::Validation::default();
    rules.validate_exp = false;
    let key = jsonwebtoken::DecodingKey::from_secret(secret.as_bytes());
    let data = jsonwebtoken::decode::<serde_json::Map<String, serde_json::Value>>(token, &key, &rules).ok()?;
    let members = data.claims.into_iter().map(
        |(name, value)| Member { name, text: value.as_str().map(str::to_owned), number: value.as_u64() },
    );
    Some(members.collect())
}

/// Calls `jsonwebtoken::crypto::sign` on the bytes of `message` with
/// `Algorithm::HS256` and an HMAC key made from the bytes of `secret`.
///
/// The contract claims only that the outcome is a function of the message
/// and the secret.
#[verifier::external_body]
fn sign_message(message: &str, secret: &str) -> (r: Option<String>)
    ensures
        optional_text(r) == hs256_signature(message@, secret@),
{
    let key = jsonwebtoken::EncodingKey::from_secret(secret.as_bytes());
    jsonwebtoken::crypto::sign(message.as_bytes(), &key, jsonwebtoken::Algorithm::HS256).ok()
}

/// Whether position `i` of `token` holds its last `.`.
pub open spec fn is_cut(token: Seq<char>, i: int) -> bool {
    &&& 0 <= i < token.len()
    &&& token[i] == '.'
    &&& forall|j: int| i < j < token.len() ==> token[j] != '.'
}

/// Whether `token` holds a `.`, and so falls into a message and a signature.
pub open spec fn has_cut(token: Seq<char>) -> bool {
    exists|i: int| is_cut(token, i)
}

/// The position of the last `.` of a token that has one.
pub open spec fn cut_of(token: Seq<char>) -> int {
    choose|i: int| is_cut(token, i)
}

/// What a token signs: all that precedes its last `.`.
pub open spec fn message_part(token: Seq<char>) -> Seq<char> {
    token.take(cut_of(token))
}

/// The signature that a token carries: all that follows its last `.`.
pub open spec fn signature_part(token: Seq<char>) -> Seq<char> {
    token.skip(cut_of(token) + 1)
}

/// Whether `token` is made of ASCII characters and ends in the HS256
/// signature, under `secret`, of its message.
pub open spec fn properly_signed(token: Seq<char>, secret: Seq<char>) -> bool {
    &&& is_ascii_chars(token)
    &&& has_cut(token)
    &&& hs256_signature(message_part(token), secret) == Some(signature_part(token))
}

/// The claims that a token stands for under `secret`: those of its claims
/// object, provided that the token decodes and is properly signed.
pub open spec fn token_claims(token: Seq<char>, secret: Seq<char>) -> Option<ClaimsView> {
    match jwt_decoded(token, secret) {
        Some(members) => if properly_signed(token, secret) {
            claims_of(members)
        } else {
            None
        },
        None => None,
    }
}

/// The first member called `name`, if there is one.
pub open spec fn find_member(members: Seq<MemberView>, name: Seq<char>) -> Option<MemberView>
    decreases members.len(),
{
    if members.len() == 0 {
        None
    } else if members[0].name == name {
        Some(members[0])
    } else {
        find_member(members.drop_first(), name)
    }
}

/// The text of the first member called `name`; `None` where there is no such
/// member or it is no text.
pub open spec fn text_member(members: Seq<MemberView>, name: Seq<char>) -> Option<Seq<char>> {
    match find_member(members, name) {
        Some(m) => m.text,
        None => None,
    }
}

/// The number of the first member called `name`; `None` where there is no
/// such member or it is no non-negative integer.
pub open spec fn number_member(members: Seq<MemberView>, name: Seq<char>) -> Option<u64> {
    match find_member(members, name) {
        Some(m) => m.number,
        None => None,
    }
}

/// The members of a token's claims object that are texts: `sub`, `email`,
/// `name` and `jti`.
pub open spec fn claim_texts(claims: ClaimsView) -> Seq<(Seq<char>, Seq<char>)> {
    seq![("sub"@, claims.sub), ("email"@, claims.email), ("name"@, claims.name), ("jti"@, claims.jti)]
}

/// The member of a token's claims object that is a number: `exp`.
pub open spec fn claim_numbers(claims: ClaimsView) -> Seq<(Seq<char>, u64)> {
    seq![("exp"@, claims.exp as u64)]
}

/// The claims object that holds the named `texts` and the named `numbers`.
pub open spec fn object_of(texts: Seq<(Seq<char>, Seq<char>)>, numbers: Seq<(Seq<char>, u64)>) -> Seq<MemberView> {
    texts.map_values(|p: (Seq<char>, Seq<char>)| MemberView { name: p.0, text: Some(p.1), number: None })
        + numbers.map_values(|p: (Seq<char>, u64)| MemberView { name: p.0, text: None, number: Some(p.1) })
}

/// The claims that a claims object stands for: its `sub`, `email`, `name`
/// and `jti` must be texts and its `exp` an integer that fits 32 bits.
/// Members under other names are ignored.
pub open spec fn claims_of(members: Seq<MemberView>) -> Option<ClaimsView> {
    match (
        text_member(members, "sub"@),
        text_member(members, "email"@),
        text_member(members, "name"@),
        number_member(members, "exp"@),
        text_member(members, "jti"@),
    ) {
        (Some(sub), Some(email), Some(name), Some(exp), Some(jti)) => if exp <= u32::MAX {
            Some(ClaimsView { sub, email, name, exp: exp as u32, jti })
        } else {
            None
        },
        _ => None,
    }
}

/// The mathematical value of optional claims.
pub open spec fn claims_view(claims: Option<Claims>) -> Option<ClaimsView> {
    match claims {
        Some(c) => Some(c@),
        None => None,
    }
}

/// The mathematical value of the outcome of minting or accepting claims.
pub open spec fn outcome_view(outcome: Result<Claims, TokenError>) -> Result<ClaimsView, TokenError> {
    match outcome {
        Ok(c) => Ok(c@),
        Err(e) => Err(e),
    }
}

/// The mathematical value of the outcome of signing.
pub open spec fn signed_view(outcome: Result<String, TokenError>) -> Result<Seq<char>, TokenError> {
    match outcome {
        Ok(t) => Ok(t@),
        Err(e) => Err(e),
    }
}

/// The claims of a token minted at `now` that lives for `ttl` seconds: the
/// expiry is `now + ttl`. A lifetime of zero, or an expiry beyond 32 bits, is
/// an error.
pub open spec fn minted_claims(
    sub: Seq<char>,
    email: Seq<char>,
    name: Seq<char>,
    now: u32,
    ttl: u32,
    jti: Seq<char>,
) -> Result<ClaimsView, TokenError> {
    if ttl == 0 || now + ttl > u32::MAX {
        Err(TokenError::InvalidLifetime)
    } else {
        Ok(ClaimsView { sub, email, name, exp: (now + ttl) as u32, jti })
    }
}

/// What becomes of a presented token at `now`, given the claims that it
/// stands for: a token that stands for none is invalid, one whose expiry is
/// reached is expired, and any other is accepted with its claims.
pub open spec fn accepted_claims(claims: Option<ClaimsView>, now: u32) -> Result<ClaimsView, TokenError> {
    match claims {
        None => Err(TokenError::InvalidToken),
        Some(claims) => if now < claims.exp {
            Ok(claims)
        } else {
            Err(TokenError::Expired)
        },
    }
}

/// The outcome of signing claims with `secret`: the token that the signer
/// returns, provided that it stands for these very claims.
pub open spec fn signed_token(claims: ClaimsView, secret: Seq<char>) -> Result<Seq<char>, TokenError> {
    match jwt_encoded(claim_texts(claims), claim_numbers(claims), secret) {
        Some(token) => if token_claims(token, secret) == Some(claims) {
            Ok(token)
        } else {
            Err(TokenError::SigningFailed)
        },
        None => Err(TokenError::SigningFailed),
    }
}

/// The outcome of minting a token at `now`: the claims of [`minted_claims`],
/// signed with `secret`.
pub open spec fn issued_token(
    sub: Seq<char>,
    email: Seq<char>,
    name: Seq<char>,
    now: u32,
    ttl: u32,
    jti: Seq<char>,
    secret: Seq<char>,
) -> Result<Seq<char>, TokenError> {
    match minted_claims(sub, email, name, now, ttl, jti) {
        Ok(claims) => signed_token(claims, secret),
        Err(e) => Err(e),
    }
}

/// Whether two texts hold the same characters.
fn same_text(a: &str, b: &str) -> (r: bool)
    ensures
        r == (a@ == b@),
{
    String::from_str(a) == String::from_str(b)
}

/// Looks up the first member called `name`.
fn lookup<'a>(members: &'a Vec<Member>, name: &str) -> (r: Option<&'a Member>)
    ensures
        match r {
            Some(m) => find_member(members_view(members@), name@) == Some(m@),
            None => find_member(members_view(members@), name@) is None,
        },
{
    let ghost all = members_view(members@);
    let mut i: usize = 0;
    assert(all.skip(0) =~= all);
    while i < members.len()
        invariant
            i <= members.len(),
            all == members_view(members@),
            find_member(all, name@) == find_member(all.skip(i as int), name@),
        decreases members.len() - i,
    {
        proof {
            let rest = all.skip(i as int);
            assert(rest[0] == members@[i as int]@);
            assert(rest.drop_first() =~= all.skip(i as int + 1));
        }
        if same_text(members[i].name.as_str(), name) {
            return Some(&members[i]);
        }
        i += 1;
    }
    None
}

/// The text of the first member called `name`.
fn lookup_text(members: &Vec<Member>, name: &str) -> (r: Option<String>)
    ensures
        optional_text(r) == text_member(members_view(members@), name@),
{
    match lookup(members, name) {
        Some(m) => match &m.text {
            Some(t) => Some(t.clone()),
            None => None,
        },
        None => None,
    }
}

/// The number of the first member called `name`.
fn lookup_number(members: &Vec<Member>, name: &str) -> (r: Option<u64>)
    ensures
        r == number_member(members_view(members@), name@),
{
    match lookup(members, name) {
        Some(m) => m.number,
        None => None,
    }
}

impl Claims {
    /// The members of the claims object that are texts, by name.
    pub fn texts(&self) -> (r: Vec<(String, String)>)
        ensures
            texts_view(r@) == claim_texts(self@),
    {
        let mut r: Vec<(String, String)> = Vec::new();
        r.push((String::from_str("sub"), self.sub.clone()));
        r.push((String::from_str("email"), self.email.clone()));
        r.push((String::from_str("name"), self.name.clone()));
        r.push((String::from_str("jti"), self.jti.clone()));
        assert(texts_view(r@) =~= claim_texts(self@));
        r
    }

    /// The member of the claims object that is a number, by name.
    pub fn numbers(&self) -> (r: Vec<(String, u64)>)
        ensures
            numbers_view(r@) == claim_numbers(self@),
    {
        let mut r: Vec<(String, u64)> = Vec::new();
        r.push((String::from_str("exp"), self.exp as u64));
        assert(numbers_view(r@) =~= claim_numbers(self@));
        r
    }

    /// Reads claims out of a claims object: `Some` exactly where `sub`,
    /// `email`, `name` and `jti` are texts and `exp` is an integer that fits
    /// 32 bits.
    pub fn from_members(members: &Vec<Member>) -> (r: Option<Claims>)
        ensures
            claims_view(r) == claims_of(members_view(members@)),
    {
        let sub = lookup_text(members, "sub");
        let email = lookup_text(members, "email");
        let name = lookup_text(members, "name");
        let exp = lookup_number(members, "exp");
        let jti = lookup_text(members, "jti");
        match (sub, email, name, exp, jti) {
            (Some(sub), Some(email), Some(name), Some(exp), Some(jti)) => if exp <= 0xffff_ffff {
                Some(Claims { sub, email, name, exp: exp as u32, jti })
            } else {
                None
            },
            _ => None,
        }
    }
}

/// Builds the claims of a token minted at `now` with a lifetime of `ttl`
/// seconds and the token id `jti`.
pub fn mint_claims(sub: &str, email: &str, name: &str, now: u32, ttl: u32, jti: String) -> (r: Result<Claims, TokenError>)
    ensures
        outcome_view(r) == minted_claims(sub@, email@, name@, now, ttl, jti@),
        r matches Ok(c) ==> c.exp > now,
{
    if ttl == 0 {
        return Err(TokenError::InvalidLifetime);
    }
    match now.checked_add(ttl) {
        Some(exp) => Ok(Claims {
            sub: String::from_str(sub),
            email: String::from_str(email),
            name: String::from_str(name),
            exp,
            jti,
        }),
        None => Err(TokenError::InvalidLifetime),
    }
}

/// A token has at most one last `.`.
proof fn lemma_cut_is_unique(token: Seq<char>, i: int, j: int)
    requires
        is_cut(token, i),
        is_cut(token, j),
    ensures
        i == j,
{
}

/// A message and a signature without `.`, joined by a `.`, fall apart again
/// into the two.
pub proof fn lemma_cut_of_joined(message: Seq<char>, signature: Seq<char>)
    requires
        !signature.contains('.'),
    ensures
        has_cut(message + seq!['.'] + signature),
        message_part(message + seq!['.'] + signature) == message,
        signature_part(message + seq!['.'] + signature) == signature,
{
    let token = message + seq!['.'] + signature;
    let at = message.len() as int;
    assert forall|j: int| at < j < token.len() implies token[j] != '.' by {
        assert(token[j] == signature[j - at - 1]);
        assert(signature.contains(signature[j - at - 1]));
    }
    assert(is_cut(token, at));
    lemma_cut_is_unique(token, at, cut_of(token));
    assert(token.take(at) =~= message);
    assert(token.skip(at + 1) =~= signature);
}

/// Splits a token at its last `.` into the message and the signature. `None`
/// for a token that holds no `.`, or a character that is not ASCII.
pub fn split_token(token: &str) -> (r: Option<(String, String)>)
    ensures
        match r {
            Some((message, signature)) => {
                &&& is_ascii_chars(token@)
                &&& has_cut(token@)
                &&& message@ == message_part(token@)
                &&& signature@ == signature_part(token@)
            },
            None => !is_ascii_chars(token@) || !has_cut(token@),
        },
{
    if !token.is_ascii() {
        return None;
    }
    let n = token.unicode_len();
    let mut i = n;
    while i > 0
        invariant
            i <= n,
            n == token@.len(),
            is_ascii_chars(token@),
            forall|j: int| i <= j < n ==> token@[j] != '.',
        decreases i,
    {
        i -= 1;
        let byte = token.get_ascii(i);
        if byte == 46u8 {
            proof {
                let c = token@[i as int];
                assert('\0' <= c <= '\u{7f}');
                assert(c as u8 == 46u8);
                assert(c == '.');
                assert(is_cut(token@, i as int));
                lemma_cut_is_unique(token@, i as int, cut_of(token@));
            }
            let message = String::from_str(token.substring_ascii(0, i));
            let signature = String::from_str(token.substring_ascii(i + 1, n));
            assert(message@ =~= message_part(token@));
            assert(signature@ =~= signature_part(token@));
            return Some((message, signature));
        }
    }
    assert(!has_cut(token@)) by {
        if has_cut(token@) {
            let k = cut_of(token@);
            assert(is_cut(token@, k));
        }
    }
    None
}

/// Whether the signer gave a signature, and `signature` is it.
pub fn signature_matches(expected: Option<String>, signature: &str) -> (r: bool)
    ensures
        r == (optional_text(expected) == Some(signature@)),
{
    match expected {
        Some(expected) => same_text(expected.as_str(), signature),
        None => false,
    }
}

/// Checks that a token ends in the signature of its message: the signer is
/// asked for the signature of all that precedes the last `.`, and what
/// follows must be that.
pub fn carries_its_signature(token: &str, secret: &str) -> (r: bool)
    ensures
        r == properly_signed(token@, secret@),
{
    match split_token(token) {
        Some((message, signature)) => signature_matches(sign_message(message.as_str(), secret), signature.as_str()),
        None => false,
    }
}

/// The claims of a decoded token: those that its claims object stands for,
/// provided that the token was found to be properly signed.
pub fn claims_if_signed(decoded: Option<Vec<Member>>, signed: bool) -> (r: Option<Claims>)
    ensures
        claims_view(r) == match decoded_view(decoded) {
            Some(members) => if signed {
                claims_of(members)
            } else {
                None
            },
            None => None,
        },
{
    match decoded {
        Some(members) => if signed {
            Claims::from_members(&members)
        } else {
            None
        },
        None => None,
    }
}

/// Reads the claims that a token stands for under `secret`. The decoder
/// checks the token first; only a token that it lets pass is checked against
/// the signature that the signer gives for its message.
pub fn read_token(token: &str, secret: &str) -> (r: Option<Claims>)
    ensures
        claims_view(r) == token_claims(token@, secret@),
{
    let decoded = open_token(token, secret);
    let signed = match &decoded {
        Some(_) => carries_its_signature(token, secret),
        None => false,
    };
    claims_if_signed(decoded, signed)
}

/// Whether two sets of claims agree in every field.
pub fn same_claims(a: &Claims, b: &Claims) -> (r: bool)
    ensures
        r == (a@ == b@),
{
    a.sub == b.sub && a.email == b.email && a.name == b.name && a.exp == b.exp && a.jti == b.jti
}

/// Hands out a token that was signed for `claims`, provided that it read
/// back as `read` and this is the same claims.
pub fn confirm_token(token: Option<String>, read: Option<Claims>, claims: &Claims) -> (r: Result<String, TokenError>)
    ensures
        signed_view(r) == match optional_text(token) {
            Some(t) => if claims_view(read) == Some(claims@) {
                Ok::<Seq<char>, TokenError>(t)
            } else {
                Err(TokenError::SigningFailed)
            },
            None => Err(TokenError::SigningFailed),
        },
{
    match token {
        Some(token) => match read {
            Some(read) => if same_claims(&read, claims) {
                Ok(token)
            } else {
                Err(TokenError::SigningFailed)
            },
            None => Err(TokenError::SigningFailed),
        },
        None => Err(TokenError::SigningFailed),
    }
}

/// Signs claims with `secret` and returns the token, after it was read back
/// as these claims.
pub fn sign_claims(claims: &Claims, secret: &str) -> (r: Result<String, TokenError>)
    ensures
        signed_view(r) == signed_token(claims@, secret@),
        r matches Ok(token) ==> token_claims(token@, secret@) == Some(claims@),
{
    let texts = claims.texts();
    let numbers = claims.numbers();
    let token = sign_members(&texts, &numbers, secret);
    let read = match &token {
        Some(token) => read_token(token.as_str(), secret),
        None => None,
    };
    confirm_token(token, read, claims)
}

/// Decides on a presented token at `now`, given the claims that it stands
/// for.
pub fn accept_claims(claims: Option<Claims>, now: u32) -> (r: Result<Claims, TokenError>)
    ensures
        outcome_view(r) == accepted_claims(claims_view(claims), now),
{
    match claims {
        None => Err(TokenError::InvalidToken),
        Some(claims) => if now < claims.exp {
            Ok(claims)
        } else {
            Err(TokenError::Expired)
        },
    }
}

/// Mints a token at `now`: claims with the expiry `now + ttl`, signed with
/// `secret`. A token that is returned verifies, as the claims it was minted
/// for, at every instant before its expiry.
pub fn issue_token(sub: &str, email: &str, name: &str, now: u32, ttl: u32, jti: String, secret: &str) -> (r: Result<
    String,
    TokenError,
>)
    ensures
        signed_view(r) == issued_token(sub@, email@, name@, now, ttl, jti@, secret@),
        r matches Ok(token) ==> forall|later: u32|
            later < now + ttl ==> #[trigger] accepted_claims(token_claims(token@, secret@), later) == Ok::<
                ClaimsView,
                TokenError,
            >(ClaimsView { sub: sub@, email: email@, name: name@, exp: (now + ttl) as u32, jti: jti@ }),
{
    match mint_claims(sub, email, name, now, ttl, jti) {
        Ok(claims) => sign_claims(&claims, secret),
        Err(e) => Err(e),
    }
}

/// Checks a presented token against `secret` and the time `now`, and returns
/// its claims.
pub fn verify_token(token: &str, secret: &str, now: u32) -> (r: Result<Claims, TokenError>)
    ensures
        outcome_view(r) == accepted_claims(token_claims(token@, secret@), now),
{
    accept_claims(read_token(token, secret), now)
}

/// The claims object that is laid out for claims reads back as the same
/// claims.
pub proof fn lemma_members_round_trip(claims: ClaimsView)
    ensures
        claims_of(object_of(claim_texts(claims), claim_numbers(claims))) == Some(claims),
{
    let m = object_of(claim_texts(claims), claim_numbers(claims));
    reveal_strlit("sub");
    reveal_strlit("email");
    reveal_strlit("name");
    reveal_strlit("exp");
    reveal_strlit("jti");
    let m1 = m.drop_first();
    let m2 = m1.drop_first();
    let m3 = m2.drop_first();
    let m4 = m3.drop_first();
    assert(m.len() == 5);
    assert("sub"@.len() == 3 && "email"@.len() == 5 && "name"@.len() == 4);
    assert("exp"@[0] == 'e' && "jti"@[0] == 'j' && "sub"@[0] == 's');
    assert(m[0] == MemberView { name: "sub"@, text: Some(claims.sub), number: None });
    assert(m1[0] == MemberView { name: "email"@, text: Some(claims.email), number: None });
    assert(m2[0] == MemberView { name: "name"@, text: Some(claims.name), number: None });
    assert(m3[0] == MemberView { name: "jti"@, text: Some(claims.jti), number: None });
    assert(m4[0] == MemberView { name: "exp"@, text: None, number: Some(claims.exp as u64) });
    assert(find_member(m, "sub"@) == Some(m[0]));
    assert(find_member(m1, "email"@) == Some(m1[0]));
    assert(find_member(m, "email"@) == find_member(m1, "email"@));
    assert(find_member(m2, "name"@) == Some(m2[0]));
    assert(find_member(m1, "name"@) == find_member(m2, "name"@));
    assert(find_member(m, "name"@) == find_member(m1, "name"@));
    assert(find_member(m3, "jti"@) == Some(m3[0]));
    assert(find_member(m2, "jti"@) == find_member(m3, "jti"@));
    assert(find_member(m1, "jti"@) == find_member(m2, "jti"@));
    assert(find_member(m, "jti"@) == find_member(m1, "jti"@));
    assert(find_member(m4, "exp"@) == Some(m4[0]));
    assert(find_member(m3, "exp"@) == find_member(m4, "exp"@));
    assert(find_member(m2, "exp"@) == find_member(m3, "exp"@));
    assert(find_member(m1, "exp"@) == find_member(m2, "exp"@));
    assert(find_member(m, "exp"@) == find_member(m1, "exp"@));
}

/// A token that was issued verifies.
///
/// Let a token be issued at `now` for a subject, an email and a name, with a
/// lifetime of `ttl` seconds. Then its expiry lies after `now`; at every
/// instant before the expiry the token is accepted, under the secret it was
/// signed with, with claims that carry this subject, email, name and token
/// id; and from the expiry on it is refused as expired.
pub proof fn lemma_issued_token_verifies(
    sub: Seq<char>,
    email: Seq<char>,
    name: Seq<char>,
    now: u32,
    ttl: u32,
    jti: Seq<char>,
    secret: Seq<char>,
    later: u32,
)
    requires
        issued_token(sub, email, name, now, ttl, jti, secret) is Ok,
    ensures
        ({
            let token = issued_token(sub, email, name, now, ttl, jti, secret)->Ok_0;
            let claims = ClaimsView { sub, email, name, exp: (now + ttl) as u32, jti };
            &&& now < claims.exp == now + ttl
            &&& later < claims.exp ==> accepted_claims(token_claims(token, secret), later) == Ok::<
                ClaimsView,
                TokenError,
            >(claims)
            &&& later >= claims.exp ==> accepted_claims(token_claims(token, secret), later) == Err::<
                ClaimsView,
                TokenError,
            >(TokenError::Expired)
        }),
{
}

/// A token with an altered signature is refused.
///
/// Let a token that stands for claims consist of a message, a `.` and a
/// signature. Then the same message with any other signature stands for no
/// claims, and is refused as invalid at every instant.
pub proof fn lemma_altered_signature_is_refused(
    message: Seq<char>,
    signature: Seq<char>,
    altered: Seq<char>,
    secret: Seq<char>,
    now: u32,
)
    requires
        !signature.contains('.'),
        !altered.contains('.'),
        altered != signature,
        token_claims(message + seq!['.'] + signature, secret) is Some,
    ensures
        token_claims(message + seq!['.'] + altered, secret) is None,
        accepted_claims(token_claims(message + seq!['.'] + altered, secret), now) == Err::<ClaimsView, TokenError>(
            TokenError::InvalidToken,
        ),
{
    lemma_cut_of_joined(message, signature);
    lemma_cut_of_joined(message, altered);
}

/// Two tokens that verify under one secret and sign the same message are the
/// same token: a message has one signature.
pub proof fn lemma_message_has_one_signature(one: Seq<char>, two: Seq<char>, secret: Seq<char>)
    requires
        token_claims(one, secret) is Some,
        token_claims(two, secret) is Some,
        message_part(one) == message_part(two),
    ensures
        one == two,
{
    let i = cut_of(one);
    let j = cut_of(two);
    assert(is_cut(one, i));
    assert(is_cut(two, j));
    assert(one.take(i).len() == i);
    assert(two.take(j).len() == j);
    assert(one =~= one.take(i) + seq!['.'] + one.skip(i + 1));
    assert(two =~= two.take(j) + seq!['.'] + two.skip(j + 1));
}

} // verus!
