use gateway::models::Claims;
use gateway::token::{
    accept_claims, carries_its_signature, claims_if_signed, confirm_token, issue_token, mint_claims, read_token,
    same_claims, sign_claims, signature_matches, split_token, verify_token, Member, TokenError,
};

fn sample() -> Claims {
    mint_claims("user-1", "ada@example.org", "Ada", 1_000, 60, "id-1".to_string()).unwrap()
}

fn text(name: &str, value: &str) -> Member {
    Member { name: name.to_string(), text: Some(value.to_string()), number: None }
}

fn number(name: &str, value: u64) -> Member {
    Member { name: name.to_string(), text: None, number: Some(value) }
}

fn other(name: &str) -> Member {
    Member { name: name.to_string(), text: None, number: None }
}

fn sample_members() -> Vec<Member> {
    vec![
        text("email", "ada@example.org"),
        number("exp", 1_060),
        text("jti", "id-1"),
        text("name", "Ada"),
        text("sub", "user-1"),
    ]
}

/// Signs an arbitrary claims object with the crate that the library signs with.
fn forge(object: serde_json::Value, secret: &str) -> String {
    jsonwebtoken::encode(
        &jsonwebtoken::Header::default(),
        &object,
        &jsonwebtoken::EncodingKey::from_secret(secret.as_bytes()),
    )
    .unwrap()
}

fn object(members: Vec<(&str, serde_json::Value)>) -> serde_json::Value {
    let mut map = serde_json::Map::new();
    for (name, value) in members {
        map.insert(name.to_string(), value);
    }
    serde_json::Value::Object(map)
}

#[test]
fn minted_claims_expire_after_the_lifetime() {
    let claims = sample();
    assert_eq!(claims.sub, "user-1");
    assert_eq!(claims.email, "ada@example.org");
    assert_eq!(claims.name, "Ada");
    assert_eq!(claims.jti, "id-1");
    assert_eq!(claims.exp, 1_060);
    assert!(claims.exp > 1_000);
}

#[test]
fn a_lifetime_of_zero_is_refused() {
    let r = mint_claims("user-1", "ada@example.org", "Ada", 1_000, 0, "id-1".to_string());
    assert_eq!(r, Err(TokenError::InvalidLifetime));
}

#[test]
fn an_expiry_beyond_32_bits_is_refused() {
    let r = mint_claims("u", "e", "n", u32::MAX - 10, 11, "id".to_string());
    assert_eq!(r, Err(TokenError::InvalidLifetime));
    let r = mint_claims("u", "e", "n", u32::MAX - 10, 10, "id".to_string());
    assert_eq!(r.unwrap().exp, u32::MAX);
}

#[test]
fn issue_reports_an_invalid_lifetime() {
    let r = issue_token("u", "e", "n", 1_000, 0, "id".to_string(), "secret");
    assert_eq!(r, Err(TokenError::InvalidLifetime));
}

#[test]
fn issued_token_verifies_with_the_same_secret() {
    let token = issue_token("user-1", "ada@example.org", "Ada", 1_000, 60, "id-1".to_string(), "secret").unwrap();
    assert_eq!(verify_token(&token, "secret", 1_000), Ok(sample()));
    assert_eq!(verify_token(&token, "secret", 1_059), Ok(sample()));
}

#[test]
fn issued_token_is_the_hs256_token_of_its_claims() {
    let token = sign_claims(&sample(), "secret").unwrap();
    let expected = forge(
        object(vec![
            ("sub", "user-1".into()),
            ("email", "ada@example.org".into()),
            ("name", "Ada".into()),
            ("exp", 1_060u64.into()),
            ("jti", "id-1".into()),
        ]),
        "secret",
    );
    assert_eq!(token, expected);
    assert_eq!(token.split('.').count(), 3);
    assert_ne!(token, "secret");
}

#[test]
fn claims_with_unusual_characters_survive_the_round_trip() {
    let name = "Zo\u{eb} \"Z\" O'Neil \\ \u{1f600}\n";
    let token = issue_token("user.2", "zoe+tag@example.org", name, 5, 10, "j.t.i".to_string(), "s3cr\u{e9}t").unwrap();
    let claims = verify_token(&token, "s3cr\u{e9}t", 6).unwrap();
    assert_eq!(claims.sub, "user.2");
    assert_eq!(claims.email, "zoe+tag@example.org");
    assert_eq!(claims.name, name);
    assert_eq!(claims.jti, "j.t.i");
    assert_eq!(claims.exp, 15);
}

#[test]
fn a_token_is_expired_from_its_expiry_on() {
    let token = issue_token("user-1", "ada@example.org", "Ada", 1_000, 1, "id-1".to_string(), "secret").unwrap();
    assert!(verify_token(&token, "secret", 1_000).is_ok());
    assert_eq!(verify_token(&token, "secret", 1_001), Err(TokenError::Expired));
    assert_eq!(verify_token(&token, "secret", 1_002), Err(TokenError::Expired));
}

#[test]
fn a_token_with_an_altered_signature_is_invalid() {
    let token = issue_token("user-1", "ada@example.org", "Ada", 1_000, 60, "id-1".to_string(), "secret").unwrap();
    let cut = token.rfind('.').unwrap() + 1;
    let (head, signature) = token.split_at(cut);
    for i in 0..signature.len() {
        let mut bytes = signature.as_bytes().to_vec();
        bytes[i] = if bytes[i] == b'A' { b'B' } else { b'A' };
        let altered = format!("{}{}", head, String::from_utf8(bytes).unwrap());
        assert_ne!(altered, token);
        assert_eq!(verify_token(&altered, "secret", 1_000), Err(TokenError::InvalidToken));
    }
    let shortened = &token[..token.len() - 1];
    assert_eq!(verify_token(shortened, "secret", 1_000), Err(TokenError::InvalidToken));
}

#[test]
fn a_token_with_altered_claims_is_invalid() {
    let token = issue_token("user-1", "ada@example.org", "Ada", 1_000, 60, "id-1".to_string(), "secret").unwrap();
    let other = issue_token("user-2", "ada@example.org", "Ada", 1_000, 60, "id-1".to_string(), "secret").unwrap();
    let signature = &token[token.rfind('.').unwrap()..];
    let grafted = format!("{}{}", &other[..other.rfind('.').unwrap()], signature);
    assert_eq!(verify_token(&grafted, "secret", 1_000), Err(TokenError::InvalidToken));
}

#[test]
fn a_token_signed_with_another_secret_is_invalid() {
    let token = issue_token("user-1", "ada@example.org", "Ada", 1_000, 60, "id-1".to_string(), "secret").unwrap();
    assert_eq!(verify_token(&token, "Secret", 1_000), Err(TokenError::InvalidToken));
    assert_eq!(verify_token(&token, "", 1_000), Err(TokenError::InvalidToken));
}

#[test]
fn text_that_is_no_token_is_invalid() {
    for junk in ["", "abc", "a.b", "a.b.c", "a.b.c.d", "..", "Bearer x"] {
        assert_eq!(verify_token(junk, "secret", 0), Err(TokenError::InvalidToken));
    }
}

#[test]
fn an_expired_token_with_a_bad_signature_is_invalid_not_expired() {
    let token = issue_token("user-1", "ada@example.org", "Ada", 1_000, 1, "id-1".to_string(), "secret").unwrap();
    assert_eq!(verify_token(&token, "other", 5_000), Err(TokenError::InvalidToken));
}

#[test]
fn a_genuine_token_without_all_claims_is_invalid() {
    let full = vec![
        ("sub", serde_json::Value::from("user-1")),
        ("email", "ada@example.org".into()),
        ("name", "Ada".into()),
        ("exp", 2_000u64.into()),
        ("jti", "id-1".into()),
    ];
    assert!(verify_token(&forge(object(full.clone()), "secret"), "secret", 1_000).is_ok());
    for missing in ["sub", "email", "name", "jti"] {
        let rest: Vec<_> = full.iter().filter(|(n, _)| *n != missing).cloned().collect();
        let token = forge(object(rest), "secret");
        assert_eq!(verify_token(&token, "secret", 1_000), Err(TokenError::InvalidToken));
    }
}

#[test]
fn a_genuine_token_with_claims_of_the_wrong_kind_is_invalid() {
    let make = |sub: serde_json::Value, exp: serde_json::Value| {
        forge(
            object(vec![
                ("sub", sub),
                ("email", "e".into()),
                ("name", "n".into()),
                ("exp", exp),
                ("jti", "j".into()),
            ]),
            "secret",
        )
    };
    let ok = make("u".into(), 2_000u64.into());
    assert_eq!(verify_token(&ok, "secret", 1_999).unwrap().exp, 2_000);
    let numeric_sub = make(7u64.into(), 2_000u64.into());
    assert_eq!(verify_token(&numeric_sub, "secret", 0), Err(TokenError::InvalidToken));
    let wide = make("u".into(), (u32::MAX as u64 + 1).into());
    assert_eq!(verify_token(&wide, "secret", 0), Err(TokenError::InvalidToken));
    let widest = make("u".into(), (u32::MAX as u64).into());
    assert_eq!(verify_token(&widest, "secret", 0).unwrap().exp, u32::MAX);
    let fractional = make("u".into(), serde_json::Value::from(2000.5f64));
    assert_eq!(verify_token(&fractional, "secret", 0), Err(TokenError::InvalidToken));
    let textual = make("u".into(), "2000".into());
    assert_eq!(verify_token(&textual, "secret", 0), Err(TokenError::InvalidToken));
}

#[test]
fn other_members_of_a_genuine_token_are_ignored() {
    let token = forge(
        object(vec![
            ("sub", "u".into()),
            ("email", "e".into()),
            ("name", "n".into()),
            ("exp", 2_000u64.into()),
            ("jti", "j".into()),
            ("role", "admin".into()),
            ("flags", serde_json::Value::Array(vec![true.into()])),
        ]),
        "secret",
    );
    let claims = verify_token(&token, "secret", 10).unwrap();
    assert_eq!(
        claims,
        Claims { sub: "u".into(), email: "e".into(), name: "n".into(), exp: 2_000, jti: "j".into() }
    );
}

#[test]
fn members_read_back_as_claims() {
    assert_eq!(Claims::from_members(&sample_members()), Some(sample()));
    let mut with_extras = sample_members();
    with_extras.insert(0, other("aud"));
    with_extras.push(number("iat", 5));
    assert_eq!(Claims::from_members(&with_extras), Some(sample()));
}

#[test]
fn the_first_member_of_a_name_counts() {
    let mut members = sample_members();
    members.push(text("sub", "someone-else"));
    assert_eq!(Claims::from_members(&members).unwrap().sub, "user-1");
    members.insert(0, other("sub"));
    assert_eq!(Claims::from_members(&members), None);
}

#[test]
fn members_that_miss_a_claim_are_no_claims() {
    for i in 0..5 {
        let mut members = sample_members();
        members.remove(i);
        assert_eq!(Claims::from_members(&members), None);
    }
    assert_eq!(Claims::from_members(&Vec::new()), None);
    let mut members = sample_members();
    members[1] = number("exp", 1 << 32);
    assert_eq!(Claims::from_members(&members), None);
    members[1] = text("exp", "1060");
    assert_eq!(Claims::from_members(&members), None);
}

#[test]
fn claims_lay_out_their_texts_and_their_number() {
    let claims = sample();
    let texts: Vec<(String, String)> = vec![
        ("sub".into(), "user-1".into()),
        ("email".into(), "ada@example.org".into()),
        ("name".into(), "Ada".into()),
        ("jti".into(), "id-1".into()),
    ];
    assert_eq!(claims.texts(), texts);
    assert_eq!(claims.numbers(), vec![("exp".to_string(), 1_060u64)]);
}

#[test]
fn accepting_goes_by_the_expiry() {
    assert_eq!(accept_claims(None, 0), Err(TokenError::InvalidToken));
    assert_eq!(accept_claims(None, u32::MAX), Err(TokenError::InvalidToken));
    assert_eq!(accept_claims(Some(sample()), 0), Ok(sample()));
    assert_eq!(accept_claims(Some(sample()), 1_059), Ok(sample()));
    assert_eq!(accept_claims(Some(sample()), 1_060), Err(TokenError::Expired));
    assert_eq!(accept_claims(Some(sample()), u32::MAX), Err(TokenError::Expired));
}

#[test]
fn a_token_splits_at_its_last_dot() {
    let pair = |m: &str, s: &str| Some((m.to_string(), s.to_string()));
    assert_eq!(split_token("head.claims.sig"), pair("head.claims", "sig"));
    assert_eq!(split_token("a.b"), pair("a", "b"));
    assert_eq!(split_token("a."), pair("a", ""));
    assert_eq!(split_token(".b"), pair("", "b"));
    assert_eq!(split_token("."), pair("", ""));
    assert_eq!(split_token("a..b"), pair("a.", "b"));
    assert_eq!(split_token("..."), pair("..", ""));
    assert_eq!(split_token(""), None);
    assert_eq!(split_token("abc"), None);
    assert_eq!(split_token("h\u{e9}ad.claims.sig"), None);
    assert_eq!(split_token("head.claims.s\u{ef}g"), None);
}

#[test]
fn a_token_carries_the_hs256_signature_of_its_message() {
    let token = sign_claims(&sample(), "secret").unwrap();
    assert!(carries_its_signature(&token, "secret"));
    assert!(!carries_its_signature(&token, "other"));
    let (message, signature) = split_token(&token).unwrap();
    let key = jsonwebtoken::EncodingKey::from_secret(b"secret");
    let expected = jsonwebtoken::crypto::sign(message.as_bytes(), &key, jsonwebtoken::Algorithm::HS256).unwrap();
    assert_eq!(signature, expected);
    assert_ne!(signature, message);
    assert!(carries_its_signature(&format!("x.{}", jsonwebtoken::crypto::sign(b"x", &key, jsonwebtoken::Algorithm::HS256).unwrap()), "secret"));
    assert!(!carries_its_signature(&format!("{}.{}x", message, signature), "secret"));
    assert!(!carries_its_signature(&format!("{}x.{}", message, signature), "secret"));
    assert!(!carries_its_signature(&message, "secret"));
    assert!(!carries_its_signature("", "secret"));
}

#[test]
fn reading_a_token_gives_its_claims_whatever_the_time() {
    let token = sign_claims(&sample(), "secret").unwrap();
    assert_eq!(read_token(&token, "secret"), Some(sample()));
    assert_eq!(read_token(&token, "other"), None);
    assert_eq!(read_token("x", "secret"), None);
    let key = jsonwebtoken::EncodingKey::from_secret(b"secret");
    let signed_junk = format!("x.{}", jsonwebtoken::crypto::sign(b"x", &key, jsonwebtoken::Algorithm::HS256).unwrap());
    assert_eq!(read_token(&signed_junk, "secret"), None);
}

#[test]
fn claims_are_the_same_when_every_field_is() {
    let claims = sample();
    assert!(same_claims(&claims, &claims.duplicate()));
    let change = |f: fn(&mut Claims)| {
        let mut other = sample();
        f(&mut other);
        other
    };
    assert!(!same_claims(&claims, &change(|c| c.sub.push('x'))));
    assert!(!same_claims(&claims, &change(|c| c.email.push('x'))));
    assert!(!same_claims(&claims, &change(|c| c.name.push('x'))));
    assert!(!same_claims(&claims, &change(|c| c.exp += 1)));
    assert!(!same_claims(&claims, &change(|c| c.jti.push('x'))));
}

#[test]
fn a_token_in_another_algorithm_is_invalid() {
    let claims = object(vec![
        ("sub", "u".into()),
        ("email", "e".into()),
        ("name", "n".into()),
        ("exp", 2_000u64.into()),
        ("jti", "j".into()),
    ]);
    let key = jsonwebtoken::EncodingKey::from_secret(b"secret");
    let header = jsonwebtoken::Header::new(jsonwebtoken::Algorithm::HS512);
    let token = jsonwebtoken::encode(&header, &claims, &key).unwrap();
    assert_eq!(verify_token(&token, "secret", 0), Err(TokenError::InvalidToken));
}

#[test]
fn claims_copy_field_by_field() {
    let claims = sample();
    assert_eq!(claims.duplicate(), claims);
}

#[test]
fn a_signature_matches_only_what_the_signer_gave() {
    assert!(signature_matches(Some("abc".to_string()), "abc"));
    assert!(signature_matches(Some(String::new()), ""));
    assert!(!signature_matches(Some("abc".to_string()), "abd"));
    assert!(!signature_matches(Some("abc".to_string()), "ab"));
    assert!(!signature_matches(Some("abc".to_string()), ""));
    assert!(!signature_matches(None, "abc"));
    assert!(!signature_matches(None, ""));
}

#[test]
fn decoded_claims_count_only_when_signed() {
    assert_eq!(claims_if_signed(Some(sample_members()), true), Some(sample()));
    assert_eq!(claims_if_signed(Some(sample_members()), false), None);
    assert_eq!(claims_if_signed(Some(Vec::new()), true), None);
    assert_eq!(claims_if_signed(None, true), None);
    assert_eq!(claims_if_signed(None, false), None);
}

#[test]
fn a_token_is_handed_out_only_if_it_read_back() {
    let claims = sample();
    let mut other = sample();
    other.jti.push('x');
    let token = || Some("t.o.k".to_string());
    assert_eq!(confirm_token(token(), Some(sample()), &claims), Ok("t.o.k".to_string()));
    assert_eq!(confirm_token(token(), Some(other), &claims), Err(TokenError::SigningFailed));
    assert_eq!(confirm_token(token(), None, &claims), Err(TokenError::SigningFailed));
    assert_eq!(confirm_token(None, Some(sample()), &claims), Err(TokenError::SigningFailed));
    assert_eq!(confirm_token(None, None, &claims), Err(TokenError::SigningFailed));
}
