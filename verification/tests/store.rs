use gateway::store::{has_state_form, present, removed, stored, RedisClient, StoreCommand, StoreReply};

const STATE: &str = "0f1e2d3c-4b5a-4978-8695-a4b3c2d1e0f101234567-89ab-cdef-8000-000000000000";

#[test]
fn a_state_token_is_stored_under_its_own_value() {
    let client = RedisClient::default();
    assert_eq!(
        client.store_oauth_state(STATE, 300),
        Some(StoreCommand::Put { key: STATE.to_string(), ttl_secs: 300 })
    );
}

#[test]
fn a_state_token_is_consumed_by_deleting_it() {
    let client = RedisClient::default();
    assert_eq!(client.consume_oauth_state(STATE), Some(StoreCommand::Delete { key: STATE.to_string() }));
}

#[test]
fn a_revocation_is_kept_under_the_namespace() {
    let client = RedisClient::default();
    assert_eq!(
        client.revoke_jwt("abc", 42),
        StoreCommand::Put { key: "jwt:revoked:abc".to_string(), ttl_secs: 42 }
    );
    assert_eq!(
        client.is_jwt_revoked("abc"),
        StoreCommand::Exists { key: "jwt:revoked:abc".to_string() }
    );
    assert_eq!(client.is_jwt_revoked(""), StoreCommand::Exists { key: "jwt:revoked:".to_string() });
}

#[test]
fn a_reply_is_read_for_the_command_it_answers() {
    assert!(stored(StoreReply::Stored));
    assert!(!stored(StoreReply::Deleted(1)));
    assert!(!stored(StoreReply::Present(true)));

    assert_eq!(removed(StoreReply::Deleted(1)), Some(true));
    assert_eq!(removed(StoreReply::Deleted(2)), Some(true));
    assert_eq!(removed(StoreReply::Deleted(0)), Some(false));
    assert_eq!(removed(StoreReply::Deleted(-1)), Some(false));
    assert_eq!(removed(StoreReply::Stored), None);
    assert_eq!(removed(StoreReply::Present(true)), None);

    assert_eq!(present(StoreReply::Present(true)), Some(true));
    assert_eq!(present(StoreReply::Present(false)), Some(false));
    assert_eq!(present(StoreReply::Stored), None);
    assert_eq!(present(StoreReply::Deleted(1)), None);
}

#[test]
fn only_state_tokens_are_keys_of_state() {
    let client = RedisClient::default();
    for text in ["", "S1", "jwt:revoked:abc", &STATE[..36], &STATE[1..]] {
        assert_eq!(client.store_oauth_state(text, 300), None);
        assert_eq!(client.consume_oauth_state(text), None);
    }
    let in_namespace = format!("jwt:revoked:{}", &STATE[..60]);
    assert_eq!(in_namespace.chars().count(), 72);
    assert_eq!(client.consume_oauth_state(&in_namespace), None);
    assert_eq!(client.store_oauth_state(&in_namespace, 300), None);
}

#[test]
fn a_state_token_is_two_hyphenated_uuids_in_lowercase() {
    assert!(has_state_form(STATE));
    assert!(!has_state_form(&"a".repeat(72)));
    let zeros = "00000000-0000-0000-0000-000000000000";
    assert!(has_state_form(&format!("{}{}", zeros, zeros)));
    assert!(has_state_form(&format!("{}{}", zeros, "ffffffff-ffff-ffff-ffff-ffffffffffff")));
    assert!(!has_state_form(zeros));
    assert!(!has_state_form(&format!("{}{}{}", zeros, zeros, zeros)));
    assert!(!has_state_form(&format!("{}{}", zeros, "FFFFFFFF-FFFF-FFFF-FFFF-FFFFFFFFFFFF")));
    assert!(!has_state_form(&format!("{}{}", zeros, "gggggggg-gggg-gggg-gggg-gggggggggggg")));
    assert!(!has_state_form(&format!("{}{}", zeros, "00000000000000000000000000000000----")));
    assert!(!has_state_form(&format!("{}{}", zeros, "00000000-0000-0000-0000-00000000000\u{e9}")));
    for at in [8usize, 13, 18, 23, 44, 49, 54, 59] {
        let mut text = format!("{}{}", zeros, zeros).into_bytes();
        text[at] = b'0';
        assert!(!has_state_form(&String::from_utf8(text).unwrap()));
    }
    for at in [0usize, 7, 9, 35, 36, 71] {
        let with = |byte: u8| {
            let mut text = format!("{}{}", zeros, zeros).into_bytes();
            text[at] = byte;
            String::from_utf8(text).unwrap()
        };
        for byte in [b'-', b'/', b':', b'`', b'g', b'A', b'F', b' '] {
            assert!(!has_state_form(&with(byte)));
        }
        for byte in [b'0', b'9', b'a', b'f'] {
            assert!(has_state_form(&with(byte)));
        }
    }
}
