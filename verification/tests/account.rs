use olm_engine::account::Account;
use olm_engine::error::{CryptoFailure, KeyError, SessionCreationError};
use olm_engine::inbound::{GroupRatchet, InboundGroupSession};
use olm_engine::keys::{IdentityKeys, OneTimeKey, SignedKey};
use olm_engine::message::OlmMessage;
use olm_engine::settings::{EncryptionSettings, EventEncryptionAlgorithm, HistoryVisibility};

fn key_text(byte: u8) -> String {
    text_of(&[byte; 32])
}

fn text_of(bytes: &[u8]) -> String {
    let alphabet = b"ABCDEFGHIJKLMNOPQRSTUVWXYZabcdefghijklmnopqrstuvwxyz0123456789+/";
    let mut text = String::new();
    for chunk in bytes.chunks(3) {
        let b0 = chunk[0] as u32;
        let b1 = *chunk.get(1).unwrap_or(&0) as u32;
        let b2 = *chunk.get(2).unwrap_or(&0) as u32;
        let n = (b0 << 16) | (b1 << 8) | b2;
        text.push(alphabet[(n >> 18) as usize & 63] as char);
        text.push(alphabet[(n >> 12) as usize & 63] as char);
        if chunk.len() > 1 {
            text.push(alphabet[(n >> 6) as usize & 63] as char);
        }
        if chunk.len() > 2 {
            text.push(alphabet[n as usize & 63] as char);
        }
    }
    text
}

fn pre_key_message(one_time_key: u8, base_key: u8, identity_key: u8) -> String {
    let mut bytes = vec![3u8];
    for (tag, byte) in [(0x0au8, one_time_key), (0x12, base_key), (0x1a, identity_key)] {
        bytes.push(tag);
        bytes.push(32);
        bytes.extend([byte; 32]);
    }
    bytes.extend([0x22, 4, 1, 2, 3, 4]);
    text_of(&bytes)
}

fn alice() -> Account {
    Account::new(
        "@alice:example.org",
        "ALICEDEVICE",
        IdentityKeys { ed25519: key_text(0xa1), curve25519: key_text(0xa2) },
        100,
    )
}

fn bob() -> Account {
    Account::new(
        "@bob:example.org",
        "BOBDEVICE",
        IdentityKeys { ed25519: key_text(0xb1), curve25519: key_text(0xb2) },
        100,
    )
}

fn fresh_keys(first: u8, count: u8) -> Vec<OneTimeKey> {
    (0..count)
        .map(|i| OneTimeKey { id: format!("AAAA{:02}", first + i), key: key_text(first + i) })
        .collect()
}

#[test]
fn account_creation() {
    let mut account = alice();
    let identity_keys = account.identity_keys().duplicate();

    assert!(!account.shared());
    assert!(!identity_keys.ed25519().is_empty());
    assert_ne!(identity_keys.values().len(), 0);
    assert_ne!(identity_keys.keys().len(), 0);
    assert_ne!(identity_keys.iter().len(), 0);
    assert!(identity_keys.contains_key("ed25519"));
    assert_eq!(identity_keys.ed25519(), identity_keys.get("ed25519").unwrap());
    assert!(!identity_keys.curve25519().is_empty());

    account.mark_as_shared();
    assert!(account.shared());
}

#[test]
fn identity_keys_are_found_by_algorithm() {
    let keys = IdentityKeys { ed25519: "signing".to_owned(), curve25519: "agreement".to_owned() };
    assert_eq!(keys.get("ed25519"), Some("signing"));
    assert_eq!(keys.get("curve25519"), Some("agreement"));
    assert_eq!(keys.get("rsa"), None);
    assert!(keys.contains_key("curve25519"));
    assert!(!keys.contains_key("ED25519"));
    assert_eq!(keys.keys(), vec!["ed25519".to_owned(), "curve25519".to_owned()]);
    assert_eq!(keys.values(), vec!["signing".to_owned(), "agreement".to_owned()]);
    assert_eq!(
        keys.iter(),
        vec![
            ("ed25519".to_owned(), "signing".to_owned()),
            ("curve25519".to_owned(), "agreement".to_owned())
        ]
    );
}

#[test]
fn sharing_an_account_is_one_way() {
    let mut account = alice();
    account.mark_as_shared();
    account.mark_as_shared();
    assert!(account.shared());
    assert_eq!(account.user_id(), "@alice:example.org");
    assert_eq!(account.device_id(), "ALICEDEVICE");
}

#[test]
fn one_time_keys_creation() {
    let mut account = alice();
    let one_time_keys = account.one_time_keys();

    assert!(one_time_keys.curve25519().is_empty());
    assert_ne!(account.max_one_time_keys(), 0);

    assert_eq!(account.generate_one_time_keys(&fresh_keys(1, 10)), Ok(10));
    let one_time_keys = account.one_time_keys();

    assert!(!one_time_keys.curve25519().is_empty());
    assert_ne!(one_time_keys.values().len(), 0);
    assert_ne!(one_time_keys.keys().len(), 0);
    assert_ne!(one_time_keys.iter().len(), 0);
    assert!(one_time_keys.contains_key("curve25519"));
    assert_eq!(one_time_keys.curve25519().len(), 10);
    assert_eq!(one_time_keys.curve25519(), one_time_keys.get("curve25519").unwrap());
    assert_eq!(one_time_keys.keys(), vec!["curve25519".to_owned()]);
    assert_eq!(one_time_keys.values()[0], one_time_keys.curve25519());
    assert_eq!(one_time_keys.iter()[0].0, "curve25519");
    assert!(!one_time_keys.contains_key("ed25519"));
    assert!(one_time_keys.get("ed25519").is_none());

    account.mark_keys_as_published();
    let one_time_keys = account.one_time_keys();
    assert!(one_time_keys.curve25519().is_empty());
    assert_eq!(account.one_time_key_count(), 10);
}

#[test]
fn generating_keys_adds_and_never_replaces() {
    let mut account = alice();
    assert_eq!(account.generate_one_time_keys(&fresh_keys(1, 2)), Ok(2));
    account.mark_keys_as_published();
    assert_eq!(account.generate_one_time_keys(&fresh_keys(3, 2)), Ok(2));
    assert_eq!(account.one_time_key_count(), 4);
    let waiting = account.one_time_keys();
    assert_eq!(waiting.curve25519().len(), 2);
    assert_eq!(waiting.curve25519()[0].id, "AAAA03");
    assert_eq!(waiting.curve25519()[0].key, key_text(3));
    assert_eq!(waiting.curve25519()[1].id, "AAAA04");
    let stored = account.stored_one_time_keys();
    assert_eq!(stored.len(), 4);
    assert_eq!(stored[0].id, "AAAA01");
    assert!(stored[0].published);
    assert!(stored[1].published);
    assert!(!stored[2].published);
    assert!(!stored[3].published);
}

#[test]
fn a_batch_with_a_known_key_is_refused_whole() {
    let mut account = alice();
    assert_eq!(account.generate_one_time_keys(&fresh_keys(1, 2)), Ok(2));
    let mut batch = fresh_keys(5, 1);
    batch.push(OneTimeKey { id: "other".to_owned(), key: key_text(2) });
    assert_eq!(account.generate_one_time_keys(&batch), Err(KeyError::Duplicate));
    let mut same_id = fresh_keys(6, 1);
    same_id.push(OneTimeKey { id: "AAAA01".to_owned(), key: key_text(9) });
    assert_eq!(account.generate_one_time_keys(&same_id), Err(KeyError::Duplicate));
    let twice = vec![
        OneTimeKey { id: "x".to_owned(), key: key_text(7) },
        OneTimeKey { id: "y".to_owned(), key: key_text(7) },
    ];
    assert_eq!(account.generate_one_time_keys(&twice), Err(KeyError::Duplicate));
    assert_eq!(account.one_time_key_count(), 2);
    assert_eq!(account.one_time_keys().curve25519().len(), 2);
}

#[test]
fn a_batch_with_a_malformed_key_is_refused_whole() {
    let mut account = alice();
    let batch = vec![
        OneTimeKey { id: "a".to_owned(), key: key_text(1) },
        OneTimeKey { id: "b".to_owned(), key: "too short".to_owned() },
    ];
    assert_eq!(account.generate_one_time_keys(&batch), Err(KeyError::Malformed));
    assert_eq!(account.one_time_key_count(), 0);
}

#[test]
fn a_batch_that_does_not_fit_is_refused_whole() {
    let mut account = Account::new(
        "@alice:example.org",
        "ALICEDEVICE",
        IdentityKeys { ed25519: key_text(0xa1), curve25519: key_text(0xa2) },
        3,
    );
    assert_eq!(account.max_one_time_keys(), 3);
    assert_eq!(account.generate_one_time_keys(&fresh_keys(1, 2)), Ok(2));
    assert_eq!(account.generate_one_time_keys(&fresh_keys(3, 2)), Err(KeyError::PoolFull));
    assert_eq!(account.one_time_key_count(), 2);
    assert_eq!(account.generate_one_time_keys(&fresh_keys(3, 1)), Ok(1));
    assert_eq!(account.generate_one_time_keys(&Vec::new()), Ok(0));
}

#[test]
fn session_creation() {
    let mut alice = alice();
    let bob = bob();
    let alice_keys = alice.identity_keys().duplicate();
    assert_eq!(alice.generate_one_time_keys(&fresh_keys(1, 1)), Ok(1));
    let one_time_keys = alice.one_time_keys();
    alice.mark_keys_as_published();

    let one_time_key =
        SignedKey { key: one_time_keys.curve25519()[0].key.clone(), signature: None };

    let mut bob_session = bob
        .create_outbound_session(
            alice_keys.curve25519(),
            &one_time_key,
            false,
            Ok("session".to_owned()),
            10,
        )
        .unwrap();

    let plaintext = "Hello world";

    // what the ratchet of bob makes of the plaintext: a pre-key message
    let message = bob_session.encrypt(OlmMessage::PreKey(pre_key_message(1, 0x55, 0xb2)), 11);

    let prekey_message = match message.duplicate() {
        OlmMessage::PreKey(m) => m,
        OlmMessage::Normal(_) => panic!("Incorrect message type"),
    };

    let bob_keys = bob.identity_keys().duplicate();
    let mut alice_session = alice
        .create_inbound_session(
            bob_keys.curve25519(),
            &prekey_message,
            Ok(bob_session.session_id().to_owned()),
            12,
        )
        .unwrap();

    assert_eq!(alice_session.matches(bob_keys.curve25519(), &prekey_message), Ok(true));
    assert_eq!(bob_session.matches(bob_keys.curve25519(), &prekey_message), Ok(true));

    assert_eq!(bob_session.session_id(), alice_session.session_id());

    // what the ratchet of alice makes of the message: the plaintext
    assert_eq!(message.message_type(), 0);
    let decrypted = alice_session.decrypt(Ok(plaintext.to_owned()), 13).unwrap();
    assert_eq!(plaintext, decrypted);

    assert_eq!(alice_session.sender_key(), bob_keys.curve25519());
    assert_eq!(bob_session.sender_key(), alice_keys.curve25519());
    assert_eq!(alice_session.creation_time(), 12);
    assert_eq!(alice_session.last_use_time(), 13);
    assert_eq!(bob_session.last_use_time(), 11);
    assert_eq!(alice.one_time_key_count(), 0);
}

#[test]
fn a_one_time_key_serves_once() {
    let mut alice = alice();
    assert_eq!(alice.generate_one_time_keys(&fresh_keys(1, 1)), Ok(1));
    alice.mark_keys_as_published();
    let message = pre_key_message(1, 0x55, 0xb2);
    let sender = key_text(0xb2);

    assert_eq!(alice.locate_one_time_key(&sender, &message), Ok(Some(0)));
    assert!(alice.create_inbound_session(&sender, &message, Ok("first".to_owned()), 1).is_ok());
    assert_eq!(alice.one_time_key_count(), 0);

    assert_eq!(
        alice.locate_one_time_key(&sender, &message),
        Err(SessionCreationError::UnknownOneTimeKey)
    );
    assert_eq!(
        alice.create_inbound_session(&sender, &message, Ok("second".to_owned()), 2).unwrap_err(),
        SessionCreationError::UnknownOneTimeKey
    );
}

#[test]
fn a_failed_handshake_leaves_the_key_in_the_pool() {
    let mut alice = alice();
    assert_eq!(alice.generate_one_time_keys(&fresh_keys(1, 3)), Ok(3));
    let message = pre_key_message(2, 0x55, 0xb2);
    let sender = key_text(0xb2);

    assert_eq!(
        alice
            .create_inbound_session(&sender, &message, Err(CryptoFailure::BadMessageMac), 1)
            .unwrap_err(),
        SessionCreationError::Rejected(CryptoFailure::BadMessageMac)
    );
    assert_eq!(
        alice
            .create_inbound_session(&sender, &message, Err(CryptoFailure::BadMessageKeyId), 1)
            .unwrap_err(),
        SessionCreationError::UnknownOneTimeKey
    );
    assert_eq!(alice.one_time_key_count(), 3);
    assert_eq!(alice.locate_one_time_key(&sender, &message), Ok(Some(1)));

    assert!(alice.create_inbound_session(&sender, &message, Ok("id".to_owned()), 1).is_ok());
    assert_eq!(alice.one_time_key_count(), 2);
    let left = alice.stored_one_time_keys();
    assert_eq!(left[0].id, "AAAA01");
    assert_eq!(left[1].id, "AAAA03");
}

#[test]
fn a_handshake_must_name_a_key_of_the_pool() {
    let mut alice = alice();
    assert_eq!(alice.generate_one_time_keys(&fresh_keys(1, 1)), Ok(1));
    let sender = key_text(0xb2);
    assert_eq!(
        alice
            .create_inbound_session(
                &sender,
                &pre_key_message(9, 0x55, 0xb2),
                Ok("id".to_owned()),
                1
            )
            .unwrap_err(),
        SessionCreationError::UnknownOneTimeKey
    );
    assert_eq!(alice.one_time_key_count(), 1);
}

#[test]
fn a_handshake_must_come_from_the_claimed_sender() {
    let mut alice = alice();
    assert_eq!(alice.generate_one_time_keys(&fresh_keys(1, 1)), Ok(1));
    assert_eq!(
        alice
            .create_inbound_session(
                &key_text(0xc3),
                &pre_key_message(1, 0x55, 0xb2),
                Ok("id".to_owned()),
                1
            )
            .unwrap_err(),
        SessionCreationError::IdentityMismatch
    );
    assert_eq!(alice.one_time_key_count(), 1);
}

#[test]
fn a_handshake_must_be_readable() {
    let mut alice = alice();
    assert_eq!(alice.generate_one_time_keys(&fresh_keys(1, 1)), Ok(1));
    let sender = key_text(0xb2);
    assert_eq!(
        alice.create_inbound_session(&sender, "@@@", Ok("id".to_owned()), 1).unwrap_err(),
        SessionCreationError::MalformedHandshake
    );
    assert_eq!(
        alice.create_inbound_session(&sender, "AwoA", Ok("id".to_owned()), 1).unwrap_err(),
        SessionCreationError::MalformedHandshake
    );
    assert_eq!(
        alice
            .create_inbound_session(
                "short",
                &pre_key_message(1, 0x55, 0xb2),
                Ok("id".to_owned()),
                1
            )
            .unwrap_err(),
        SessionCreationError::MalformedHandshake
    );
    assert_eq!(alice.one_time_key_count(), 1);
}

#[test]
fn an_outbound_session_needs_well_formed_keys() {
    let bob = bob();
    let good = SignedKey { key: key_text(1), signature: None };
    let bad = SignedKey { key: "what".to_owned(), signature: None };
    assert_eq!(
        bob.create_outbound_session(&key_text(0xa2), &bad, true, Ok("id".to_owned()), 1)
            .unwrap_err(),
        KeyError::Malformed
    );
    assert_eq!(
        bob.create_outbound_session("what", &good, true, Ok("id".to_owned()), 1).unwrap_err(),
        KeyError::Malformed
    );
}

#[test]
fn an_outbound_session_needs_a_signature_that_verifies() {
    let bob = bob();
    let signed = SignedKey { key: key_text(1), signature: Some("signature".to_owned()) };
    let unsigned = SignedKey { key: key_text(1), signature: None };
    assert_eq!(
        bob.create_outbound_session(&key_text(0xa2), &signed, false, Ok("id".to_owned()), 1)
            .unwrap_err(),
        KeyError::InvalidSignature
    );
    assert!(bob
        .create_outbound_session(&key_text(0xa2), &signed, true, Ok("id".to_owned()), 1)
        .is_ok());
    assert!(bob
        .create_outbound_session(&key_text(0xa2), &unsigned, false, Ok("id".to_owned()), 1)
        .is_ok());
}

#[test]
fn an_outbound_session_reports_what_the_ratchet_refused() {
    let bob = bob();
    let key = SignedKey { key: key_text(1), signature: None };
    assert_eq!(
        bob.create_outbound_session(
            &key_text(0xa2),
            &key,
            true,
            Err(CryptoFailure::NotEnoughRandom),
            1
        )
        .unwrap_err(),
        KeyError::Rejected(CryptoFailure::NotEnoughRandom)
    );
    assert_eq!(
        bob.create_outbound_session(
            &key_text(0xa2),
            &key,
            true,
            Err(CryptoFailure::InvalidBase64),
            1
        )
        .unwrap_err(),
        KeyError::Malformed
    );
}

#[test]
fn group_session_creation() {
    let alice = alice();
    let room_id = "!test:localhost";

    let (mut outbound, paired) = alice
        .create_group_session_pair(
            room_id,
            EncryptionSettings::default(),
            "group session".to_owned(),
            5,
        )
        .unwrap();

    assert_eq!(0, outbound.message_index());
    assert!(!outbound.shared());
    outbound.mark_as_shared();
    assert!(outbound.shared());

    // the key that the sending side shares at its first index
    let mut session_key = vec![2u8, 0, 0, 0, 0];
    session_key.resize(229, 0x11);
    let inbound = InboundGroupSession::new(
        "test_key",
        "test_key",
        room_id,
        &text_of(&session_key),
        Ok(GroupRatchet {
            session_id: outbound.session_id().to_owned(),
            first_known_index: 0,
        }),
        None,
    )
    .unwrap();

    assert_eq!(0, inbound.first_known_index());
    assert_eq!(outbound.session_id(), inbound.session_id());
    assert_eq!(outbound.session_id(), paired.session_id());

    let plaintext = "This is a secret to everybody".to_owned();
    let payload = outbound.prepare("m.room.message", &plaintext, 6).unwrap();
    let (ciphertext, index) = outbound.encrypt("ciphertext".to_owned()).unwrap();
    assert_eq!(
        plaintext,
        inbound.decrypt(&ciphertext, Ok((Some(payload), index))).unwrap().0.content
    );

    assert_eq!(outbound.room_id(), room_id);
    assert_eq!(paired.room_id(), room_id);
    assert_eq!(paired.sender_key(), alice.identity_keys().curve25519());
    assert_eq!(paired.signing_key().unwrap(), alice.identity_keys().ed25519());
    assert_eq!(paired.history_visibility(), Some(HistoryVisibility::Shared));
    assert_eq!(0, paired.first_known_index());
    assert!(!paired.imported());
    assert_eq!(outbound.creation_time(), 5);
}

#[test]
fn a_group_session_needs_the_group_algorithm() {
    let alice = alice();
    let settings = EncryptionSettings::new(
        EventEncryptionAlgorithm::OlmV1Curve25519AesSha2,
        None,
        None,
        HistoryVisibility::Joined,
    );
    assert_eq!(
        alice.create_group_session_pair("!room:localhost", settings, "id".to_owned(), 0).unwrap_err(),
        SessionCreationError::UnsupportedAlgorithm
    );
}

#[test]
fn the_fallback_key_serves_without_being_consumed() {
    let mut alice = alice();
    assert!(alice.fallback_key().is_none());
    assert_eq!(
        alice.generate_fallback_key(OneTimeKey { id: "f".to_owned(), key: "bad".to_owned() }),
        Err(KeyError::Malformed)
    );
    assert!(alice.fallback_key().is_none());
    assert_eq!(
        alice.generate_fallback_key(OneTimeKey { id: "f".to_owned(), key: key_text(0x77) }),
        Ok(())
    );
    assert_eq!(alice.fallback_key().unwrap().id, "f");
    assert_eq!(alice.generate_one_time_keys(&fresh_keys(1, 1)), Ok(1));

    let sender = key_text(0xb2);
    let on_fallback = pre_key_message(0x77, 0x55, 0xb2);
    assert_eq!(alice.locate_one_time_key(&sender, &on_fallback), Ok(None));
    assert!(alice.create_inbound_session(&sender, &on_fallback, Ok("a".to_owned()), 1).is_ok());
    assert!(alice.create_inbound_session(&sender, &on_fallback, Ok("b".to_owned()), 2).is_ok());
    assert_eq!(alice.one_time_key_count(), 1);
    assert_eq!(alice.fallback_key().unwrap().key, key_text(0x77));

    // the key before the present one still serves, the one before that does not
    assert_eq!(
        alice.generate_fallback_key(OneTimeKey { id: "g".to_owned(), key: key_text(0x78) }),
        Ok(())
    );
    assert_eq!(alice.previous_fallback_key().unwrap().id, "f");
    assert_eq!(alice.locate_one_time_key(&sender, &on_fallback), Ok(None));
    assert_eq!(
        alice.generate_fallback_key(OneTimeKey { id: "h".to_owned(), key: key_text(0x79) }),
        Ok(())
    );
    assert_eq!(alice.fallback_key().unwrap().id, "h");
    assert_eq!(alice.previous_fallback_key().unwrap().id, "g");
    assert_eq!(
        alice.locate_one_time_key(&sender, &on_fallback),
        Err(SessionCreationError::UnknownOneTimeKey)
    );
}
