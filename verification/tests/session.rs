use olm_engine::error::{CryptoFailure, DecryptionError, SessionCreationError};
use olm_engine::message::{OlmMessage, UnknownMessageType};
use olm_engine::replay::{MessageHashLog, OlmMessageHash, Sighting};
use olm_engine::session::{select_session, Session};
use olm_engine::wire::Handshake;

fn as_text(bytes: &[u8]) -> String {
    let alphabet = b"ABCDEFGHIJKLMNOPQRSTUVWXYZabcdefghijklmnopqrstuvwxyz0123456789+/";
    let mut text = String::new();
    for chunk in bytes.chunks(3) {
        let b0 = chunk[0] as u32;
        let b1 = *chunk.get(1).unwrap_or(&0) as u32;
        let b2 = *chunk.get(2).unwrap_or(&0) as u32;
        let n = (b0 << 16) | (b1 << 8) | b2;
        text.push(alphabet[(n >> 18) as usize & 63] as char);
        text.push(alphabet[(n >> 12) as usize & 63] as char);
        if chunk.len() > 1 {
            text.push(alphabet[(n >> 6) as usize & 63] as char);
        }
        if chunk.len() > 2 {
            text.push(alphabet[n as usize & 63] as char);
        }
    }
    text
}

fn handshake_text(one_time_key: u8, base_key: u8, identity_key: u8) -> String {
    let mut bytes = vec![3u8];
    for (tag, byte) in [(0x0au8, one_time_key), (0x12, base_key), (0x1a, identity_key)] {
        bytes.push(tag);
        bytes.push(32);
        bytes.extend([byte; 32]);
    }
    bytes.extend([0x22, 2, 1, 2]);
    as_text(&bytes)
}

fn session(id: &str, last_use: u64) -> Session {
    Session::restore(id.to_owned(), as_text(&[7; 32]), None, 0, last_use)
}

#[test]
fn a_message_keeps_its_kind_on_the_wire() {
    let pre_key = OlmMessage::from_type_and_ciphertext(0, "body".to_owned()).unwrap();
    assert!(matches!(&pre_key, OlmMessage::PreKey(body) if body == "body"));
    assert_eq!(pre_key.message_type(), 0);
    assert_eq!(pre_key.body(), "body");
    assert_eq!(pre_key.to_tuple(), (0, "body".to_owned()));

    let normal = OlmMessage::from_type_and_ciphertext(1, "text".to_owned()).unwrap();
    assert!(matches!(&normal, OlmMessage::Normal(body) if body == "text"));
    assert_eq!(normal.duplicate().to_tuple(), (1, "text".to_owned()));
}

#[test]
fn a_message_of_an_unknown_type_is_refused() {
    assert_eq!(
        OlmMessage::from_type_and_ciphertext(2, "body".to_owned()).unwrap_err(),
        UnknownMessageType
    );
    assert!(OlmMessage::from_type_and_ciphertext(usize::MAX, String::new()).is_err());
}

#[test]
fn encrypting_hands_the_message_on_and_counts_as_use() {
    let mut session = Session::new("id".to_owned(), "key".to_owned(), None, 10);
    let message = session.encrypt(OlmMessage::Normal("ciphertext".to_owned()), 25);
    assert_eq!(message.to_tuple(), (1, "ciphertext".to_owned()));
    assert_eq!(session.last_use_time(), 25);
    assert_eq!(session.creation_time(), 10);
    assert!(session.handshake().is_none());
}

#[test]
fn the_first_pre_key_message_tells_the_handshake() {
    let mut session = Session::new("id".to_owned(), as_text(&[1; 32]), None, 0);
    let first = handshake_text(1, 2, 3);
    let message = session.encrypt(OlmMessage::PreKey(first.clone()), 1);
    assert_eq!(message.to_tuple(), (0, first.clone()));
    assert_eq!(session.handshake().unwrap().base_key, vec![2u8; 32]);

    // a later pre-key message does not change what the session grew from
    session.encrypt(OlmMessage::PreKey(handshake_text(1, 9, 3)), 2);
    assert_eq!(session.handshake().unwrap().base_key, vec![2u8; 32]);
    assert_eq!(session.matches(&as_text(&[3; 32]), &first), Ok(true));
}

#[test]
fn the_time_of_last_use_never_goes_back() {
    let mut session = Session::new("id".to_owned(), "key".to_owned(), None, 100);
    session.touch(50);
    assert_eq!(session.last_use_time(), 100);
    session.touch(150);
    assert_eq!(session.last_use_time(), 150);
    assert_eq!(session.decrypt(Ok("hello".to_owned()), 120), Ok("hello".to_owned()));
    assert_eq!(session.last_use_time(), 150);
}

#[test]
fn decrypting_hands_the_plaintext_on_and_counts_as_use() {
    let mut session = Session::new("id".to_owned(), "key".to_owned(), None, 1);
    assert_eq!(session.decrypt(Ok("Hello world".to_owned()), 9), Ok("Hello world".to_owned()));
    assert_eq!(session.last_use_time(), 9);
}

#[test]
fn a_failed_decryption_leaves_the_session_as_it_was() {
    let mut session = Session::new("id".to_owned(), "key".to_owned(), None, 1);
    assert_eq!(
        session.decrypt(Err(CryptoFailure::BadMessageMac), 9),
        Err(DecryptionError::BadMac)
    );
    assert_eq!(session.last_use_time(), 1);
    assert_eq!(
        session.decrypt(Err(CryptoFailure::BadMessageFormat), 9),
        Err(DecryptionError::Malformed)
    );
    assert_eq!(
        session.decrypt(Err(CryptoFailure::BadMessageVersion), 9),
        Err(DecryptionError::Malformed)
    );
    assert_eq!(
        session.decrypt(Err(CryptoFailure::InvalidBase64), 9),
        Err(DecryptionError::Malformed)
    );
    assert_eq!(
        session.decrypt(Err(CryptoFailure::UnknownMessageIndex), 9),
        Err(DecryptionError::UnknownMessageIndex)
    );
    assert_eq!(
        session.decrypt(Err(CryptoFailure::BadMessageKeyId), 9),
        Err(DecryptionError::Backend(CryptoFailure::BadMessageKeyId))
    );
    assert_eq!(session.last_use_time(), 1);
    assert_eq!(session.session_id(), "id");
}

#[test]
fn a_session_matches_the_handshake_it_grew_from() {
    let text = handshake_text(1, 2, 3);
    let sender = as_text(&[3; 32]);
    let session =
        Session::new("id".to_owned(), sender.clone(), Handshake::read(&text), 0);
    assert_eq!(session.matches(&sender, &text), Ok(true));
    assert_eq!(session.matches(&sender, &handshake_text(1, 8, 3)), Ok(false));
    assert_eq!(session.matches(&sender, &handshake_text(4, 2, 3)), Ok(false));
    assert_eq!(session.matches(&as_text(&[9; 32]), &text), Ok(false));
    assert_eq!(session.last_use_time(), 0);
}

#[test]
fn a_session_without_a_handshake_matches_none() {
    let session = Session::new("id".to_owned(), as_text(&[3; 32]), None, 0);
    assert_eq!(session.matches(&as_text(&[3; 32]), &handshake_text(1, 2, 3)), Ok(false));
}

#[test]
fn matching_needs_a_readable_message_and_key() {
    let text = handshake_text(1, 2, 3);
    let session = Session::new("id".to_owned(), as_text(&[3; 32]), Handshake::read(&text), 0);
    assert_eq!(
        session.matches(&as_text(&[3; 32]), "????"),
        Err(SessionCreationError::MalformedHandshake)
    );
    assert_eq!(session.matches("short", &text), Err(SessionCreationError::MalformedHandshake));
}

#[test]
fn the_session_used_last_is_selected() {
    let sessions = vec![session("a", 5), session("b", 9), session("c", 7)];
    assert_eq!(select_session(&sessions), Some(1));
    assert!(sessions[1].preferred_to(&sessions[0]));
    assert!(!sessions[0].preferred_to(&sessions[1]));
}

#[test]
fn sessions_used_at_one_time_are_told_by_their_id() {
    let sessions = vec![session("m", 5), session("b", 5), session("x", 5), session("a", 4)];
    assert_eq!(select_session(&sessions), Some(1));
    assert!(sessions[1].preferred_to(&sessions[2]));
    assert!(!sessions[1].preferred_to(&sessions[1]));
}

#[test]
fn no_session_is_selected_among_none() {
    assert_eq!(select_session(&Vec::new()), None);
    assert_eq!(select_session(&vec![session("only", 0)]), Some(0));
}

#[test]
fn a_message_decrypted_again_is_reported() {
    let mut log = MessageHashLog::new();
    let hash = || OlmMessageHash { sender_key: "sender".to_owned(), hash: "hash".to_owned() };
    assert!(matches!(log.observe(hash(), "session one"), Sighting::Fresh));
    assert_eq!(log.len(), 1);
    assert!(matches!(log.observe(hash(), "session one"), Sighting::Repeated));
    assert!(matches!(
        log.observe(hash(), "session two"),
        Sighting::RepeatedElsewhere(first) if first == "session one"
    ));
    assert_eq!(log.len(), 1);
}

#[test]
fn messages_are_told_by_sender_and_hash() {
    let mut log = MessageHashLog::new();
    let of = |sender: &str, hash: &str| OlmMessageHash {
        sender_key: sender.to_owned(),
        hash: hash.to_owned(),
    };
    assert!(matches!(log.observe(of("a", "1"), "s"), Sighting::Fresh));
    assert!(matches!(log.observe(of("a", "2"), "s"), Sighting::Fresh));
    assert!(matches!(log.observe(of("b", "1"), "t"), Sighting::Fresh));
    assert!(matches!(
        log.observe(of("b", "1"), "s"),
        Sighting::RepeatedElsewhere(first) if first == "t"
    ));
    assert_eq!(log.len(), 3);
}
