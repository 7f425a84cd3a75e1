use olm_engine::base64::decode;
use olm_engine::group_key::read_key_index;
use olm_engine::keys::decode_key;
use olm_engine::text::{same_bytes, same_text, text_before};
use olm_engine::wire::Handshake;

fn handshake_bytes(one_time_key: u8, base_key: u8, identity_key: u8) -> Vec<u8> {
    let mut bytes = vec![3u8];
    bytes.push(0x0a);
    bytes.push(32);
    bytes.extend(std::iter::repeat(one_time_key).take(32));
    bytes.push(0x12);
    bytes.push(32);
    bytes.extend(std::iter::repeat(base_key).take(32));
    bytes.push(0x1a);
    bytes.push(32);
    bytes.extend(std::iter::repeat(identity_key).take(32));
    bytes.push(0x22);
    bytes.push(3);
    bytes.extend([9u8, 8, 7]);
    bytes
}

#[test]
fn base64_reads_whole_groups() {
    assert_eq!(decode(b"TWFu"), Some(b"Man".to_vec()));
    assert_eq!(decode(b"TWFuTWFu"), Some(b"ManMan".to_vec()));
}

#[test]
fn base64_reads_a_short_last_group() {
    assert_eq!(decode(b"TWE"), Some(b"Ma".to_vec()));
    assert_eq!(decode(b"TQ"), Some(b"M".to_vec()));
}

#[test]
fn base64_reads_the_empty_text() {
    assert_eq!(decode(b""), Some(Vec::new()));
}

#[test]
fn base64_reads_every_kind_of_character() {
    assert_eq!(decode(b"+/+/"), Some(vec![0xfb, 0xff, 0xbf]));
    assert_eq!(decode(b"AAAA"), Some(vec![0, 0, 0]));
    assert_eq!(decode(b"az09"), Some(vec![0x6b, 0x3d, 0x3d]));
}

#[test]
fn base64_refuses_a_length_that_nothing_encodes_to() {
    assert_eq!(decode(b"A"), None);
    assert_eq!(decode(b"TWFuT"), None);
}

#[test]
fn base64_reads_a_foreign_character_as_set_bits() {
    assert_eq!(decode(b"TQ=="), Some(vec![77, 63, 255]));
    assert_eq!(decode(b"TW u"), Some(vec![77, 127, 238]));
    assert_eq!(decode(b"TW-u"), Some(vec![77, 127, 238]));
    assert_eq!(decode(b"!!!!"), Some(vec![255, 255, 255]));
    assert_eq!(decode(b"@@@"), Some(vec![255, 255]));
    // only the seven low bits of a character count
    assert_eq!(decode(&[0xd4, b'W', b'F', b'u']), Some(b"Man".to_vec()));
}

#[test]
fn a_key_is_forty_three_characters() {
    let key = "A".repeat(43);
    assert_eq!(decode_key(&key), Some(vec![0u8; 32]));
    assert_eq!(decode_key(&"A".repeat(42)), None);
    assert_eq!(decode_key(&"A".repeat(44)), None);
    assert_eq!(decode_key("not a key"), None);
    // whatever has the length of a key reads as one
    assert_eq!(decode_key(&"!".repeat(43)), Some(vec![255u8; 32]));
}

#[test]
fn handshake_names_its_three_keys() {
    let handshake = Handshake::parse(&handshake_bytes(1, 2, 3)).unwrap();
    assert_eq!(handshake.one_time_key, vec![1u8; 32]);
    assert_eq!(handshake.base_key, vec![2u8; 32]);
    assert_eq!(handshake.identity_key, vec![3u8; 32]);
}

#[test]
fn handshake_fields_come_in_any_order() {
    let mut bytes = vec![3u8, 0x22, 1, 0xff, 0x1a, 32];
    bytes.extend([3u8; 32]);
    bytes.extend([0x0a, 32]);
    bytes.extend([1u8; 32]);
    bytes.extend([0x12, 32]);
    bytes.extend([2u8; 32]);
    let handshake = Handshake::parse(&bytes).unwrap();
    assert_eq!(handshake.one_time_key, vec![1u8; 32]);
    assert_eq!(handshake.base_key, vec![2u8; 32]);
    assert_eq!(handshake.identity_key, vec![3u8; 32]);
}

#[test]
fn handshake_passes_over_fields_it_does_not_know() {
    let mut bytes = handshake_bytes(1, 2, 3);
    // an integer field and a string field with tags of their own
    bytes.extend([0x28, 0x85, 0x01]);
    bytes.extend([0x32, 2, 0xaa, 0xbb]);
    let handshake = Handshake::parse(&bytes).unwrap();
    assert_eq!(handshake.one_time_key, vec![1u8; 32]);
}

#[test]
fn handshake_takes_the_last_of_a_repeated_field() {
    let mut bytes = handshake_bytes(1, 2, 3);
    bytes.extend([0x0a, 32]);
    bytes.extend([7u8; 32]);
    let handshake = Handshake::parse(&bytes).unwrap();
    assert_eq!(handshake.one_time_key, vec![7u8; 32]);
}

#[test]
fn handshake_reads_a_length_of_several_bytes() {
    // 0xa0 0x00 is 32 written with a spare byte
    let mut bytes = vec![3u8, 0x0a, 0xa0, 0x00];
    bytes.extend([1u8; 32]);
    bytes.extend([0x12, 32]);
    bytes.extend([2u8; 32]);
    bytes.extend([0x1a, 32]);
    bytes.extend([3u8; 32]);
    bytes.extend([0x22, 0x80, 0x01]);
    bytes.extend([5u8; 128]);
    let handshake = Handshake::parse(&bytes).unwrap();
    assert_eq!(handshake.one_time_key, vec![1u8; 32]);
    assert_eq!(handshake.identity_key, vec![3u8; 32]);
}

#[test]
fn handshake_leaves_the_version_to_the_ratchet() {
    let mut bytes = handshake_bytes(1, 2, 3);
    bytes[0] = 2;
    let handshake = Handshake::parse(&bytes).unwrap();
    assert_eq!(handshake.one_time_key, vec![1u8; 32]);
    assert!(Handshake::parse(&[]).is_none());
}

#[test]
fn handshake_needs_every_field() {
    let mut bytes = vec![3u8, 0x0a, 32];
    bytes.extend([1u8; 32]);
    bytes.extend([0x12, 32]);
    bytes.extend([2u8; 32]);
    bytes.extend([0x1a, 32]);
    bytes.extend([3u8; 32]);
    // no message
    assert!(Handshake::parse(&bytes).is_none());
    assert!(Handshake::parse(&[3u8]).is_none());
}

#[test]
fn handshake_needs_keys_of_the_right_length() {
    let mut bytes = vec![3u8, 0x0a, 31];
    bytes.extend([1u8; 31]);
    bytes.extend([0x12, 32]);
    bytes.extend([2u8; 32]);
    bytes.extend([0x1a, 32]);
    bytes.extend([3u8; 32]);
    bytes.extend([0x22, 1, 0]);
    assert!(Handshake::parse(&bytes).is_none());
}

#[test]
fn handshake_goes_by_the_fields_seen_before_one_is_cut_short() {
    // the message, which comes last, is cut short: it was not seen
    let bytes = handshake_bytes(1, 2, 3);
    assert!(Handshake::parse(&bytes[..bytes.len() - 1]).is_none());
    // behind a whole handshake, a field that claims more bytes than there are
    let mut long = handshake_bytes(1, 2, 3);
    long.extend([0x32, 0xff, 0xff, 0xff, 0xff, 0x0f]);
    assert_eq!(Handshake::parse(&long).unwrap().base_key, vec![2u8; 32]);
    // and an integer that does not end
    let mut open_ended = handshake_bytes(1, 2, 3);
    open_ended.extend([0x28, 0x80]);
    assert_eq!(Handshake::parse(&open_ended).unwrap().identity_key, vec![3u8; 32]);
    // a key that is cut short hides what comes behind it
    let mut hidden = vec![3u8, 0x0a, 33];
    hidden.extend(handshake_bytes(1, 2, 3));
    assert!(Handshake::parse(&hidden[..40]).is_none());
}

#[test]
fn handshake_stops_at_a_kind_of_field_it_cannot_skip() {
    let mut bytes = handshake_bytes(1, 2, 3);
    bytes.extend([0x0d, 0, 0, 0, 0]);
    bytes.extend([0x0a, 32]);
    bytes.extend([7u8; 32]);
    // what stands behind the field is not read
    assert_eq!(Handshake::parse(&bytes).unwrap().one_time_key, vec![1u8; 32]);
}

#[test]
fn handshake_reads_a_length_as_sixty_four_bits_give_it() {
    // 2^64 + 32, which sixty-four bits hold as 32
    let mut bytes = vec![3u8, 0x0a, 0xa0, 0x80, 0x80, 0x80, 0x80, 0x80, 0x80, 0x80, 0x80, 0x02];
    bytes.extend([1u8; 32]);
    bytes.extend([0x12, 32]);
    bytes.extend([2u8; 32]);
    bytes.extend([0x1a, 32]);
    bytes.extend([3u8; 32]);
    bytes.extend([0x22, 0]);
    let handshake = Handshake::parse(&bytes).unwrap();
    assert_eq!(handshake.one_time_key, vec![1u8; 32]);
    assert_eq!(handshake.base_key, vec![2u8; 32]);
}

#[test]
fn handshake_is_read_from_its_text() {
    // version 3 and four fields, the keys all of the byte 0x00, 0x01 and 0x02
    let bytes = handshake_bytes(0, 1, 2);
    let text = encode_for_test(&bytes);
    let handshake = Handshake::read(&text).unwrap();
    assert_eq!(handshake.one_time_key, vec![0u8; 32]);
    assert_eq!(handshake.base_key, vec![1u8; 32]);
    assert_eq!(handshake.identity_key, vec![2u8; 32]);
    assert!(Handshake::read("AwoA").is_none());
    assert!(Handshake::read("not base64!").is_none());
}

#[test]
fn handshakes_are_told_apart_by_their_keys() {
    let one = Handshake::parse(&handshake_bytes(1, 2, 3)).unwrap();
    let same = Handshake::parse(&handshake_bytes(1, 2, 3)).unwrap();
    let other = Handshake::parse(&handshake_bytes(1, 9, 3)).unwrap();
    assert!(one.same(&same));
    assert!(!one.same(&other));
    assert!(one.same(&one.duplicate()));
}

#[test]
fn texts_are_compared_by_their_bytes() {
    assert!(same_text("abc", "abc"));
    assert!(!same_text("abc", "abd"));
    assert!(!same_text("abc", "ab"));
    assert!(same_bytes(&[1, 2], &[1, 2]));
    assert!(!same_bytes(&[1, 2], &[2, 1]));
}

#[test]
fn texts_are_ordered_like_words() {
    assert!(text_before("a", "b"));
    assert!(text_before("a", "ab"));
    assert!(text_before("", "a"));
    assert!(text_before("Zz", "a"));
    assert!(!text_before("b", "a"));
    assert!(!text_before("ab", "a"));
    assert!(!text_before("a", "a"));
    assert!(!text_before("", ""));
}

fn encode_for_test(bytes: &[u8]) -> String {
    let alphabet = b"ABCDEFGHIJKLMNOPQRSTUVWXYZabcdefghijklmnopqrstuvwxyz0123456789+/";
    let mut text = String::new();
    for chunk in bytes.chunks(3) {
        let b0 = chunk[0] as u32;
        let b1 = *chunk.get(1).unwrap_or(&0) as u32;
        let b2 = *chunk.get(2).unwrap_or(&0) as u32;
        let n = (b0 << 16) | (b1 << 8) | b2;
        text.push(alphabet[(n >> 18) as usize & 63] as char);
        text.push(alphabet[(n >> 12) as usize & 63] as char);
        if chunk.len() > 1 {
            text.push(alphabet[(n >> 6) as usize & 63] as char);
        }
        if chunk.len() > 2 {
            text.push(alphabet[n as usize & 63] as char);
        }
    }
    text
}

#[test]
fn the_index_of_a_group_key_is_read_from_its_first_bytes() {
    // 0x02 0x00 0x00 0x00 0x04
    assert_eq!(read_key_index("AgAAAAQ", 2), Some(4));
    assert_eq!(read_key_index("AgAAAAQ", 1), None);
    assert_eq!(read_key_index(&encode_for_test(&[1, 0x12, 0x34, 0x56, 0x78, 9, 9]), 1), Some(0x12345678));
    assert_eq!(read_key_index(&encode_for_test(&[1, 0xff, 0xff, 0xff, 0xff]), 1), Some(u32::MAX));
    assert_eq!(read_key_index(&encode_for_test(&[1, 0, 0, 0]), 1), None);
    assert_eq!(read_key_index("", 1), None);
    assert_eq!(read_key_index("!!!!", 1), None);
}
