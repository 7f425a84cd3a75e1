//! The layout of the key of a group session.
//!
//! The key that a sender shares and the key that a receiver exports are laid
//! out alike: a version byte, which tells the two apart, then the index at
//! which the ratchet stands as four bytes, highest first, then the state of
//! the ratchet. The text form is unpadded base64.

use vstd::prelude::*;
use crate::base64::decode;
use crate::base64::decoded;
use crate::text::bytes_of;

verus! {

/// The version of a key as its sender shares it.
pub const SHARED_KEY_VERSION: u8 = 2;

/// The version of a key as a receiver exports it.
pub const EXPORTED_KEY_VERSION: u8 = 1;

/// The number that four bytes stand for, highest byte first.
pub open spec fn big_endian(b0: u8, b1: u8, b2: u8, b3: u8) -> u32 {
    (b0 * 0x100_0000 + b1 * 0x1_0000 + b2 * 0x100 + b3) as u32
}

/// The index at which the key in `bytes` stands, if `bytes` starts like a
/// key of the version `version`.
pub open spec fn index_in(bytes: Seq<u8>, version: u8) -> Option<u32> {
    if bytes.len() >= 5 && bytes[0] == version {
        Some(big_endian(bytes[1], bytes[2], bytes[3], bytes[4]))
    } else {
        None
    }
}

/// The index at which the key `key` stands, if it reads like a key of the
/// version `version`.
pub open spec fn key_index(key: Seq<char>, version: u8) -> Option<u32> {
    match decoded(bytes_of(key)) {
        Some(bytes) => index_in(bytes, version),
        None => None,
    }
}

/// Reads the index at which a key stands.
pub fn read_key_index(key: &str, version: u8) -> (r: Option<u32>)
    ensures
        r == key_index(key@, version),
{
    match decode(key.as_bytes()) {
        Some(bytes) => {
            if bytes.len() >= 5 && bytes[0] == version {
                let b0 = bytes[1] as u32;
                let b1 = bytes[2] as u32;
                let b2 = bytes[3] as u32;
                let b3 = bytes[4] as u32;
                Some(b0 * 0x100_0000 + b1 * 0x1_0000 + b2 * 0x100 + b3)
            } else {
                None
            }
        },
        None => None,
    }
}

} // verus!
