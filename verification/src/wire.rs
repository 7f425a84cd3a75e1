//! The layout of a handshake message.
//!
//! A handshake is a version byte followed by tagged fields. A tag is a
//! variable-length integer whose three lowest bits give the kind of the
//! value: 0 for an integer, 2 for a string, which is a length and that many
//! bytes. Integers are stored seven bits to a byte, lowest bits first, with
//! the high bit set on every byte but the last.
//!
//! The reading is as forgiving as the ratchet's own: it does not judge the
//! version, and where a field is cut short or of a kind that cannot be
//! skipped it stops and goes by the fields it has seen.

use vstd::prelude::*;
use vstd::slice::slice_subrange;
use vstd::slice::slice_to_vec;
use crate::base64::decode;
use crate::base64::decoded;
use crate::text::bytes_of;
use crate::text::same_bytes;

verus! {

/// The tag of the one-time key that the handshake consumes.
pub const ONE_TIME_KEY_TAG: u8 = 0x0a;

/// The tag of the sender's single-use base key.
pub const BASE_KEY_TAG: u8 = 0x12;

/// The tag of the sender's identity key.
pub const IDENTITY_KEY_TAG: u8 = 0x1a;

/// The tag of the first message, which the handshake carries along.
pub const MESSAGE_TAG: u8 = 0x22;

/// The length of a public key.
pub const KEY_LENGTH: usize = 32;

/// One past the last byte of the integer that starts at `pos`; the end of
/// the bytes where the integer does not end before them.
pub open spec fn varint_skip(bytes: Seq<u8>, pos: int) -> int
    decreases bytes.len() - pos,
{
    if pos < 0 || pos >= bytes.len() {
        bytes.len() as int
    } else if bytes[pos] < 0x80 {
        pos + 1
    } else {
        varint_skip(bytes, pos + 1)
    }
}

/// The value of the integer stored in `bytes[start..end]`, as arithmetic
/// on 64 bits gives it.
pub open spec fn varint_value(bytes: Seq<u8>, start: int, end: int) -> nat
    decreases end - start,
{
    if start >= end {
        0
    } else {
        (((bytes[start] % 128) as nat + 128 * varint_value(bytes, start + 1, end))
            % 0x1_0000_0000_0000_0000) as nat
    }
}

/// Where the string lies whose length starts at `pos`: its start and its
/// length, if that many bytes are there.
pub open spec fn string_at(bytes: Seq<u8>, pos: int) -> Option<(int, int)> {
    let start = varint_skip(bytes, pos);
    let len = varint_value(bytes, pos, start);
    if len <= bytes.len() - start {
        Some((start, len as int))
    } else {
        None
    }
}

/// Whether `tag` is one of the four tags of a handshake.
pub open spec fn is_known(tag: u8) -> bool {
    tag == ONE_TIME_KEY_TAG || tag == BASE_KEY_TAG || tag == IDENTITY_KEY_TAG || tag
        == MESSAGE_TAG
}

/// Where the reading goes on after the field at `pos`: behind the field,
/// or at the end of the bytes where the field is cut short or of a kind
/// that cannot be skipped.
pub open spec fn next_after(bytes: Seq<u8>, pos: int) -> int {
    let tag = bytes[pos];
    if is_known(tag) {
        match string_at(bytes, pos + 1) {
            Some((start, len)) => start + len,
            None => bytes.len() as int,
        }
    } else if tag % 8 == 0 {
        varint_skip(bytes, varint_skip(bytes, pos))
    } else if tag % 8 == 2 {
        match string_at(bytes, varint_skip(bytes, pos)) {
            Some((start, len)) => start + len,
            None => bytes.len() as int,
        }
    } else {
        bytes.len() as int
    }
}

/// Where the fields of a handshake were last seen: start and length of each.
pub struct Spans {
    pub one_time_key: Option<(usize, usize)>,
    pub base_key: Option<(usize, usize)>,
    pub identity_key: Option<(usize, usize)>,
    pub message: Option<(usize, usize)>,
}

/// No field seen yet.
pub open spec fn no_spans() -> Spans {
    Spans { one_time_key: None, base_key: None, identity_key: None, message: None }
}

/// `spans` after the field at `pos` was read: a field of a handshake that
/// is there in full takes the place of an earlier one of its tag; anything
/// else leaves no trace.
pub open spec fn noted(spans: Spans, bytes: Seq<u8>, pos: int) -> Spans {
    let tag = bytes[pos];
    match string_at(bytes, pos + 1) {
        Some((start, len)) => {
            let span = Some((start as usize, len as usize));
            if tag == ONE_TIME_KEY_TAG {
                Spans { one_time_key: span, ..spans }
            } else if tag == BASE_KEY_TAG {
                Spans { base_key: span, ..spans }
            } else if tag == IDENTITY_KEY_TAG {
                Spans { identity_key: span, ..spans }
            } else if tag == MESSAGE_TAG {
                Spans { message: span, ..spans }
            } else {
                spans
            }
        },
        None => spans,
    }
}

/// The fields seen when `bytes` is read from `pos` on, starting from
/// `spans`.
pub open spec fn scanned(bytes: Seq<u8>, pos: int, spans: Spans) -> Spans
    decreases bytes.len() - pos,
{
    if pos < 0 || pos >= bytes.len() {
        spans
    } else {
        let next = next_after(bytes, pos);
        if pos < next <= bytes.len() {
            scanned(bytes, next, noted(spans, bytes, pos))
        } else {
            spans
        }
    }
}

/// The key that lies at `span`, if the span has the length of a key.
pub open spec fn key_in(bytes: Seq<u8>, span: Option<(usize, usize)>) -> Option<Seq<u8>> {
    match span {
        Some((start, len)) => if len == KEY_LENGTH {
            Some(bytes.subrange(start as int, start + len))
        } else {
            None
        },
        None => None,
    }
}

/// What a handshake names.
#[derive(Debug)]
pub struct Handshake {
    /// The receiver's one-time key that the handshake consumes.
    pub one_time_key: Vec<u8>,
    /// The sender's single-use base key.
    pub base_key: Vec<u8>,
    /// The sender's identity key.
    pub identity_key: Vec<u8>,
}

/// The model of a handshake: the three keys as byte strings.
pub struct HandshakeView {
    pub one_time_key: Seq<u8>,
    pub base_key: Seq<u8>,
    pub identity_key: Seq<u8>,
}

impl View for Handshake {
    type V = HandshakeView;

    open spec fn view(&self) -> HandshakeView {
        HandshakeView {
            one_time_key: self.one_time_key@,
            base_key: self.base_key@,
            identity_key: self.identity_key@,
        }
    }
}

/// The handshake that `bytes` lays out: a first byte, then fields among
/// which the three keys, each of the length of a key, and the first
/// message.
pub open spec fn handshake_in(bytes: Seq<u8>) -> Option<HandshakeView> {
    let spans = scanned(bytes, 1, no_spans());
    match (
        key_in(bytes, spans.one_time_key),
        key_in(bytes, spans.base_key),
        key_in(bytes, spans.identity_key),
        spans.message,
    ) {
        (Some(one_time_key), Some(base_key), Some(identity_key), Some(_)) => Some(
            HandshakeView { one_time_key, base_key, identity_key },
        ),
        _ => None,
    }
}

/// The handshake that a pre-key message carries: the message is unpadded
/// base64 of the handshake's bytes.
pub open spec fn handshake_of(message: Seq<char>) -> Option<HandshakeView> {
    match decoded(bytes_of(message)) {
        Some(bytes) => handshake_in(bytes),
        None => None,
    }
}

fn skip_varint(bytes: &[u8], pos: usize) -> (r: usize)
    requires
        pos <= bytes.len(),
    ensures
        r == varint_skip(bytes@, pos as int),
        pos <= r <= bytes.len(),
        pos < bytes.len() ==> pos < r,
{
    let n = bytes.len();
    let mut i: usize = pos;
    while i < n
        invariant
            pos <= i <= n,
            n == bytes.len(),
            varint_skip(bytes@, pos as int) == varint_skip(bytes@, i as int),
        decreases n - i,
    {
        if bytes[i] < 0x80 {
            return i + 1;
        }
        i += 1;
    }
    n
}

fn read_varint(bytes: &[u8], start: usize, end: usize) -> (r: u64)
    requires
        start <= end <= bytes.len(),
    ensures
        r == varint_value(bytes@, start as int, end as int),
{
    let mut value: u64 = 0;
    let mut i: usize = end;
    while i > start
        invariant
            start <= i <= end <= bytes.len(),
            value == varint_value(bytes@, i as int, end as int),
        decreases i,
    {
        i -= 1;
        let wide: u128 = (value as u128) * 128 + ((bytes[i] % 128) as u128);
        value = (wide % 0x1_0000_0000_0000_0000) as u64;
    }
    value
}

/// Where the string lies whose length starts at `pos`.
fn read_string(bytes: &[u8], pos: usize) -> (r: Option<(usize, usize)>)
    requires
        pos <= bytes.len(),
    ensures
        match r {
            Some((start, len)) => string_at(bytes@, pos as int) == Some((start as int, len as int))
                && start + len <= bytes.len() && pos <= start,
            None => string_at(bytes@, pos as int) is None,
        },
{
    let start = skip_varint(bytes, pos);
    let len = read_varint(bytes, pos, start);
    if len <= (bytes.len() - start) as u64 {
        Some((start, len as usize))
    } else {
        None
    }
}

fn note(spans: Spans, tag: u8, span: Option<(usize, usize)>) -> (r: Spans)
    ensures
        span is None ==> r == spans,
        span is Some ==> r == if tag == ONE_TIME_KEY_TAG {
            Spans { one_time_key: span, ..spans }
        } else if tag == BASE_KEY_TAG {
            Spans { base_key: span, ..spans }
        } else if tag == IDENTITY_KEY_TAG {
            Spans { identity_key: span, ..spans }
        } else if tag == MESSAGE_TAG {
            Spans { message: span, ..spans }
        } else {
            spans
        },
{
    if span.is_none() {
        spans
    } else if tag == ONE_TIME_KEY_TAG {
        Spans { one_time_key: span, ..spans }
    } else if tag == BASE_KEY_TAG {
        Spans { base_key: span, ..spans }
    } else if tag == IDENTITY_KEY_TAG {
        Spans { identity_key: span, ..spans }
    } else if tag == MESSAGE_TAG {
        Spans { message: span, ..spans }
    } else {
        spans
    }
}

/// Whether every span lies within the first `n` bytes.
spec fn spans_within(spans: Spans, n: int) -> bool {
    &&& spans.one_time_key matches Some((start, len)) ==> start + len <= n
    &&& spans.base_key matches Some((start, len)) ==> start + len <= n
    &&& spans.identity_key matches Some((start, len)) ==> start + len <= n
    &&& spans.message matches Some((start, len)) ==> start + len <= n
}

fn copy_key(bytes: &[u8], span: Option<(usize, usize)>) -> (r: Option<Vec<u8>>)
    requires
        span matches Some((start, len)) ==> start + len <= bytes.len(),
    ensures
        match r {
            Some(key) => key_in(bytes@, span) == Some(key@),
            None => key_in(bytes@, span) is None,
        },
{
    match span {
        Some((start, len)) => {
            if len == KEY_LENGTH {
                Some(slice_to_vec(slice_subrange(bytes, start, start + len)))
            } else {
                None
            }
        },
        None => None,
    }
}

impl Handshake {
    /// Reads the handshake that a pre-key message carries.
    pub fn read(message: &str) -> (r: Option<Handshake>)
        ensures
            match r {
                Some(handshake) => handshake_of(message@) == Some(handshake@),
                None => handshake_of(message@) is None,
            },
    {
        match decode(message.as_bytes()) {
            Some(bytes) => Handshake::parse(bytes.as_slice()),
            None => None,
        }
    }

    /// Whether two handshakes name the same keys.
    pub fn same(&self, other: &Handshake) -> (r: bool)
        ensures
            r == (self@ == other@),
    {
        same_bytes(self.one_time_key.as_slice(), other.one_time_key.as_slice()) && same_bytes(
            self.base_key.as_slice(),
            other.base_key.as_slice(),
        ) && same_bytes(self.identity_key.as_slice(), other.identity_key.as_slice())
    }

    /// A copy of the handshake.
    pub fn duplicate(&self) -> (r: Handshake)
        ensures
            r@ == self@,
    {
        Handshake {
            one_time_key: self.one_time_key.clone(),
            base_key: self.base_key.clone(),
            identity_key: self.identity_key.clone(),
        }
    }

    /// Reads a handshake from its bytes.
    pub fn parse(bytes: &[u8]) -> (r: Option<Handshake>)
        ensures
            match r {
                Some(handshake) => handshake_in(bytes@) == Some(handshake@),
                None => handshake_in(bytes@) is None,
            },
    {
        let n = bytes.len();
        let mut spans = Spans {
            one_time_key: None,
            base_key: None,
            identity_key: None,
            message: None,
        };
        let mut pos: usize = 1;
        while pos < n
            invariant
                1 <= pos,
                n == bytes.len(),
                spans_within(spans, n as int),
                scanned(bytes@, pos as int, spans) == scanned(bytes@, 1, no_spans()),
            decreases n - pos,
        {
            let tag = bytes[pos];
            let known = tag == ONE_TIME_KEY_TAG || tag == BASE_KEY_TAG || tag == IDENTITY_KEY_TAG
                || tag == MESSAGE_TAG;
            let string = read_string(bytes, pos + 1);
            let next = if known {
                match string {
                    Some((start, len)) => start + len,
                    None => n,
                }
            } else if tag % 8 == 0 {
                skip_varint(bytes, skip_varint(bytes, pos))
            } else if tag % 8 == 2 {
                match read_string(bytes, skip_varint(bytes, pos)) {
                    Some((start, len)) => start + len,
                    None => n,
                }
            } else {
                n
            };
            assert(next == next_after(bytes@, pos as int));
            spans = note(spans, tag, string);
            assert(pos < next <= n);
            pos = next;
        }
        let one_time_key = copy_key(bytes, spans.one_time_key);
        let base_key = copy_key(bytes, spans.base_key);
        let identity_key = copy_key(bytes, spans.identity_key);
        match (one_time_key, base_key, identity_key, spans.message) {
            (Some(one_time_key), Some(base_key), Some(identity_key), Some(_)) => Some(
                Handshake { one_time_key, base_key, identity_key },
            ),
            _ => None,
        }
    }
}

} // verus!
