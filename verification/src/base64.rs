//! Unpadded base64, the text form of keys and messages.
//!
//! The reading is as forgiving as the ratchet's own: a character that is
//! not of the alphabet is not refused but read as a group of set bits, so
//! that whatever the ratchet would read, these functions read the same way.
//! Only a text of a length that no byte string encodes to is refused.

use vstd::prelude::*;

verus! {

/// The bits that a character stands for: its six bits where it is of the
/// alphabet, eight set bits where it is not. Only the seven low bits of a
/// character count.
pub open spec fn sextet(c: u8) -> u32 {
    let m = c & 0x7f;
    if 0x41 <= m <= 0x5a {
        (m - 0x41) as u32
    } else if 0x61 <= m <= 0x7a {
        (m - 0x61 + 26) as u32
    } else if 0x30 <= m <= 0x39 {
        (m - 0x30 + 52) as u32
    } else if m == 0x2b {
        62u32
    } else if m == 0x2f {
        63u32
    } else {
        0xffu32
    }
}

/// The bits of two characters in a row.
pub open spec fn pair(a: u8, b: u8) -> u32 {
    (sextet(a) << 6) | sextet(b)
}

/// The bits of three characters in a row.
pub open spec fn triple(a: u8, b: u8, c: u8) -> u32 {
    (pair(a, b) << 6) | sextet(c)
}

/// The bits of four characters in a row.
pub open spec fn quad(a: u8, b: u8, c: u8, d: u8) -> u32 {
    (triple(a, b, c) << 6) | sextet(d)
}

/// The number of bytes that `n` characters stand for.
pub open spec fn decoded_len(n: nat) -> nat {
    (n * 3 / 4) as nat
}

/// The byte at `j` of what `text` stands for.
pub open spec fn byte_at(text: Seq<u8>, j: int) -> u8 {
    let q = 4 * (j / 3);
    if text.len() - q >= 4 {
        let value = quad(text[q], text[q + 1], text[q + 2], text[q + 3]);
        if j % 3 == 0 {
            (value >> 16) as u8
        } else if j % 3 == 1 {
            (value >> 8) as u8
        } else {
            value as u8
        }
    } else if text.len() - q == 3 {
        let value = triple(text[q], text[q + 1], text[q + 2]) >> 2;
        if j % 3 == 0 {
            (value >> 8) as u8
        } else {
            value as u8
        }
    } else {
        (pair(text[q], text[q + 1]) >> 4) as u8
    }
}

/// The bytes that `text` stands for, if its length is one that a byte
/// string encodes to.
pub open spec fn decoded(text: Seq<u8>) -> Option<Seq<u8>> {
    if text.len() % 4 != 1 {
        Some(Seq::new(decoded_len(text.len()), |j: int| byte_at(text, j)))
    } else {
        None
    }
}

fn sextet_of(c: u8) -> (r: u32)
    ensures
        r == sextet(c),
{
    let m = c & 0x7f;
    if 0x41 <= m && m <= 0x5a {
        (m - 0x41) as u32
    } else if 0x61 <= m && m <= 0x7a {
        (m - 0x61 + 26) as u32
    } else if 0x30 <= m && m <= 0x39 {
        (m - 0x30 + 52) as u32
    } else if m == 0x2b {
        62
    } else if m == 0x2f {
        63
    } else {
        0xff
    }
}

/// Reads unpadded base64.
pub fn decode(text: &[u8]) -> (r: Option<Vec<u8>>)
    ensures
        match r {
            Some(bytes) => decoded(text@) == Some(bytes@),
            None => decoded(text@) is None,
        },
{
    let n = text.len();
    if n % 4 == 1 {
        return None;
    }
    let mut out: Vec<u8> = Vec::new();
    let mut q: usize = 0;
    while n - q >= 4
        invariant
            q <= n,
            q % 4 == 0,
            n == text.len(),
            out.len() == q / 4 * 3,
            forall|k: int| 0 <= k < out.len() ==> out@[k] == byte_at(text@, k),
        decreases n - q,
    {
        let value = (((((sextet_of(text[q]) << 6) | sextet_of(text[q + 1])) << 6) | sextet_of(
            text[q + 2],
        )) << 6) | sextet_of(text[q + 3]);
        assert(value == quad(
            text@[q as int],
            text@[q + 1],
            text@[q + 2],
            text@[q + 3],
        ));
        let ghost j = out.len() as int;
        assert(4 * (j / 3) == q && 4 * ((j + 1) / 3) == q && 4 * ((j + 2) / 3) == q);
        out.push((value >> 16) as u8);
        out.push((value >> 8) as u8);
        out.push(value as u8);
        q += 4;
    }
    let ghost j = out.len() as int;
    assert(4 * (j / 3) == q && 4 * ((j + 1) / 3) == q);
    if n - q == 3 {
        let value = ((((sextet_of(text[q]) << 6) | sextet_of(text[q + 1])) << 6) | sextet_of(
            text[q + 2],
        )) >> 2;
        out.push((value >> 8) as u8);
        out.push(value as u8);
    } else if n - q == 2 {
        let value = ((sextet_of(text[q]) << 6) | sextet_of(text[q + 1])) >> 4;
        out.push(value as u8);
    }
    assert(out@ =~= Seq::new(decoded_len(text@.len()), |k: int| byte_at(text@, k)));
    Some(out)
}

} // verus!
