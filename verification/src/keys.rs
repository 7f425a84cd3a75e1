//! Public key material: the identity keys of a device and its one-time keys.

use vstd::prelude::*;
use crate::base64::decode;
use crate::base64::decoded;
use crate::text::bytes_of;
use crate::text::same_text;
use crate::wire::KEY_LENGTH;

verus! {

/// The name under which the signing key is published.
pub const ED25519: &'static str = "ed25519";

/// The name under which the agreement key, and each one-time key, is published.
pub const CURVE25519: &'static str = "curve25519";

/// The key that `text` stands for: 32 bytes, written as unpadded base64.
pub open spec fn key_of(text: Seq<char>) -> Option<Seq<u8>> {
    match decoded(bytes_of(text)) {
        Some(bytes) => if bytes.len() == KEY_LENGTH {
            Some(bytes)
        } else {
            None
        },
        None => None,
    }
}

/// Reads a public key from its text form.
pub fn decode_key(text: &str) -> (r: Option<Vec<u8>>)
    ensures
        match r {
            Some(bytes) => key_of(text@) == Some(bytes@),
            None => key_of(text@) is None,
        },
{
    match decode(text.as_bytes()) {
        Some(bytes) => {
            if bytes.len() == KEY_LENGTH {
                Some(bytes)
            } else {
                None
            }
        },
        None => None,
    }
}

/// The long-term public keys of a device, fixed for its lifetime.
#[derive(Debug)]
pub struct IdentityKeys {
    /// The signing key.
    pub ed25519: String,
    /// The agreement key.
    pub curve25519: String,
}

/// The model of identity keys: the two keys as texts.
pub struct IdentityKeysView {
    pub ed25519: Seq<char>,
    pub curve25519: Seq<char>,
}

impl View for IdentityKeys {
    type V = IdentityKeysView;

    open spec fn view(&self) -> IdentityKeysView {
        IdentityKeysView { ed25519: self.ed25519@, curve25519: self.curve25519@ }
    }
}

impl IdentityKeysView {
    /// The keys as a mapping from the name of an algorithm to a key.
    pub open spec fn as_map(self) -> Map<Seq<char>, Seq<char>> {
        map![ED25519@ => self.ed25519, CURVE25519@ => self.curve25519]
    }
}

/// The two algorithm names differ.
pub proof fn lemma_algorithm_names_differ()
    ensures
        ED25519@ != CURVE25519@,
{
    reveal_strlit("ed25519");
    reveal_strlit("curve25519");
    assert(ED25519@.len() == 7);
    assert(CURVE25519@.len() == 10);
}

impl IdentityKeys {
    /// A copy of the keys.
    pub fn duplicate(&self) -> (r: IdentityKeys)
        ensures
            r@ == self@,
    {
        IdentityKeys { ed25519: self.ed25519.clone(), curve25519: self.curve25519.clone() }
    }

    /// The signing key.
    pub fn ed25519(&self) -> (r: &str)
        ensures
            r@ == self@.ed25519,
    {
        self.ed25519.as_str()
    }

    /// The agreement key.
    pub fn curve25519(&self) -> (r: &str)
        ensures
            r@ == self@.curve25519,
    {
        self.curve25519.as_str()
    }

    /// The key published under the algorithm `key_type`.
    pub fn get(&self, key_type: &str) -> (r: Option<&str>)
        ensures
            match r {
                Some(key) => self@.as_map().contains_key(key_type@) && self@.as_map()[key_type@]
                    == key@,
                None => !self@.as_map().contains_key(key_type@),
            },
    {
        proof {
            lemma_algorithm_names_differ();
        }
        if same_text(key_type, ED25519) {
            Some(self.ed25519.as_str())
        } else if same_text(key_type, CURVE25519) {
            Some(self.curve25519.as_str())
        } else {
            None
        }
    }

    /// Whether a key is published under the algorithm `key_type`.
    pub fn contains_key(&self, key_type: &str) -> (r: bool)
        ensures
            r == self@.as_map().contains_key(key_type@),
    {
        same_text(key_type, ED25519) || same_text(key_type, CURVE25519)
    }

    /// The names of the algorithms, signing key first.
    pub fn keys(&self) -> (r: Vec<String>)
        ensures
            r@.len() == 2,
            r@[0]@ == ED25519@,
            r@[1]@ == CURVE25519@,
    {
        let mut names: Vec<String> = Vec::new();
        names.push(ED25519.to_owned());
        names.push(CURVE25519.to_owned());
        names
    }

    /// The keys, signing key first.
    pub fn values(&self) -> (r: Vec<String>)
        ensures
            r@.len() == 2,
            r@[0]@ == self@.ed25519,
            r@[1]@ == self@.curve25519,
    {
        let mut keys: Vec<String> = Vec::new();
        keys.push(self.ed25519.clone());
        keys.push(self.curve25519.clone());
        keys
    }

    /// Each algorithm name with its key, signing key first.
    pub fn iter(&self) -> (r: Vec<(String, String)>)
        ensures
            r@.len() == 2,
            r@[0].0@ == ED25519@ && r@[0].1@ == self@.ed25519,
            r@[1].0@ == CURVE25519@ && r@[1].1@ == self@.curve25519,
    {
        let mut pairs: Vec<(String, String)> = Vec::new();
        pairs.push((ED25519.to_owned(), self.ed25519.clone()));
        pairs.push((CURVE25519.to_owned(), self.curve25519.clone()));
        pairs
    }
}

/// A one-time key of the pool: the public half of a single-use key pair,
/// under the id it was generated with.
#[derive(Debug, PartialEq, Eq)]
pub struct OneTimeKey {
    pub id: String,
    pub key: String,
}

/// The model of a one-time key.
pub struct OneTimeKeyView {
    pub id: Seq<char>,
    pub key: Seq<char>,
}

impl View for OneTimeKey {
    type V = OneTimeKeyView;

    open spec fn view(&self) -> OneTimeKeyView {
        OneTimeKeyView { id: self.id@, key: self.key@ }
    }
}

impl OneTimeKey {
    /// A copy of the key.
    pub fn duplicate(&self) -> (r: OneTimeKey)
        ensures
            r@ == self@,
    {
        OneTimeKey { id: self.id.clone(), key: self.key.clone() }
    }
}

/// The one-time keys that an account has to publish, by algorithm. There is
/// one algorithm.
#[derive(Debug)]
pub struct OneTimeKeys {
    pub curve25519: Vec<OneTimeKey>,
}

impl View for OneTimeKeys {
    type V = Seq<OneTimeKeyView>;

    open spec fn view(&self) -> Seq<OneTimeKeyView> {
        self.curve25519@.map_values(|k: OneTimeKey| k@)
    }
}

impl OneTimeKeys {
    /// The keys of the one algorithm, oldest first.
    pub fn curve25519(&self) -> (r: &Vec<OneTimeKey>)
        ensures
            r@.map_values(|k: OneTimeKey| k@) == self@,
    {
        &self.curve25519
    }

    /// The keys of the algorithm `key_type`, if it is the one.
    pub fn get(&self, key_type: &str) -> (r: Option<&Vec<OneTimeKey>>)
        ensures
            match r {
                Some(keys) => key_type@ == CURVE25519@ && keys@.map_values(|k: OneTimeKey| k@)
                    == self@,
                None => key_type@ != CURVE25519@,
            },
    {
        if same_text(key_type, CURVE25519) {
            Some(&self.curve25519)
        } else {
            None
        }
    }

    /// Whether `key_type` is the one algorithm.
    pub fn contains_key(&self, key_type: &str) -> (r: bool)
        ensures
            r == (key_type@ == CURVE25519@),
    {
        same_text(key_type, CURVE25519)
    }

    /// The names of the algorithms: the one.
    pub fn keys(&self) -> (r: Vec<String>)
        ensures
            r@.len() == 1,
            r@[0]@ == CURVE25519@,
    {
        let mut names: Vec<String> = Vec::new();
        names.push(CURVE25519.to_owned());
        names
    }

    /// The keys of each algorithm: those of the one.
    pub fn values(&self) -> (r: Vec<&Vec<OneTimeKey>>)
        ensures
            r@.len() == 1,
            r@[0]@.map_values(|k: OneTimeKey| k@) == self@,
    {
        let mut all: Vec<&Vec<OneTimeKey>> = Vec::new();
        all.push(&self.curve25519);
        all
    }

    /// Each algorithm with its keys: the one with its own.
    pub fn iter(&self) -> (r: Vec<(String, &Vec<OneTimeKey>)>)
        ensures
            r@.len() == 1,
            r@[0].0@ == CURVE25519@,
            r@[0].1@.map_values(|k: OneTimeKey| k@) == self@,
    {
        let mut all: Vec<(String, &Vec<OneTimeKey>)> = Vec::new();
        all.push((CURVE25519.to_owned(), &self.curve25519));
        all
    }
}

/// A one-time key of another device as its server hands it out, with the
/// signature of the device where it has one.
#[derive(Debug)]
pub struct SignedKey {
    pub key: String,
    pub signature: Option<String>,
}

} // verus!
