//! A pairwise session: the record of one ratchet between this device and
//! one other.

use vstd::prelude::*;
use crate::clock::later;
use crate::error::decryption_error_of;
use crate::error::CryptoFailure;
use crate::error::DecryptionError;
use crate::error::SessionCreationError;
use crate::keys::decode_key;
use crate::keys::key_of;
use crate::message::OlmMessage;
use crate::message::OlmMessageView;
use crate::text::bytes_before;
use crate::text::lemma_before_carries_over;
use crate::text::lemma_nothing_before_itself;
use crate::text::lemma_one_comes_first;
use crate::text::bytes_of;
use crate::text::same_bytes;
use crate::text::text_before;
use crate::wire::handshake_of;
use crate::wire::Handshake;
use crate::wire::HandshakeView;

verus! {

/// The model of a session.
pub struct SessionView {
    /// The id that both ends of the session derive from the handshake.
    pub session_id: Seq<char>,
    /// The identity key of the other device.
    pub sender_key: Seq<char>,
    /// The handshake that the session grew from, once it is known.
    pub handshake: Option<HandshakeView>,
    /// When the session was set up.
    pub creation_time: u64,
    /// When the session last encrypted or decrypted a message.
    pub last_use_time: u64,
}

/// A pairwise session.
#[derive(Debug)]
pub struct Session {
    session_id: String,
    sender_key: String,
    handshake: Option<Handshake>,
    creation_time: u64,
    last_use_time: u64,
}

impl View for Session {
    type V = SessionView;

    closed spec fn view(&self) -> SessionView {
        SessionView {
            session_id: self.session_id@,
            sender_key: self.sender_key@,
            handshake: match self.handshake {
                Some(handshake) => Some(handshake@),
                None => None,
            },
            creation_time: self.creation_time,
            last_use_time: self.last_use_time,
        }
    }
}

impl SessionView {
    /// The session after it was used at `now`: nothing changes but the time
    /// of its last use, which never goes back.
    pub open spec fn used_at(self, now: u64) -> SessionView {
        SessionView { last_use_time: later(self.last_use_time, now), ..self }
    }

    /// The session after it learnt which handshake it grew from, where it
    /// did not know yet and `message` carries one.
    pub open spec fn learning_from(self, message: OlmMessageView) -> SessionView {
        match (self.handshake, message) {
            (None, OlmMessageView::PreKey(body)) => SessionView {
                handshake: handshake_of(body),
                ..self
            },
            _ => self,
        }
    }

    /// Whether the session is the one that the pre-key message `message`
    /// from the device with the identity key `identity_key` belongs to;
    /// `None` where the key or the message cannot be read.
    pub open spec fn matches(self, identity_key: Seq<char>, message: Seq<char>) -> Option<bool> {
        match (key_of(identity_key), handshake_of(message)) {
            (Some(key), Some(handshake)) => Some(
                handshake.identity_key == key && self.handshake == Some(handshake),
            ),
            _ => None,
        }
    }

    /// Whether this session is to be used rather than `other`: it was used
    /// later, or at the same time and its id comes first.
    pub open spec fn preferred_to(self, other: SessionView) -> bool {
        self.last_use_time > other.last_use_time || (self.last_use_time == other.last_use_time
            && bytes_before(bytes_of(self.session_id), bytes_of(other.session_id)))
    }
}

/// Preference carries over from session to session.
pub proof fn lemma_preference_carries_over(a: SessionView, b: SessionView, c: SessionView)
    requires
        a.preferred_to(b),
        b.preferred_to(c),
    ensures
        a.preferred_to(c),
{
    if a.last_use_time == b.last_use_time && b.last_use_time == c.last_use_time {
        lemma_before_carries_over(
            bytes_of(a.session_id),
            bytes_of(b.session_id),
            bytes_of(c.session_id),
        );
    }
}

impl Session {
    /// The record of a session that was just set up.
    pub fn new(session_id: String, sender_key: String, handshake: Option<Handshake>, now: u64) -> (r:
        Session)
        ensures
            r@.session_id == session_id@,
            r@.sender_key == sender_key@,
            r@.handshake == match handshake {
                Some(h) => Some(h@),
                None => None,
            },
            r@.creation_time == now,
            r@.last_use_time == now,
    {
        Session { session_id, sender_key, handshake, creation_time: now, last_use_time: now }
    }

    /// The record of a session as it was stored.
    pub fn restore(
        session_id: String,
        sender_key: String,
        handshake: Option<Handshake>,
        creation_time: u64,
        last_use_time: u64,
    ) -> (r: Session)
        ensures
            r@ == (SessionView {
                session_id: session_id@,
                sender_key: sender_key@,
                handshake: match handshake {
                    Some(h) => Some(h@),
                    None => None,
                },
                creation_time,
                last_use_time,
            }),
    {
        Session { session_id, sender_key, handshake, creation_time, last_use_time }
    }

    /// A copy of the record.
    pub fn duplicate(&self) -> (r: Session)
        ensures
            r@ == self@,
    {
        Session {
            session_id: self.session_id.clone(),
            sender_key: self.sender_key.clone(),
            handshake: match &self.handshake {
                Some(handshake) => Some(handshake.duplicate()),
                None => None,
            },
            creation_time: self.creation_time,
            last_use_time: self.last_use_time,
        }
    }

    /// The id of the session.
    pub fn session_id(&self) -> (r: &str)
        ensures
            r@ == self@.session_id,
    {
        self.session_id.as_str()
    }

    /// The identity key of the other device.
    pub fn sender_key(&self) -> (r: &str)
        ensures
            r@ == self@.sender_key,
    {
        self.sender_key.as_str()
    }

    /// The handshake that the session grew from, once it is known.
    pub fn handshake(&self) -> (r: Option<&Handshake>)
        ensures
            match r {
                Some(h) => self@.handshake == Some(h@),
                None => self@.handshake is None,
            },
    {
        self.handshake.as_ref()
    }

    /// When the session was set up.
    pub fn creation_time(&self) -> (r: u64)
        ensures
            r == self@.creation_time,
    {
        self.creation_time
    }

    /// When the session was last used.
    pub fn last_use_time(&self) -> (r: u64)
        ensures
            r == self@.last_use_time,
    {
        self.last_use_time
    }

    /// Records that the session was used at `now`.
    pub fn touch(&mut self, now: u64)
        ensures
            final(self)@ == old(self)@.used_at(now),
    {
        if now > self.last_use_time {
            self.last_use_time = now;
        }
    }

    /// Records that the ratchet encrypted a message at `now`, and hands the
    /// message on as the ratchet made it, kind and body.
    ///
    /// The first pre-key message that a session sends tells its record which
    /// handshake the session grew from.
    pub fn encrypt(&mut self, message: OlmMessage, now: u64) -> (r: OlmMessage)
        ensures
            r@ == message@,
            final(self)@ == old(self)@.learning_from(message@).used_at(now),
    {
        if self.handshake.is_none() {
            if let OlmMessage::PreKey(body) = &message {
                self.handshake = Handshake::read(body.as_str());
            }
        }
        self.touch(now);
        message
    }

    /// Records what came of decrypting a message at `now`.
    ///
    /// Where the ratchet gave the plaintext, the session counts as used and
    /// the plaintext is handed on. Where it failed, the session is as it
    /// was, and the failure says why.
    pub fn decrypt(&mut self, outcome: Result<String, CryptoFailure>, now: u64) -> (r: Result<
        String,
        DecryptionError,
    >)
        ensures
            match outcome {
                Ok(plaintext) => r == Ok::<String, DecryptionError>(plaintext) && final(self)@
                    == old(self)@.used_at(now),
                Err(failure) => r == Err::<String, DecryptionError>(decryption_error_of(failure))
                    && final(self)@ == old(self)@,
            },
    {
        match outcome {
            Ok(plaintext) => {
                self.touch(now);
                Ok(plaintext)
            },
            Err(failure) => Err(DecryptionError::from_failure(failure)),
        }
    }

    /// Whether this session is the one that a pre-key message belongs to.
    ///
    /// It is where the message comes from the device with the identity key
    /// `identity_key` and carries the handshake that the session grew from.
    /// The session is not changed.
    pub fn matches(&self, identity_key: &str, message: &str) -> (r: Result<
        bool,
        SessionCreationError,
    >)
        ensures
            match r {
                Ok(verdict) => self@.matches(identity_key@, message@) == Some(verdict),
                Err(error) => self@.matches(identity_key@, message@) is None && error
                    == SessionCreationError::MalformedHandshake,
            },
    {
        let key = match decode_key(identity_key) {
            Some(key) => key,
            None => {
                return Err(SessionCreationError::MalformedHandshake);
            },
        };
        let theirs = match Handshake::read(message) {
            Some(handshake) => handshake,
            None => {
                return Err(SessionCreationError::MalformedHandshake);
            },
        };
        if !same_bytes(theirs.identity_key.as_slice(), key.as_slice()) {
            return Ok(false);
        }
        match &self.handshake {
            Some(ours) => Ok(ours.same(&theirs)),
            None => Ok(false),
        }
    }

    /// Whether this session is to be used rather than `other`.
    pub fn preferred_to(&self, other: &Session) -> (r: bool)
        ensures
            r == self@.preferred_to(other@),
    {
        self.last_use_time > other.last_use_time || (self.last_use_time == other.last_use_time
            && text_before(self.session_id.as_str(), other.session_id.as_str()))
    }
}

/// Picks the session to send on among the sessions with one device: the one
/// that was used last, and among several of those the one whose id comes
/// first. Where two sessions are alike in both, the earlier in `sessions`
/// is picked.
pub fn select_session(sessions: &Vec<Session>) -> (r: Option<usize>)
    ensures
        match r {
            Some(best) => {
                &&& best < sessions@.len()
                &&& forall|i: int|
                    0 <= i < sessions@.len() ==> !(#[trigger] sessions@[i])@.preferred_to(
                        sessions@[best as int]@,
                    )
                &&& forall|i: int|
                    0 <= i < best ==> sessions@[best as int]@.preferred_to(
                        (#[trigger] sessions@[i])@,
                    )
            },
            None => sessions@.len() == 0,
        },
{
    if sessions.len() == 0 {
        return None;
    }
    let mut best: usize = 0;
    let mut i: usize = 1;
    proof {
        lemma_nothing_before_itself(bytes_of(sessions@[0]@.session_id));
    }
    while i < sessions.len()
        invariant
            1 <= i <= sessions@.len(),
            best < i,
            forall|k: int|
                0 <= k < i ==> !(#[trigger] sessions@[k])@.preferred_to(sessions@[best as int]@),
            forall|k: int|
                0 <= k < best ==> sessions@[best as int]@.preferred_to((#[trigger] sessions@[k])@),
        decreases sessions.len() - i,
    {
        if sessions[i].preferred_to(&sessions[best]) {
            proof {
                let winner = sessions@[i as int]@;
                let loser = sessions@[best as int]@;
                assert forall|k: int| 0 <= k < i + 1 implies !(#[trigger] sessions@[k])@.preferred_to(
                    winner,
                ) by {
                    if k == i {
                        lemma_nothing_before_itself(bytes_of(winner.session_id));
                    } else if sessions@[k]@.preferred_to(winner) {
                        lemma_preference_carries_over(sessions@[k]@, winner, loser);
                    }
                }
                assert forall|k: int| 0 <= k < i implies winner.preferred_to(
                    (#[trigger] sessions@[k])@,
                ) by {
                    let other = sessions@[k]@;
                    if k < best {
                        lemma_preference_carries_over(winner, loser, other);
                    } else if k > best {
                        assert(!other.preferred_to(loser));
                        if loser.preferred_to(other) {
                            lemma_preference_carries_over(winner, loser, other);
                        } else {
                            lemma_one_comes_first(
                                bytes_of(other.session_id),
                                bytes_of(loser.session_id),
                            );
                        }
                    }
                }
            }
            best = i;
        }
        i += 1;
    }
    Some(best)
}

} // verus!
