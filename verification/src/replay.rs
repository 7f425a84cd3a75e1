//! Telling a message that was decrypted before.
//!
//! The backend hashes every pairwise message that is decrypted; the log
//! keeps each hash with the sender and the session that decrypted it. A
//! message that turns up again is reported with the session that had it
//! first, and what to make of that is for the caller to decide.

use vstd::prelude::*;
use crate::text::same_text;

verus! {

/// The hash of a decrypted message with the identity key of its sender.
#[derive(Debug)]
pub struct OlmMessageHash {
    pub sender_key: String,
    pub hash: String,
}

/// The model of a message hash.
pub struct OlmMessageHashView {
    pub sender_key: Seq<char>,
    pub hash: Seq<char>,
}

impl View for OlmMessageHash {
    type V = OlmMessageHashView;

    open spec fn view(&self) -> OlmMessageHashView {
        OlmMessageHashView { sender_key: self.sender_key@, hash: self.hash@ }
    }
}

/// The model of an entry of the log: a message and the session that
/// decrypted it first.
pub struct SightingView {
    pub message: OlmMessageHashView,
    pub session_id: Seq<char>,
}

/// What the log says of a message.
#[derive(Debug)]
pub enum Sighting {
    /// The message was not decrypted before.
    Fresh,
    /// The message was decrypted before, by the same session.
    Repeated,
    /// The message was decrypted before, by the session with this id.
    RepeatedElsewhere(String),
}

/// The model of what the log says of a message.
pub enum SightingKind {
    Fresh,
    Repeated,
    RepeatedElsewhere(Seq<char>),
}

impl View for Sighting {
    type V = SightingKind;

    open spec fn view(&self) -> SightingKind {
        match self {
            Sighting::Fresh => SightingKind::Fresh,
            Sighting::Repeated => SightingKind::Repeated,
            Sighting::RepeatedElsewhere(session_id) => SightingKind::RepeatedElsewhere(
                session_id@,
            ),
        }
    }
}

/// Whether `log` has an entry for `message`.
pub open spec fn seen(log: Seq<SightingView>, message: OlmMessageHashView) -> bool {
    exists|i: int| 0 <= i < log.len() && (#[trigger] log[i]).message == message
}

/// The place of the entry for `message` in `log`, where there is one.
pub open spec fn seen_at(log: Seq<SightingView>, message: OlmMessageHashView) -> int {
    choose|i: int| 0 <= i < log.len() && (#[trigger] log[i]).message == message
}

/// Whether no message has two entries in `log`.
pub open spec fn seen_once_each(log: Seq<SightingView>) -> bool {
    forall|i: int, j: int|
        0 <= i < j < log.len() ==> (#[trigger] log[i]).message != (#[trigger] log[j]).message
}

/// What `log` says of `message` when the session `session_id` decrypts it.
pub open spec fn sighting(
    log: Seq<SightingView>,
    message: OlmMessageHashView,
    session_id: Seq<char>,
) -> SightingKind {
    if !seen(log, message) {
        SightingKind::Fresh
    } else if log[seen_at(log, message)].session_id == session_id {
        SightingKind::Repeated
    } else {
        SightingKind::RepeatedElsewhere(log[seen_at(log, message)].session_id)
    }
}

#[derive(Debug)]
struct Entry {
    message: OlmMessageHash,
    session_id: String,
}

impl Entry {
    spec fn model(self) -> SightingView {
        SightingView { message: self.message@, session_id: self.session_id@ }
    }
}

spec fn models(entries: Seq<Entry>) -> Seq<SightingView> {
    Seq::new(entries.len(), |i: int| entries[i].model())
}

/// The log of the messages that were decrypted.
#[derive(Debug)]
pub struct MessageHashLog {
    entries: Vec<Entry>,
}

impl View for MessageHashLog {
    type V = Seq<SightingView>;

    closed spec fn view(&self) -> Seq<SightingView> {
        models(self.entries@)
    }
}

impl MessageHashLog {
    /// A log with nothing in it.
    pub fn new() -> (r: MessageHashLog)
        ensures
            r@.len() == 0,
            seen_once_each(r@),
    {
        MessageHashLog { entries: Vec::new() }
    }

    /// How many messages the log knows.
    pub fn len(&self) -> (r: usize)
        ensures
            r == self@.len(),
    {
        self.entries.len()
    }

    /// Notes that the session `session_id` decrypted `message`, and says
    /// whether the message was decrypted before.
    ///
    /// A message that is new to the log is entered with the session. One
    /// that the log knows is reported with the session that had it first,
    /// and the log stays as it is.
    pub fn observe(&mut self, message: OlmMessageHash, session_id: &str) -> (r: Sighting)
        requires
            seen_once_each(old(self)@),
        ensures
            seen_once_each(final(self)@),
            r@ == sighting(old(self)@, message@, session_id@),
            final(self)@ == if seen(old(self)@, message@) {
                old(self)@
            } else {
                old(self)@.push(SightingView { message: message@, session_id: session_id@ })
            },
    {
        let ghost log = self@;
        let mut i: usize = 0;
        while i < self.entries.len()
            invariant
                i <= self.entries.len(),
                *self == *old(self),
                log == self@,
                seen_once_each(log),
                forall|k: int| 0 <= k < i ==> (#[trigger] log[k]).message != message@,
            decreases self.entries.len() - i,
        {
            let entry = &self.entries[i];
            assert(log[i as int] == entry.model());
            if same_text(entry.message.sender_key.as_str(), message.sender_key.as_str())
                && same_text(entry.message.hash.as_str(), message.hash.as_str()) {
                proof {
                    assert(log[i as int].message == message@);
                    let chosen = seen_at(log, message@);
                    assert(log[chosen].message == message@);
                    assert(chosen == i);
                }
                if same_text(entry.session_id.as_str(), session_id) {
                    return Sighting::Repeated;
                } else {
                    return Sighting::RepeatedElsewhere(entry.session_id.clone());
                }
            }
            i += 1;
        }
        let ghost entered = SightingView { message: message@, session_id: session_id@ };
        self.entries.push(Entry { message, session_id: session_id.to_owned() });
        proof {
            assert(self@ =~= log.push(entered));
            assert forall|a: int, b: int| 0 <= a < b < self@.len() implies (#[trigger] self@[a]).message
                != (#[trigger] self@[b]).message by {
                assert(self@[a] == log[a]);
                if b < log.len() {
                    assert(self@[b] == log[b]);
                }
            }
        }
        Sighting::Fresh
    }
}

} // verus!
