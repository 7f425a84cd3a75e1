//! The receiving side of a group session.

use vstd::prelude::*;
use crate::error::creation_error_of;
use crate::error::decryption_error_of;
use crate::error::CryptoFailure;
use crate::error::DecryptionError;
use crate::error::SessionCreationError;
use crate::events::duplicate_text;
use crate::events::text_view;
use crate::events::EncryptedContent;
use crate::events::EncryptedContentView;
use crate::events::ExportedRoomKey;
use crate::events::ExportedRoomKeyView;
use crate::events::GroupPayload;
use crate::group_key::key_index;
use crate::group_key::read_key_index;
use crate::group_key::EXPORTED_KEY_VERSION;
use crate::group_key::SHARED_KEY_VERSION;
use crate::settings::EventEncryptionAlgorithm;
use crate::settings::HistoryVisibility;
use crate::text::same_text;

verus! {

/// The model of the receiving side of a group session.
pub struct InboundView {
    /// The id of the session, the same as on the sending side.
    pub session_id: Seq<char>,
    /// The room that the session belongs to.
    pub room_id: Seq<char>,
    /// The identity key of the device that sends on the session.
    pub sender_key: Seq<char>,
    /// The signing key that the sender claims, where it is known.
    pub signing_key: Option<Seq<char>>,
    /// The first message index that the session can decrypt.
    pub first_known_index: u32,
    /// Who could read the history of the room when the key was made.
    pub history_visibility: Option<HistoryVisibility>,
    /// Whether the key came from an export rather than from the sender.
    pub imported: bool,
}

/// What the ratchet says of a group session that it has set up.
#[derive(Debug)]
pub struct GroupRatchet {
    pub session_id: String,
    pub first_known_index: u32,
}

/// What came of decrypting the event `event` on the session `session`,
/// where the ratchet produced `outcome`: the plaintext as an event, where
/// it is one, and the index of the message.
pub open spec fn decrypted(
    session: InboundView,
    event: EncryptedContentView,
    outcome: Result<(Option<GroupPayload>, u32), CryptoFailure>,
) -> Result<(GroupPayload, u32), DecryptionError> {
    if event.algorithm != EventEncryptionAlgorithm::MegolmV1AesSha2 {
        Err(DecryptionError::UnsupportedAlgorithm)
    } else if event.session_id != session.session_id {
        Err(DecryptionError::MismatchedSession)
    } else {
        match outcome {
            Err(failure) => Err(decryption_error_of(failure)),
            Ok((payload, index)) => if index < session.first_known_index {
                Err(DecryptionError::UnknownMessageIndex)
            } else {
                match payload {
                    Some(payload) => Ok((payload, index)),
                    None => Err(DecryptionError::UnknownFraming),
                }
            },
        }
    }
}

impl InboundView {
    /// The index at which the key is exported when `requested` is asked
    /// for: the session cannot go back behind the first index it knows.
    pub open spec fn export_index(self, requested: u32) -> u32 {
        if requested >= self.first_known_index {
            requested
        } else {
            self.first_known_index
        }
    }

    /// The export of the session around the ratchet state `session_key`.
    pub open spec fn exported(self, session_key: Seq<char>) -> ExportedRoomKeyView {
        ExportedRoomKeyView {
            algorithm: EventEncryptionAlgorithm::MegolmV1AesSha2,
            room_id: self.room_id,
            session_id: self.session_id,
            sender_key: self.sender_key,
            session_key,
            sender_signing_key: self.signing_key,
        }
    }

    /// The export of the session from the index `requested` on, where
    /// `session_key` is what the ratchet exported: the export around it, if
    /// it reads like an exported key and stands at the index asked for.
    pub open spec fn exported_at(self, requested: u32, session_key: Seq<char>) -> Option<
        ExportedRoomKeyView,
    > {
        if key_index(session_key, EXPORTED_KEY_VERSION) == Some(self.export_index(requested)) {
            Some(self.exported(session_key))
        } else {
            None
        }
    }
}

/// The session that the sender's key `session_key` sets up, where the
/// ratchet made `outcome` of the key: the key must read like a key that a
/// sender shares, the ratchet must have taken it, and the ratchet must stand
/// where the key says.
pub open spec fn set_up(
    signing_key: Seq<char>,
    sender_key: Seq<char>,
    room_id: Seq<char>,
    session_key: Seq<char>,
    outcome: Result<GroupRatchet, CryptoFailure>,
    history_visibility: Option<HistoryVisibility>,
) -> Result<InboundView, SessionCreationError> {
    match (key_index(session_key, SHARED_KEY_VERSION), outcome) {
        (None, _) => Err(SessionCreationError::MalformedSessionKey),
        (Some(_), Err(failure)) => Err(creation_error_of(failure)),
        (Some(index), Ok(ratchet)) => if ratchet.first_known_index != index {
            Err(SessionCreationError::MalformedSessionKey)
        } else {
            Ok(
                InboundView {
                    session_id: ratchet.session_id@,
                    room_id,
                    sender_key,
                    signing_key: Some(signing_key),
                    first_known_index: index,
                    history_visibility,
                    imported: false,
                },
            )
        },
    }
}

/// The session that the exported key `key` sets up, where the ratchet made
/// `outcome` of the exported state: the export must be for the group
/// ratchet and read like an exported key, the ratchet must have taken it,
/// and the ratchet must stand where the key says.
pub open spec fn imported(key: ExportedRoomKeyView, outcome: Result<u32, CryptoFailure>) -> Result<
    InboundView,
    SessionCreationError,
> {
    if key.algorithm != EventEncryptionAlgorithm::MegolmV1AesSha2 {
        Err(SessionCreationError::UnsupportedAlgorithm)
    } else {
        match (key_index(key.session_key, EXPORTED_KEY_VERSION), outcome) {
            (None, _) => Err(SessionCreationError::MalformedSessionKey),
            (Some(_), Err(failure)) => Err(creation_error_of(failure)),
            (Some(index), Ok(first_known_index)) => if first_known_index != index {
                Err(SessionCreationError::MalformedSessionKey)
            } else {
                Ok(
                    InboundView {
                        session_id: key.session_id,
                        room_id: key.room_id,
                        sender_key: key.sender_key,
                        signing_key: key.sender_signing_key,
                        first_known_index: index,
                        history_visibility: None,
                        imported: true,
                    },
                )
            },
        }
    }
}

/// A session that is exported and imported again is the session it was from
/// the exported index on: it has the same id, room, sender and signing key,
/// and knows the messages from the index that was exported. Exported at the
/// first index it knows, the session keeps that index.
pub proof fn lemma_export_keeps_the_session(
    session: InboundView,
    requested: u32,
    session_key: Seq<char>,
    outcome: Result<u32, CryptoFailure>,
)
    requires
        session.exported_at(requested, session_key) is Some,
        imported(session.exported_at(requested, session_key).unwrap(), outcome) is Ok,
    ensures
        ({
            let again = imported(
                session.exported_at(requested, session_key).unwrap(),
                outcome,
            ).unwrap();
            &&& again.session_id == session.session_id
            &&& again.room_id == session.room_id
            &&& again.sender_key == session.sender_key
            &&& again.signing_key == session.signing_key
            &&& again.first_known_index == session.export_index(requested)
            &&& requested <= session.first_known_index ==> again.first_known_index
                == session.first_known_index
        }),
{
}

/// No message with an index before the first known one is ever decrypted,
/// whatever the ratchet says.
pub proof fn lemma_nothing_before_first_known_index(
    session: InboundView,
    event: EncryptedContentView,
    outcome: Result<(Option<GroupPayload>, u32), CryptoFailure>,
)
    ensures
        decrypted(session, event, outcome) matches Ok((_, index)) ==> index
            >= session.first_known_index,
        (outcome matches Ok((_, index)) && index < session.first_known_index) ==> decrypted(
            session,
            event,
            outcome,
        ) is Err,
{
}

/// The receiving side of a group session.
#[derive(Debug)]
pub struct InboundGroupSession {
    session_id: String,
    room_id: String,
    sender_key: String,
    signing_key: Option<String>,
    first_known_index: u32,
    history_visibility: Option<HistoryVisibility>,
    imported: bool,
}

impl View for InboundGroupSession {
    type V = InboundView;

    closed spec fn view(&self) -> InboundView {
        InboundView {
            session_id: self.session_id@,
            room_id: self.room_id@,
            sender_key: self.sender_key@,
            signing_key: text_view(self.signing_key),
            first_known_index: self.first_known_index,
            history_visibility: self.history_visibility,
            imported: self.imported,
        }
    }
}

impl InboundGroupSession {
    /// The record of the session that the sender's key `session_key` sets
    /// up.
    ///
    /// `outcome` is what the ratchet made of the key: the id and the first
    /// index of the session, or why the key could not be used. A key that
    /// does not read like a shared key is refused whatever the ratchet says,
    /// and so is a ratchet that does not stand where the key says.
    pub fn new(
        signing_key: &str,
        sender_key: &str,
        room_id: &str,
        session_key: &str,
        outcome: Result<GroupRatchet, CryptoFailure>,
        history_visibility: Option<HistoryVisibility>,
    ) -> (r: Result<InboundGroupSession, SessionCreationError>)
        ensures
            match set_up(
                signing_key@,
                sender_key@,
                room_id@,
                session_key@,
                outcome,
                history_visibility,
            ) {
                Ok(session) => {
                    &&& r matches Ok(made)
                    &&& made@ == session
                },
                Err(refusal) => {
                    &&& r matches Err(error)
                    &&& error == refusal
                },
            },
    {
        let index = match read_key_index(session_key, SHARED_KEY_VERSION) {
            Some(index) => index,
            None => {
                return Err(SessionCreationError::MalformedSessionKey);
            },
        };
        match outcome {
            Ok(ratchet) => {
                if ratchet.first_known_index != index {
                    return Err(SessionCreationError::MalformedSessionKey);
                }
                Ok(
                    InboundGroupSession {
                        session_id: ratchet.session_id,
                        room_id: room_id.to_owned(),
                        sender_key: sender_key.to_owned(),
                        signing_key: Some(signing_key.to_owned()),
                        first_known_index: index,
                        history_visibility,
                        imported: false,
                    },
                )
            },
            Err(failure) => Err(SessionCreationError::from_failure(failure)),
        }
    }

    /// The record of a session as it was stored.
    pub fn restore(
        session_id: String,
        room_id: String,
        sender_key: String,
        signing_key: Option<String>,
        first_known_index: u32,
        history_visibility: Option<HistoryVisibility>,
        imported: bool,
    ) -> (r: InboundGroupSession)
        ensures
            r@ == (InboundView {
                session_id: session_id@,
                room_id: room_id@,
                sender_key: sender_key@,
                signing_key: text_view(signing_key),
                first_known_index,
                history_visibility,
                imported,
            }),
    {
        InboundGroupSession {
            session_id,
            room_id,
            sender_key,
            signing_key,
            first_known_index,
            history_visibility,
            imported,
        }
    }

    /// The record of the session that the exported key `key` sets up.
    ///
    /// `outcome` is what the ratchet made of the exported state: the first
    /// index that it knows, or why the state could not be used. An export
    /// for another algorithm, or one that does not read like an exported
    /// key, is refused whatever the ratchet says, and so is a ratchet that
    /// does not stand where the key says.
    pub fn from_export(key: ExportedRoomKey, outcome: Result<u32, CryptoFailure>) -> (r: Result<
        InboundGroupSession,
        SessionCreationError,
    >)
        ensures
            match imported(key@, outcome) {
                Ok(session) => {
                    &&& r matches Ok(made)
                    &&& made@ == session
                },
                Err(refusal) => {
                    &&& r matches Err(error)
                    &&& error == refusal
                },
            },
    {
        match key.algorithm {
            EventEncryptionAlgorithm::MegolmV1AesSha2 => {},
            _ => {
                return Err(SessionCreationError::UnsupportedAlgorithm);
            },
        }
        let index = match read_key_index(key.session_key.as_str(), EXPORTED_KEY_VERSION) {
            Some(index) => index,
            None => {
                return Err(SessionCreationError::MalformedSessionKey);
            },
        };
        match outcome {
            Ok(first_known_index) => {
                if first_known_index != index {
                    return Err(SessionCreationError::MalformedSessionKey);
                }
                Ok(
                    InboundGroupSession {
                        session_id: key.session_id,
                        room_id: key.room_id,
                        sender_key: key.sender_key,
                        signing_key: key.sender_signing_key,
                        first_known_index: index,
                        history_visibility: None,
                        imported: true,
                    },
                )
            },
            Err(failure) => Err(SessionCreationError::from_failure(failure)),
        }
    }

    /// The id of the session.
    pub fn session_id(&self) -> (r: &str)
        ensures
            r@ == self@.session_id,
    {
        self.session_id.as_str()
    }

    /// The room that the session belongs to.
    pub fn room_id(&self) -> (r: &str)
        ensures
            r@ == self@.room_id,
    {
        self.room_id.as_str()
    }

    /// The identity key of the device that sends on the session.
    pub fn sender_key(&self) -> (r: &str)
        ensures
            r@ == self@.sender_key,
    {
        self.sender_key.as_str()
    }

    /// The signing key that the sender claims, where it is known.
    pub fn signing_key(&self) -> (r: Option<&String>)
        ensures
            match r {
                Some(key) => self@.signing_key == Some(key@),
                None => self@.signing_key is None,
            },
    {
        self.signing_key.as_ref()
    }

    /// The first message index that the session can decrypt.
    pub fn first_known_index(&self) -> (r: u32)
        ensures
            r == self@.first_known_index,
    {
        self.first_known_index
    }

    /// Who could read the history of the room when the key was made.
    pub fn history_visibility(&self) -> (r: Option<HistoryVisibility>)
        ensures
            r == self@.history_visibility,
    {
        self.history_visibility
    }

    /// Whether the key came from an export.
    pub fn imported(&self) -> (r: bool)
        ensures
            r == self@.imported,
    {
        self.imported
    }

    /// What came of decrypting `event`: the event that was encrypted and
    /// the index of the message, or why there is none.
    ///
    /// `outcome` is what the ratchet made of the ciphertext: the plaintext,
    /// read as an event where it is one, and the index, or its failure. An
    /// event for another algorithm or session is refused, and so is a
    /// message whose index lies before the first known one, whatever the
    /// ratchet says. The index is handed on, so that two messages with one
    /// index can be told. The session is not changed.
    pub fn decrypt(
        &self,
        event: &EncryptedContent,
        outcome: Result<(Option<GroupPayload>, u32), CryptoFailure>,
    ) -> (r: Result<(GroupPayload, u32), DecryptionError>)
        ensures
            r == decrypted(self@, event@, outcome),
    {
        match event.algorithm {
            EventEncryptionAlgorithm::MegolmV1AesSha2 => {},
            _ => {
                return Err(DecryptionError::UnsupportedAlgorithm);
            },
        }
        if !same_text(event.session_id.as_str(), self.session_id.as_str()) {
            return Err(DecryptionError::MismatchedSession);
        }
        match outcome {
            Err(failure) => Err(DecryptionError::from_failure(failure)),
            Ok((payload, index)) => {
                if index < self.first_known_index {
                    Err(DecryptionError::UnknownMessageIndex)
                } else {
                    match payload {
                        Some(payload) => Ok((payload, index)),
                        None => Err(DecryptionError::UnknownFraming),
                    }
                }
            },
        }
    }

    /// The index at which the ratchet is to export its state when
    /// `requested` is asked for.
    pub fn export_index(&self, requested: u32) -> (r: u32)
        ensures
            r == self@.export_index(requested),
    {
        if requested >= self.first_known_index {
            requested
        } else {
            self.first_known_index
        }
    }

    /// The export of the session from the index `requested` on, or from the
    /// first index it knows where that is later.
    ///
    /// `session_key` is what the ratchet exported at
    /// [`export_index`](Self::export_index)`(requested)`. Nothing is
    /// exported around a key that does not read like an exported key, or
    /// that stands at another index.
    pub fn export_at_index(&self, requested: u32, session_key: String) -> (r: Option<
        ExportedRoomKey,
    >)
        ensures
            match r {
                Some(key) => self@.exported_at(requested, session_key@) == Some(key@),
                None => self@.exported_at(requested, session_key@) is None,
            },
    {
        let index = self.export_index(requested);
        match read_key_index(session_key.as_str(), EXPORTED_KEY_VERSION) {
            Some(found) => {
                if found != index {
                    return None;
                }
            },
            None => {
                return None;
            },
        }
        Some(
            ExportedRoomKey {
                algorithm: EventEncryptionAlgorithm::MegolmV1AesSha2,
                room_id: self.room_id.clone(),
                session_id: self.session_id.clone(),
                sender_key: self.sender_key.clone(),
                session_key,
                sender_signing_key: duplicate_text(&self.signing_key),
            },
        )
    }

    /// The export of the session from the first index it knows, around
    /// `session_key`, what the ratchet exported at that index.
    pub fn export(&self, session_key: String) -> (r: Option<ExportedRoomKey>)
        ensures
            match r {
                Some(key) => self@.exported_at(self@.first_known_index, session_key@) == Some(
                    key@,
                ),
                None => self@.exported_at(self@.first_known_index, session_key@) is None,
            },
    {
        self.export_at_index(self.first_known_index, session_key)
    }
}

} // verus!
