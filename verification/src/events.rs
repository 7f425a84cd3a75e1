//! The records that pass between the engine and the rest of the client.

use vstd::prelude::*;
use crate::settings::EventEncryptionAlgorithm;

verus! {

/// What a group session encrypts: an event of a room, its type and its
/// content, the content as JSON text.
#[derive(Debug)]
pub struct GroupPayload {
    pub event_type: String,
    pub content: String,
    pub room_id: String,
}

/// The model of a payload.
pub struct GroupPayloadView {
    pub event_type: Seq<char>,
    pub content: Seq<char>,
    pub room_id: Seq<char>,
}

impl View for GroupPayload {
    type V = GroupPayloadView;

    open spec fn view(&self) -> GroupPayloadView {
        GroupPayloadView {
            event_type: self.event_type@,
            content: self.content@,
            room_id: self.room_id@,
        }
    }
}

/// An encrypted event of a room as it travels.
#[derive(Debug)]
pub struct EncryptedContent {
    pub algorithm: EventEncryptionAlgorithm,
    pub sender_key: String,
    pub ciphertext: String,
    pub session_id: String,
    pub device_id: String,
}

/// The model of an encrypted event.
pub struct EncryptedContentView {
    pub algorithm: EventEncryptionAlgorithm,
    pub sender_key: Seq<char>,
    pub ciphertext: Seq<char>,
    pub session_id: Seq<char>,
    pub device_id: Seq<char>,
}

impl View for EncryptedContent {
    type V = EncryptedContentView;

    open spec fn view(&self) -> EncryptedContentView {
        EncryptedContentView {
            algorithm: self.algorithm,
            sender_key: self.sender_key@,
            ciphertext: self.ciphertext@,
            session_id: self.session_id@,
            device_id: self.device_id@,
        }
    }
}

/// The key of a group session in the form in which it is exported, backed
/// up and handed from device to device.
#[derive(Debug)]
pub struct ExportedRoomKey {
    pub algorithm: EventEncryptionAlgorithm,
    pub room_id: String,
    pub session_id: String,
    pub sender_key: String,
    pub session_key: String,
    pub sender_signing_key: Option<String>,
}

/// The model of an exported key.
pub struct ExportedRoomKeyView {
    pub algorithm: EventEncryptionAlgorithm,
    pub room_id: Seq<char>,
    pub session_id: Seq<char>,
    pub sender_key: Seq<char>,
    pub session_key: Seq<char>,
    pub sender_signing_key: Option<Seq<char>>,
}

/// The model of a text that may be missing.
pub open spec fn text_view(text: Option<String>) -> Option<Seq<char>> {
    match text {
        Some(t) => Some(t@),
        None => None,
    }
}

impl View for ExportedRoomKey {
    type V = ExportedRoomKeyView;

    open spec fn view(&self) -> ExportedRoomKeyView {
        ExportedRoomKeyView {
            algorithm: self.algorithm,
            room_id: self.room_id@,
            session_id: self.session_id@,
            sender_key: self.sender_key@,
            session_key: self.session_key@,
            sender_signing_key: text_view(self.sender_signing_key),
        }
    }
}

/// A copy of a text that may be missing.
pub fn duplicate_text(text: &Option<String>) -> (r: Option<String>)
    ensures
        text_view(r) == text_view(*text),
{
    match text {
        Some(t) => Some(t.clone()),
        None => None,
    }
}

} // verus!
