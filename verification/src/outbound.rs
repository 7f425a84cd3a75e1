//! The sending side of a group session.

use vstd::prelude::*;
use crate::clock::elapsed;
use crate::events::EncryptedContent;
use crate::events::EncryptedContentView;
use crate::events::GroupPayload;
use crate::events::GroupPayloadView;
use crate::settings::EncryptionSettings;
use crate::settings::EventEncryptionAlgorithm;
use crate::settings::SHORTEST_ROTATION_PERIOD_MS;
use crate::share::asked;
use crate::share::awaits;
use crate::share::others;
use crate::share::recorded;
use crate::share::settled;
use crate::share::share_for;
use crate::share::LedgerView;
use crate::share::Recipient;
use crate::share::ShareLedger;
use crate::share::ShareState;

verus! {

/// The model of the sending side of a group session.
pub struct OutboundView {
    /// The id of the session.
    pub session_id: Seq<char>,
    /// The room that the session encrypts for.
    pub room_id: Seq<char>,
    /// The device that runs the session.
    pub device_id: Seq<char>,
    /// The identity key of that device.
    pub sender_key: Seq<char>,
    /// The settings that the session was made under.
    pub settings: EncryptionSettings,
    /// When the session was made.
    pub creation_time: u64,
    /// The index that the next message gets: the number of messages that
    /// the session has encrypted.
    pub message_index: u32,
    /// Whether the key has gone out to those it was meant for.
    pub shared: bool,
    /// Whether a device that has the key is no longer to read on.
    pub invalidated: bool,
    /// Who has the key.
    pub ledger: LedgerView,
}

impl OutboundView {
    /// What holds of every session: its ledger is in order.
    pub open spec fn wf(self) -> bool {
        self.ledger.wf()
    }

    /// Whether the session has done its time at `now`: it has encrypted as
    /// many messages as its settings allow, or has reached the age at which
    /// they ask for another.
    pub open spec fn expired(self, now: u64) -> bool {
        self.message_index >= self.settings.rotation_period_msgs || elapsed(
            self.creation_time,
            now,
        ) >= self.settings.effective_period()
    }

    /// Whether the session can take a message into its record: it is not
    /// invalidated and has an index left to give.
    pub open spec fn open(self) -> bool {
        !self.invalidated && self.message_index < u32::MAX
    }

    /// Whether the session may encrypt at `now`: it is neither invalidated
    /// nor expired, and has an index left to give.
    pub open spec fn usable(self, now: u64) -> bool {
        self.open() && !self.expired(now)
    }

    /// The event that carries `ciphertext` for this session.
    pub open spec fn envelope(self, ciphertext: Seq<char>) -> EncryptedContentView {
        EncryptedContentView {
            algorithm: EventEncryptionAlgorithm::MegolmV1AesSha2,
            sender_key: self.sender_key,
            ciphertext,
            session_id: self.session_id,
            device_id: self.device_id,
        }
    }
}

/// The sending side of a group session.
#[derive(Debug)]
pub struct OutboundGroupSession {
    session_id: String,
    room_id: String,
    device_id: String,
    sender_key: String,
    settings: EncryptionSettings,
    creation_time: u64,
    message_index: u32,
    shared: bool,
    invalidated: bool,
    ledger: ShareLedger,
}

impl View for OutboundGroupSession {
    type V = OutboundView;

    closed spec fn view(&self) -> OutboundView {
        OutboundView {
            session_id: self.session_id@,
            room_id: self.room_id@,
            device_id: self.device_id@,
            sender_key: self.sender_key@,
            settings: self.settings,
            creation_time: self.creation_time,
            message_index: self.message_index,
            shared: self.shared,
            invalidated: self.invalidated,
            ledger: self.ledger@,
        }
    }
}

impl OutboundGroupSession {
    /// The record of a session that was just made: nothing encrypted, the
    /// key given to nobody.
    pub fn new(
        session_id: String,
        room_id: String,
        device_id: String,
        sender_key: String,
        settings: EncryptionSettings,
        now: u64,
    ) -> (r: OutboundGroupSession)
        ensures
            r@.wf(),
            r@.session_id == session_id@,
            r@.room_id == room_id@,
            r@.device_id == device_id@,
            r@.sender_key == sender_key@,
            r@.settings == settings,
            r@.creation_time == now,
            r@.message_index == 0,
            !r@.shared,
            !r@.invalidated,
            r@.ledger.sent.len() == 0,
            r@.ledger.pending.len() == 0,
    {
        OutboundGroupSession {
            session_id,
            room_id,
            device_id,
            sender_key,
            settings,
            creation_time: now,
            message_index: 0,
            shared: false,
            invalidated: false,
            ledger: ShareLedger::new(),
        }
    }

    /// The record of a session as it was stored, with its ledger.
    pub fn restore(
        session_id: String,
        room_id: String,
        device_id: String,
        sender_key: String,
        settings: EncryptionSettings,
        creation_time: u64,
        message_index: u32,
        shared: bool,
        invalidated: bool,
        ledger: ShareLedger,
    ) -> (r: OutboundGroupSession)
        requires
            ledger@.wf(),
        ensures
            r@.wf(),
            r@ == (OutboundView {
                session_id: session_id@,
                room_id: room_id@,
                device_id: device_id@,
                sender_key: sender_key@,
                settings,
                creation_time,
                message_index,
                shared,
                invalidated,
                ledger: ledger@,
            }),
    {
        OutboundGroupSession {
            session_id,
            room_id,
            device_id,
            sender_key,
            settings,
            creation_time,
            message_index,
            shared,
            invalidated,
            ledger,
        }
    }

    /// Who has the key, as it is written down when the session is stored.
    pub fn ledger(&self) -> (r: &ShareLedger)
        ensures
            r@ == self@.ledger,
    {
        &self.ledger
    }

    /// The id of the session.
    pub fn session_id(&self) -> (r: &str)
        ensures
            r@ == self@.session_id,
    {
        self.session_id.as_str()
    }

    /// The room that the session encrypts for.
    pub fn room_id(&self) -> (r: &str)
        ensures
            r@ == self@.room_id,
    {
        self.room_id.as_str()
    }

    /// The device that runs the session.
    pub fn device_id(&self) -> (r: &str)
        ensures
            r@ == self@.device_id,
    {
        self.device_id.as_str()
    }

    /// The identity key of the device that runs the session.
    pub fn sender_key(&self) -> (r: &str)
        ensures
            r@ == self@.sender_key,
    {
        self.sender_key.as_str()
    }

    /// The settings that the session was made under.
    pub fn settings(&self) -> (r: EncryptionSettings)
        ensures
            r == self@.settings,
    {
        self.settings
    }

    /// When the session was made.
    pub fn creation_time(&self) -> (r: u64)
        ensures
            r == self@.creation_time,
    {
        self.creation_time
    }

    /// The index that the next message gets.
    pub fn message_index(&self) -> (r: u32)
        ensures
            r == self@.message_index,
    {
        self.message_index
    }

    /// Whether the key has gone out to those it was meant for.
    pub fn shared(&self) -> (r: bool)
        ensures
            r == self@.shared,
    {
        self.shared
    }

    /// Records that the key has gone out. There is no way back.
    pub fn mark_as_shared(&mut self)
        ensures
            final(self)@ == (OutboundView { shared: true, ..old(self)@ }),
    {
        self.shared = true;
    }

    /// Whether a device that has the key is no longer to read on.
    pub fn invalidated(&self) -> (r: bool)
        ensures
            r == self@.invalidated,
    {
        self.invalidated
    }

    /// Records that a device that has the key is no longer to read on: the
    /// session encrypts nothing from now on. There is no way back.
    pub fn invalidate_session(&mut self)
        ensures
            final(self)@ == (OutboundView { invalidated: true, ..old(self)@ }),
    {
        self.invalidated = true;
    }

    /// Records that the device `device_id` of `user_id` is no longer to
    /// read on. Where the device has the key or is about to get it, the
    /// session is invalidated; a device that never had the key changes
    /// nothing.
    pub fn withdraw_from(&mut self, user_id: &str, device_id: &str)
        requires
            old(self)@.wf(),
        ensures
            final(self)@.wf(),
            final(self)@ == (OutboundView {
                invalidated: old(self)@.invalidated || old(self)@.ledger.names(
                    user_id@,
                    device_id@,
                ),
                ..old(self)@
            }),
    {
        if self.ledger.names(user_id, device_id) {
            self.invalidated = true;
        }
    }

    /// Whether the session has done its time at `now`.
    pub fn expired(&self, now: u64) -> (r: bool)
        ensures
            r == self@.expired(now),
    {
        let age: u64 = if now >= self.creation_time {
            now - self.creation_time
        } else {
            0
        };
        let period: u64 = if self.settings.rotation_period_ms >= SHORTEST_ROTATION_PERIOD_MS {
            self.settings.rotation_period_ms
        } else {
            SHORTEST_ROTATION_PERIOD_MS
        };
        self.message_index as u64 >= self.settings.rotation_period_msgs || age >= period
    }

    /// What the ratchet is to encrypt for an event of the room, or nothing
    /// where the session must be replaced first. The session is not changed.
    pub fn prepare(&self, event_type: &str, content: &str, now: u64) -> (r: Option<GroupPayload>)
        ensures
            match r {
                Some(payload) => self@.usable(now) && payload@ == (GroupPayloadView {
                    event_type: event_type@,
                    content: content@,
                    room_id: self@.room_id,
                }),
                None => !self@.usable(now),
            },
    {
        if self.invalidated || self.expired(now) || self.message_index == u32::MAX {
            None
        } else {
            Some(
                GroupPayload {
                    event_type: event_type.to_owned(),
                    content: content.to_owned(),
                    room_id: self.room_id.clone(),
                },
            )
        }
    }

    /// Whether the session can take a message into its record: it is not
    /// invalidated and has an index left to give.
    pub fn can_encrypt(&self) -> (r: bool)
        ensures
            r == self@.open(),
    {
        !self.invalidated && self.message_index < u32::MAX
    }

    /// Records that the ratchet encrypted a message, and wraps the
    /// ciphertext for the room.
    ///
    /// The message has the index at which the session stood, and the session
    /// moves on by one; no index is given twice. A session that is
    /// invalidated, or has given its last index, records nothing and wraps
    /// nothing: it must be replaced first.
    pub fn encrypt(&mut self, ciphertext: String) -> (r: Option<(EncryptedContent, u32)>)
        ensures
            match r {
                Some((event, index)) => {
                    &&& old(self)@.open()
                    &&& index == old(self)@.message_index
                    &&& event@ == old(self)@.envelope(ciphertext@)
                    &&& final(self)@ == (OutboundView {
                        message_index: (old(self)@.message_index + 1) as u32,
                        ..old(self)@
                    })
                },
                None => !old(self)@.open() && final(self)@ == old(self)@,
            },
    {
        if self.invalidated || self.message_index == u32::MAX {
            return None;
        }
        let index = self.message_index;
        self.message_index = index + 1;
        Some(
            (
                EncryptedContent {
                    algorithm: EventEncryptionAlgorithm::MegolmV1AesSha2,
                    sender_key: self.sender_key.clone(),
                    ciphertext,
                    session_id: self.session_id.clone(),
                    device_id: self.device_id.clone(),
                },
                index,
            ),
        )
    }

    /// Notes that the request `request` offers the key, as the session
    /// stands, to each of `recipients`.
    pub fn add_request(&mut self, request: u128, recipients: &Vec<Recipient>)
        requires
            old(self)@.wf(),
        ensures
            final(self)@.wf(),
            final(self)@ == (OutboundView {
                ledger: LedgerView {
                    sent: old(self)@.ledger.sent,
                    pending: asked(
                        old(self)@.ledger.pending,
                        request,
                        recipients@.map_values(|r: Recipient| r@),
                        old(self)@.message_index,
                    ),
                },
                ..old(self)@
            }),
    {
        self.ledger.add_request(request, recipients, self.message_index);
    }

    /// Records that the request `request` was sent. What it offered counts
    /// as given; and where the ledger knew of the request and nothing else
    /// is on its way, the key counts as having gone out.
    pub fn mark_request_as_sent(&mut self, request: u128)
        requires
            old(self)@.wf(),
        ensures
            final(self)@.wf(),
            final(self)@ == (OutboundView {
                shared: old(self)@.shared || (awaits(old(self)@.ledger.pending, request) && others(
                    old(self)@.ledger.pending,
                    request,
                ).len() == 0),
                ledger: LedgerView {
                    sent: settled(old(self)@.ledger.sent, old(self)@.ledger.pending, request),
                    pending: others(old(self)@.ledger.pending, request),
                },
                ..old(self)@
            }),
    {
        let known = self.ledger.mark_request_as_sent(request);
        if known && !self.ledger.has_pending() {
            self.shared = true;
        }
    }

    /// Records that the key was sent to `recipient` as the session stands.
    pub fn mark_shared_with(&mut self, recipient: &Recipient)
        requires
            old(self)@.wf(),
        ensures
            final(self)@.wf(),
            final(self)@ == (OutboundView {
                ledger: LedgerView {
                    sent: recorded(
                        old(self)@.ledger.sent,
                        share_for(recipient@, old(self)@.message_index),
                    ),
                    pending: old(self)@.ledger.pending,
                },
                ..old(self)@
            }),
    {
        self.ledger.mark_shared_with(recipient, self.message_index);
    }

    /// Whether the device `device_id` of `user_id`, which now has the
    /// identity key `key`, has the key of the session, and as of which index.
    pub fn is_shared_with(&self, user_id: &str, device_id: &str, key: &str) -> (r: ShareState)
        requires
            self@.wf(),
        ensures
            r == self@.ledger.state_of(user_id@, device_id@, key@),
    {
        self.ledger.state_of(user_id, device_id, key)
    }
}

} // verus!
