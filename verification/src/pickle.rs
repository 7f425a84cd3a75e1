//! Storing the engine's records and reading them back.
//!
//! Each record is stored next to the pickle that the backend makes of the
//! ratchet it belongs to, and read back against what the backend makes of
//! that pickle.

use vstd::prelude::*;
use crate::account::Account;
use crate::account::AccountView;
use crate::clock::deserialize_instant;
use crate::clock::elapsed;
use crate::clock::instant_before;
use crate::clock::serialize_instant;
use crate::error::pickle_error_of;
use crate::error::CryptoFailure;
use crate::error::PickleError;
use crate::events::text_view;
use crate::inbound::GroupRatchet;
use crate::inbound::InboundGroupSession;
use crate::inbound::InboundView;
use crate::keys::key_of;
use crate::keys::IdentityKeys;
use crate::keys::OneTimeKey;
use crate::keys::OneTimeKeyView;
use crate::outbound::OutboundGroupSession;
use crate::outbound::OutboundView;
use crate::pool::admitted;
use crate::pool::lemma_keys_can_be_taken_in_again;
use crate::pool::records_of;
use crate::pool::KeyRecord;
use crate::pool::PoolView;
use crate::pool::PooledKey;
use crate::pool::StoredKey;
use crate::session::Session;
use crate::session::SessionView;
use crate::settings::EncryptionSettings;
use crate::settings::HistoryVisibility;
use crate::share::one_entry_each;
use crate::share::LedgerView;
use crate::share::ShareLedger;
use crate::share::StoredRequest;
use crate::share::StoredShare;
use crate::wire::Handshake;
use crate::wire::HandshakeView;

verus! {

/// An account as it is stored.
#[derive(Debug)]
pub struct PickledAccount {
    pub user_id: String,
    pub device_id: String,
    /// The pickle of the account's keys, as the backend made it.
    pub pickle: String,
    pub shared: bool,
    pub max_one_time_keys: usize,
    pub one_time_keys: Vec<StoredKey>,
    pub fallback_key: Option<OneTimeKey>,
    pub previous_fallback_key: Option<OneTimeKey>,
}

/// A pairwise session as it is stored.
#[derive(Debug)]
pub struct PickledSession {
    /// The pickle of the ratchet, as the backend made it.
    pub pickle: String,
    pub sender_key: String,
    pub handshake: Option<Handshake>,
    /// The time since the session was set up.
    pub creation_time: u64,
    /// The time since the session was last used.
    pub last_use_time: u64,
}

/// The sending side of a group session as it is stored.
#[derive(Debug)]
pub struct PickledOutboundGroupSession {
    /// The pickle of the ratchet, as the backend made it.
    pub pickle: String,
    pub room_id: String,
    pub device_id: String,
    pub sender_key: String,
    pub settings: EncryptionSettings,
    /// The time since the session was made.
    pub creation_time: u64,
    pub message_index: u32,
    pub shared: bool,
    pub invalidated: bool,
    /// To whom the key was sent.
    pub shared_with: Vec<StoredShare>,
    /// To whom the key is on its way.
    pub requests: Vec<StoredRequest>,
}

/// The receiving side of a group session as it is stored.
#[derive(Debug)]
pub struct PickledInboundGroupSession {
    /// The pickle of the ratchet, as the backend made it.
    pub pickle: String,
    pub room_id: String,
    pub sender_key: String,
    pub signing_key: Option<String>,
    pub history_visibility: Option<HistoryVisibility>,
    pub imported: bool,
}

/// What the ratchet of a sending side says of itself when it is read back.
#[derive(Debug)]
pub struct SendingRatchet {
    pub session_id: String,
    pub message_index: u32,
}

/// The model of a handshake that may be missing.
pub open spec fn handshake_view(handshake: Option<Handshake>) -> Option<HandshakeView> {
    match handshake {
        Some(h) => Some(h@),
        None => None,
    }
}

/// The model of a key that may be missing.
pub open spec fn key_view(key: Option<OneTimeKey>) -> Option<OneTimeKeyView> {
    match key {
        Some(key) => Some(key@),
        None => None,
    }
}

/// The account that is read back from what was stored of `account`, where
/// the backend gives the identity keys `identity_keys`.
pub open spec fn account_read_back(
    user_id: Seq<char>,
    device_id: Seq<char>,
    shared: bool,
    max_one_time_keys: usize,
    stored: Seq<KeyRecord>,
    fallback_key: Option<OneTimeKeyView>,
    previous_fallback_key: Option<OneTimeKeyView>,
    identity_keys: IdentityKeys,
) -> Result<AccountView, PickleError> {
    if stored.len() > max_one_time_keys || (fallback_key matches Some(key) && key_of(key.key)
        is None) || (previous_fallback_key matches Some(key) && key_of(key.key) is None) {
        Err(PickleError::Inconsistent)
    } else {
        match admitted(Seq::empty(), stored) {
            Ok(keys) => Ok(
                AccountView {
                    user_id,
                    device_id,
                    identity_keys: identity_keys@,
                    shared,
                    pool: PoolView { keys, capacity: max_one_time_keys as nat },
                    fallback_key,
                    previous_fallback_key,
                },
            ),
            Err(_) => Err(PickleError::Inconsistent),
        }
    }
}

/// An account that is stored and read back, under the key it was pickled
/// with, is the account it was.
pub proof fn lemma_account_read_back(account: AccountView, identity_keys: IdentityKeys)
    requires
        account.wf(),
        account.pool.capacity <= usize::MAX,
        identity_keys@ == account.identity_keys,
    ensures
        account_read_back(
            account.user_id,
            account.device_id,
            account.shared,
            account.pool.capacity as usize,
            records_of(account.pool.keys),
            account.fallback_key,
            account.previous_fallback_key,
            identity_keys,
        ) == Ok::<AccountView, PickleError>(account),
{
    assert(Seq::<PooledKey>::empty() + account.pool.keys =~= account.pool.keys);
    lemma_keys_can_be_taken_in_again(Seq::empty(), account.pool.keys);
}

impl Account {
    /// What is stored of the account, next to `pickle`, the pickle that the
    /// backend made of its keys.
    pub fn pickle(&self, pickle: String) -> (r: PickledAccount)
        ensures
            r.user_id@ == self@.user_id,
            r.device_id@ == self@.device_id,
            r.pickle@ == pickle@,
            r.shared == self@.shared,
            r.max_one_time_keys == self@.pool.capacity,
            r.one_time_keys@.map_values(|k: StoredKey| k@) == records_of(self@.pool.keys),
            key_view(r.fallback_key) == self@.fallback_key,
            key_view(r.previous_fallback_key) == self@.previous_fallback_key,
    {
        PickledAccount {
            user_id: self.user_id().to_owned(),
            device_id: self.device_id().to_owned(),
            pickle,
            shared: self.shared(),
            max_one_time_keys: self.max_one_time_keys(),
            one_time_keys: self.stored_one_time_keys(),
            fallback_key: match self.fallback_key() {
                Some(key) => Some(key.duplicate()),
                None => None,
            },
            previous_fallback_key: match self.previous_fallback_key() {
                Some(key) => Some(key.duplicate()),
                None => None,
            },
        }
    }

    /// The account that was stored as `pickled`.
    ///
    /// `outcome` is what the backend made of the pickle: the identity keys
    /// of the account, or its failure, which stands for a wrong key or a
    /// damaged pickle. A record whose one-time keys cannot all be keys of
    /// one pool is refused.
    pub fn from_pickle(pickled: PickledAccount, outcome: Result<IdentityKeys, CryptoFailure>) -> (r:
        Result<Account, PickleError>)
        ensures
            match outcome {
                Err(failure) => {
                    &&& r matches Err(error)
                    &&& error == pickle_error_of(failure)
                },
                Ok(identity_keys) => match account_read_back(
                    pickled.user_id@,
                    pickled.device_id@,
                    pickled.shared,
                    pickled.max_one_time_keys,
                    pickled.one_time_keys@.map_values(|k: StoredKey| k@),
                    key_view(pickled.fallback_key),
                    key_view(pickled.previous_fallback_key),
                    identity_keys,
                ) {
                    Ok(account) => {
                        &&& r matches Ok(restored)
                        &&& restored@ == account
                        &&& restored@.wf()
                    },
                    Err(refusal) => {
                        &&& r matches Err(error)
                        &&& error == refusal
                    },
                },
            },
    {
        let identity_keys = match outcome {
            Ok(identity_keys) => identity_keys,
            Err(failure) => {
                return Err(PickleError::from_failure(failure));
            },
        };
        match Account::restore(
            pickled.user_id,
            pickled.device_id,
            identity_keys,
            pickled.shared,
            pickled.max_one_time_keys,
            &pickled.one_time_keys,
            pickled.fallback_key,
            pickled.previous_fallback_key,
        ) {
            Ok(account) => Ok(account),
            Err(_) => Err(PickleError::Inconsistent),
        }
    }
}

/// The session that is read back at `now` from what was stored, where the
/// backend gives the id `session_id`.
pub open spec fn session_read_back(
    session_id: Seq<char>,
    sender_key: Seq<char>,
    handshake: Option<HandshakeView>,
    creation_time: u64,
    last_use_time: u64,
    now: u64,
) -> Result<SessionView, PickleError> {
    match (instant_before(creation_time, now), instant_before(last_use_time, now)) {
        (Some(created), Some(used)) => Ok(
            SessionView {
                session_id,
                sender_key,
                handshake,
                creation_time: created,
                last_use_time: used,
            },
        ),
        _ => Err(PickleError::ClockUnderflow),
    }
}

/// A session that is stored and read back at once is the session it was.
pub proof fn lemma_session_read_back(session: SessionView, now: u64)
    requires
        session.creation_time <= now,
        session.last_use_time <= now,
    ensures
        session_read_back(
            session.session_id,
            session.sender_key,
            session.handshake,
            elapsed(session.creation_time, now),
            elapsed(session.last_use_time, now),
            now,
        ) == Ok::<SessionView, PickleError>(session),
{
}

impl Session {
    /// What is stored of the session at `now`, next to `pickle`, the pickle
    /// that the backend made of its ratchet.
    pub fn pickle(&self, pickle: String, now: u64) -> (r: PickledSession)
        ensures
            r.pickle@ == pickle@,
            r.sender_key@ == self@.sender_key,
            handshake_view(r.handshake) == self@.handshake,
            r.creation_time == elapsed(self@.creation_time, now),
            r.last_use_time == elapsed(self@.last_use_time, now),
    {
        PickledSession {
            pickle,
            sender_key: self.sender_key().to_owned(),
            handshake: match self.handshake() {
                Some(handshake) => Some(handshake.duplicate()),
                None => None,
            },
            creation_time: serialize_instant(self.creation_time(), now),
            last_use_time: serialize_instant(self.last_use_time(), now),
        }
    }

    /// The session that was stored as `pickled`, read back at `now`.
    ///
    /// `outcome` is what the backend made of the pickle: the id of the
    /// session, or its failure, which stands for a wrong key or a damaged
    /// pickle. A record whose times reach further back than the clock is
    /// refused.
    pub fn from_pickle(pickled: PickledSession, outcome: Result<String, CryptoFailure>, now: u64) -> (r:
        Result<Session, PickleError>)
        ensures
            match outcome {
                Err(failure) => {
                    &&& r matches Err(error)
                    &&& error == pickle_error_of(failure)
                },
                Ok(session_id) => match session_read_back(
                    session_id@,
                    pickled.sender_key@,
                    handshake_view(pickled.handshake),
                    pickled.creation_time,
                    pickled.last_use_time,
                    now,
                ) {
                    Ok(session) => {
                        &&& r matches Ok(restored)
                        &&& restored@ == session
                    },
                    Err(refusal) => {
                        &&& r matches Err(error)
                        &&& error == refusal
                    },
                },
            },
    {
        let session_id = match outcome {
            Ok(session_id) => session_id,
            Err(failure) => {
                return Err(PickleError::from_failure(failure));
            },
        };
        let created = match deserialize_instant(pickled.creation_time, now) {
            Ok(instant) => instant,
            Err(error) => {
                return Err(error);
            },
        };
        let used = match deserialize_instant(pickled.last_use_time, now) {
            Ok(instant) => instant,
            Err(error) => {
                return Err(error);
            },
        };
        Ok(Session::restore(session_id, pickled.sender_key, pickled.handshake, created, used))
    }
}

/// The sending side that is read back at `now` from what was stored, where
/// the ratchet that the backend read back has the id `session_id` and
/// stands at `ratchet_index`: the record and the ratchet must stand at the
/// same index, or an index would be given twice, and no device may have two
/// entries among those that the key was sent to.
pub open spec fn outbound_read_back(
    pickled: PickledOutboundGroupSession,
    session_id: Seq<char>,
    ratchet_index: u32,
    now: u64,
) -> Result<OutboundView, PickleError> {
    if pickled.message_index != ratchet_index || !one_entry_each(
        pickled.shared_with@.map_values(|e: StoredShare| e@),
    ) {
        Err(PickleError::Inconsistent)
    } else {
        match instant_before(pickled.creation_time, now) {
            Some(created) => Ok(
                OutboundView {
                    session_id,
                    room_id: pickled.room_id@,
                    device_id: pickled.device_id@,
                    sender_key: pickled.sender_key@,
                    settings: pickled.settings,
                    creation_time: created,
                    message_index: pickled.message_index,
                    shared: pickled.shared,
                    invalidated: pickled.invalidated,
                    ledger: LedgerView {
                        sent: pickled.shared_with@.map_values(|e: StoredShare| e@),
                        pending: pickled.requests@.map_values(|e: StoredRequest| e@),
                    },
                },
            ),
            None => Err(PickleError::ClockUnderflow),
        }
    }
}

/// A sending side that is stored and read back at once, its ratchet where
/// it was, is the session it was.
pub proof fn lemma_outbound_read_back(
    session: OutboundView,
    pickled: PickledOutboundGroupSession,
    now: u64,
)
    requires
        session.wf(),
        session.creation_time <= now,
        pickled.room_id@ == session.room_id,
        pickled.device_id@ == session.device_id,
        pickled.sender_key@ == session.sender_key,
        pickled.settings == session.settings,
        pickled.creation_time == elapsed(session.creation_time, now),
        pickled.message_index == session.message_index,
        pickled.shared == session.shared,
        pickled.invalidated == session.invalidated,
        pickled.shared_with@.map_values(|e: StoredShare| e@) == session.ledger.sent,
        pickled.requests@.map_values(|e: StoredRequest| e@) == session.ledger.pending,
    ensures
        outbound_read_back(pickled, session.session_id, session.message_index, now) == Ok::<
            OutboundView,
            PickleError,
        >(session),
{
}

impl OutboundGroupSession {
    /// What is stored of the session at `now`, next to `pickle`, the pickle
    /// that the backend made of its ratchet.
    pub fn pickle(&self, pickle: String, now: u64) -> (r: PickledOutboundGroupSession)
        ensures
            r.pickle@ == pickle@,
            r.room_id@ == self@.room_id,
            r.device_id@ == self@.device_id,
            r.sender_key@ == self@.sender_key,
            r.settings == self@.settings,
            r.creation_time == elapsed(self@.creation_time, now),
            r.message_index == self@.message_index,
            r.shared == self@.shared,
            r.invalidated == self@.invalidated,
            r.shared_with@.map_values(|e: StoredShare| e@) == self@.ledger.sent,
            r.requests@.map_values(|e: StoredRequest| e@) == self@.ledger.pending,
    {
        PickledOutboundGroupSession {
            pickle,
            room_id: self.room_id().to_owned(),
            device_id: self.device_id().to_owned(),
            sender_key: self.sender_key().to_owned(),
            settings: self.settings(),
            creation_time: serialize_instant(self.creation_time(), now),
            message_index: self.message_index(),
            shared: self.shared(),
            invalidated: self.invalidated(),
            shared_with: self.ledger().stored_shares(),
            requests: self.ledger().stored_requests(),
        }
    }

    /// The session that was stored as `pickled`, read back at `now`.
    ///
    /// `outcome` is what the backend made of the pickle: the id of the
    /// session and the index at which its ratchet stands, or its failure,
    /// which stands for a wrong key or a damaged pickle. The session goes on
    /// at the index at which it was stored; a record that stands at another
    /// index than the ratchet is refused, and so is one that contradicts
    /// itself.
    pub fn from_pickle(
        pickled: PickledOutboundGroupSession,
        outcome: Result<SendingRatchet, CryptoFailure>,
        now: u64,
    ) -> (r: Result<OutboundGroupSession, PickleError>)
        ensures
            match outcome {
                Err(failure) => {
                    &&& r matches Err(error)
                    &&& error == pickle_error_of(failure)
                },
                Ok(ratchet) => match outbound_read_back(
                    pickled,
                    ratchet.session_id@,
                    ratchet.message_index,
                    now,
                ) {
                    Ok(session) => {
                        &&& r matches Ok(restored)
                        &&& restored@ == session
                        &&& restored@.wf()
                    },
                    Err(refusal) => {
                        &&& r matches Err(error)
                        &&& error == refusal
                    },
                },
            },
    {
        let ratchet = match outcome {
            Ok(ratchet) => ratchet,
            Err(failure) => {
                return Err(PickleError::from_failure(failure));
            },
        };
        if pickled.message_index != ratchet.message_index {
            return Err(PickleError::Inconsistent);
        }
        let ledger = match ShareLedger::restore(&pickled.shared_with, &pickled.requests) {
            Some(ledger) => ledger,
            None => {
                return Err(PickleError::Inconsistent);
            },
        };
        let created = match deserialize_instant(pickled.creation_time, now) {
            Ok(instant) => instant,
            Err(error) => {
                return Err(error);
            },
        };
        Ok(
            OutboundGroupSession::restore(
                ratchet.session_id,
                pickled.room_id,
                pickled.device_id,
                pickled.sender_key,
                pickled.settings,
                created,
                pickled.message_index,
                pickled.shared,
                pickled.invalidated,
                ledger,
            ),
        )
    }
}

impl InboundGroupSession {
    /// What is stored of the session, next to `pickle`, the pickle that the
    /// backend made of its ratchet.
    pub fn pickle(&self, pickle: String) -> (r: PickledInboundGroupSession)
        ensures
            r.pickle@ == pickle@,
            r.room_id@ == self@.room_id,
            r.sender_key@ == self@.sender_key,
            text_view(r.signing_key) == self@.signing_key,
            r.history_visibility == self@.history_visibility,
            r.imported == self@.imported,
    {
        PickledInboundGroupSession {
            pickle,
            room_id: self.room_id().to_owned(),
            sender_key: self.sender_key().to_owned(),
            signing_key: match self.signing_key() {
                Some(key) => Some(key.clone()),
                None => None,
            },
            history_visibility: self.history_visibility(),
            imported: self.imported(),
        }
    }

    /// The session that was stored as `pickled`.
    ///
    /// `outcome` is what the backend made of the pickle: the id of the
    /// session and the first index that its ratchet knows, or its failure,
    /// which stands for a wrong key or a damaged pickle.
    pub fn from_pickle(
        pickled: PickledInboundGroupSession,
        outcome: Result<GroupRatchet, CryptoFailure>,
    ) -> (r: Result<InboundGroupSession, PickleError>)
        ensures
            match outcome {
                Err(failure) => {
                    &&& r matches Err(error)
                    &&& error == pickle_error_of(failure)
                },
                Ok(ratchet) => {
                    &&& r matches Ok(restored)
                    &&& restored@ == (InboundView {
                        session_id: ratchet.session_id@,
                        room_id: pickled.room_id@,
                        sender_key: pickled.sender_key@,
                        signing_key: text_view(pickled.signing_key),
                        first_known_index: ratchet.first_known_index,
                        history_visibility: pickled.history_visibility,
                        imported: pickled.imported,
                    })
                },
            },
    {
        match outcome {
            Ok(ratchet) => Ok(
                InboundGroupSession::restore(
                    ratchet.session_id,
                    pickled.room_id,
                    pickled.sender_key,
                    pickled.signing_key,
                    ratchet.first_known_index,
                    pickled.history_visibility,
                    pickled.imported,
                ),
            ),
            Err(failure) => Err(PickleError::from_failure(failure)),
        }
    }
}

} // verus!
