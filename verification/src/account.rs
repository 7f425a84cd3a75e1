//! An account: the long-term identity of one device, with its one-time keys.

use vstd::prelude::*;
use crate::error::creation_error_of;
use crate::error::key_error_of;
use crate::error::CryptoFailure;
use crate::error::KeyError;
use crate::error::SessionCreationError;
use crate::inbound::InboundGroupSession;
use crate::inbound::InboundView;
use crate::keys::decode_key;
use crate::keys::key_of;
use crate::keys::IdentityKeys;
use crate::keys::IdentityKeysView;
use crate::keys::OneTimeKey;
use crate::keys::OneTimeKeyView;
use crate::keys::OneTimeKeys;
use crate::keys::SignedKey;
use crate::outbound::OutboundGroupSession;
use crate::pool::admitted;
use crate::pool::all_published;
use crate::pool::as_fresh;
use crate::pool::lemma_consumed_key_is_gone;
use crate::pool::records_of;
use crate::pool::unknown;
use crate::pool::unpublished;
use crate::pool::StoredKey;
use crate::pool::OneTimeKeyPool;
use crate::pool::PoolView;
use crate::pool::PooledKey;
use crate::session::Session;
use crate::session::SessionView;
use crate::settings::EncryptionSettings;
use crate::settings::EventEncryptionAlgorithm;
use crate::text::same_bytes;
use crate::wire::handshake_of;
use crate::wire::Handshake;

verus! {

/// The model of an account.
pub struct AccountView {
    /// The user that the device belongs to.
    pub user_id: Seq<char>,
    /// The device.
    pub device_id: Seq<char>,
    /// The identity keys of the device.
    pub identity_keys: IdentityKeysView,
    /// Whether the identity has been announced.
    pub shared: bool,
    /// The one-time keys that no handshake has consumed yet.
    pub pool: PoolView,
    /// The fallback key: the key that serves handshakes when the published
    /// one-time keys have run out. It is not consumed.
    pub fallback_key: Option<OneTimeKeyView>,
    /// The fallback key before this one, which still serves the handshakes
    /// that are on their way.
    pub previous_fallback_key: Option<OneTimeKeyView>,
}

impl AccountView {
    /// What holds of every account: its pool is in order, and its
    /// fallback key, where it has one, is a key.
    pub open spec fn wf(self) -> bool {
        &&& self.pool.wf()
        &&& self.fallback_key matches Some(key) ==> key_of(key.key) is Some
        &&& self.previous_fallback_key matches Some(key) ==> key_of(key.key) is Some
    }

    /// Whether a fallback key of the account, the present one or the one
    /// before, has the bytes `raw`.
    pub open spec fn falls_back_on(self, raw: Seq<u8>) -> bool {
        names_key(self.fallback_key, raw) || names_key(self.previous_fallback_key, raw)
    }

    /// The account after the key at `at` of its pool was consumed.
    pub open spec fn consuming(self, at: int) -> AccountView {
        AccountView {
            pool: PoolView { keys: self.pool.keys.remove(at), capacity: self.pool.capacity },
            ..self
        }
    }

    /// Where the pool holds the one-time key that the pre-key message
    /// `message` names, or nowhere where the message names the fallback key;
    /// or why the message cannot start a session: it or the identity key
    /// `identity_key` that it is claimed to come from cannot be read, it
    /// names another identity key, or it names a key that the account does
    /// not hold.
    pub open spec fn located(self, identity_key: Seq<char>, message: Seq<char>) -> Result<
        Option<int>,
        SessionCreationError,
    > {
        match (key_of(identity_key), handshake_of(message)) {
            (Some(key), Some(handshake)) => if handshake.identity_key != key {
                Err(SessionCreationError::IdentityMismatch)
            } else if self.pool.holds(handshake.one_time_key) {
                Ok(Some(self.pool.index_of(handshake.one_time_key)))
            } else if self.falls_back_on(handshake.one_time_key) {
                Ok(None)
            } else {
                Err(SessionCreationError::UnknownOneTimeKey)
            },
            _ => Err(SessionCreationError::MalformedHandshake),
        }
    }
}

/// A one-time key serves once: after a handshake has consumed its key, the
/// same handshake finds no key any more, unless the fallback key is that
/// very key.
pub proof fn lemma_one_time_key_serves_once(
    account: AccountView,
    identity_key: Seq<char>,
    message: Seq<char>,
)
    requires
        account.wf(),
        account.located(identity_key, message) matches Ok(Some(_)),
        !account.falls_back_on(handshake_of(message).unwrap().one_time_key),
    ensures
        account.consuming(account.located(identity_key, message)->Ok_0->Some_0).located(
            identity_key,
            message,
        ) == Err::<Option<int>, SessionCreationError>(SessionCreationError::UnknownOneTimeKey),
{
    let handshake = handshake_of(message).unwrap();
    lemma_consumed_key_is_gone(account.pool, handshake.one_time_key);
}

/// The session that a handshake sets up at `now`.
pub open spec fn session_from(
    session_id: Seq<char>,
    sender_key: Seq<char>,
    message: Option<Seq<char>>,
    now: u64,
) -> SessionView {
    SessionView {
        session_id,
        sender_key,
        handshake: match message {
            Some(message) => handshake_of(message),
            None => None,
        },
        creation_time: now,
        last_use_time: now,
    }
}

/// Why the one-time key `key` of the device with the identity key
/// `identity_key` cannot be used, if it cannot: one of the two is no key, or
/// the one-time key carries a signature that did not verify.
pub open spec fn key_fault(
    identity_key: Seq<char>,
    key: Seq<char>,
    signed: bool,
    signature_valid: bool,
) -> Option<KeyError> {
    if key_of(identity_key) is None || key_of(key) is None {
        Some(KeyError::Malformed)
    } else if signed && !signature_valid {
        Some(KeyError::InvalidSignature)
    } else {
        None
    }
}

/// Whether `key` is there and has the bytes `raw`.
pub open spec fn names_key(key: Option<OneTimeKeyView>, raw: Seq<u8>) -> bool {
    match key {
        Some(key) => key_of(key.key) == Some(raw),
        None => false,
    }
}

fn key_is(key: &Option<OneTimeKey>, raw: &[u8]) -> (r: bool)
    ensures
        r == names_key(
            match *key {
                Some(k) => Some(k@),
                None => None,
            },
            raw@,
        ),
{
    match key {
        Some(key) => match decode_key(key.key.as_str()) {
            Some(own) => same_bytes(own.as_slice(), raw),
            None => false,
        },
        None => false,
    }
}

/// Whether `key` is there and is no key.
pub open spec fn fallback_is_malformed(key: Option<OneTimeKey>) -> bool {
    match key {
        Some(key) => key_of(key@.key) is None,
        None => false,
    }
}

/// An account.
#[derive(Debug)]
pub struct Account {
    user_id: String,
    device_id: String,
    identity_keys: IdentityKeys,
    shared: bool,
    pool: OneTimeKeyPool,
    fallback_key: Option<OneTimeKey>,
    previous_fallback_key: Option<OneTimeKey>,
}

impl View for Account {
    type V = AccountView;

    closed spec fn view(&self) -> AccountView {
        AccountView {
            user_id: self.user_id@,
            device_id: self.device_id@,
            identity_keys: self.identity_keys@,
            shared: self.shared,
            pool: self.pool@,
            fallback_key: match self.fallback_key {
                Some(key) => Some(key@),
                None => None,
            },
            previous_fallback_key: match self.previous_fallback_key {
                Some(key) => Some(key@),
                None => None,
            },
        }
    }
}

impl Account {
    /// The account of a device that was just provisioned: not announced,
    /// with no one-time key, and room for `max_one_time_keys` of them.
    pub fn new(
        user_id: &str,
        device_id: &str,
        identity_keys: IdentityKeys,
        max_one_time_keys: usize,
    ) -> (r: Account)
        ensures
            r@.wf(),
            r@.user_id == user_id@,
            r@.device_id == device_id@,
            r@.identity_keys == identity_keys@,
            !r@.shared,
            r@.pool.keys.len() == 0,
            r@.pool.capacity == max_one_time_keys,
            r@.fallback_key is None,
            r@.previous_fallback_key is None,
    {
        Account {
            user_id: user_id.to_owned(),
            device_id: device_id.to_owned(),
            identity_keys,
            shared: false,
            pool: OneTimeKeyPool::new(max_one_time_keys),
            fallback_key: None,
            previous_fallback_key: None,
        }
    }

    /// The account with the one-time keys `stored`, as they were written
    /// down, or the refusal of the first that cannot join the others.
    pub fn restore(
        user_id: String,
        device_id: String,
        identity_keys: IdentityKeys,
        shared: bool,
        max_one_time_keys: usize,
        stored: &Vec<StoredKey>,
        fallback_key: Option<OneTimeKey>,
        previous_fallback_key: Option<OneTimeKey>,
    ) -> (r: Result<Account, KeyError>)
        ensures
            match r {
                Ok(account) => {
                    &&& account@.wf()
                    &&& !fallback_is_malformed(fallback_key)
                    &&& !fallback_is_malformed(previous_fallback_key)
                    &&& stored@.len() <= max_one_time_keys
                    &&& admitted(Seq::empty(), stored@.map_values(|k: StoredKey| k@)) matches Ok(
                        keys,
                    )
                    &&& account@ == (AccountView {
                        user_id: user_id@,
                        device_id: device_id@,
                        identity_keys: identity_keys@,
                        shared,
                        pool: PoolView { keys, capacity: max_one_time_keys as nat },
                        fallback_key: match fallback_key {
                            Some(key) => Some(key@),
                            None => None,
                        },
                        previous_fallback_key: match previous_fallback_key {
                            Some(key) => Some(key@),
                            None => None,
                        },
                    })
                },
                Err(error) => if fallback_is_malformed(fallback_key) || fallback_is_malformed(
                    previous_fallback_key,
                ) {
                    error == KeyError::Malformed
                } else if stored@.len() > max_one_time_keys {
                    error == KeyError::PoolFull
                } else {
                    admitted(Seq::empty(), stored@.map_values(|k: StoredKey| k@)) == Err::<
                        Seq<PooledKey>,
                        KeyError,
                    >(error)
                },
            },
    {
        match &fallback_key {
            Some(key) => {
                if decode_key(key.key.as_str()).is_none() {
                    return Err(KeyError::Malformed);
                }
            },
            None => {},
        }
        match &previous_fallback_key {
            Some(key) => {
                if decode_key(key.key.as_str()).is_none() {
                    return Err(KeyError::Malformed);
                }
            },
            None => {},
        }
        let mut pool = OneTimeKeyPool::new(max_one_time_keys);
        assert(pool@.keys =~= Seq::empty());
        match pool.take_in_stored(stored) {
            Ok(_) => Ok(
                Account {
                    user_id,
                    device_id,
                    identity_keys,
                    shared,
                    pool,
                    fallback_key,
                    previous_fallback_key,
                },
            ),
            Err(error) => Err(error),
        }
    }

    /// The one-time keys of the account as they are written down when the
    /// account is stored.
    pub fn stored_one_time_keys(&self) -> (r: Vec<StoredKey>)
        ensures
            r@.map_values(|k: StoredKey| k@) == records_of(self@.pool.keys),
    {
        self.pool.stored_keys()
    }

    /// The user that the device belongs to.
    pub fn user_id(&self) -> (r: &str)
        ensures
            r@ == self@.user_id,
    {
        self.user_id.as_str()
    }

    /// The device.
    pub fn device_id(&self) -> (r: &str)
        ensures
            r@ == self@.device_id,
    {
        self.device_id.as_str()
    }

    /// The identity keys of the device.
    pub fn identity_keys(&self) -> (r: &IdentityKeys)
        ensures
            r@ == self@.identity_keys,
    {
        &self.identity_keys
    }

    /// Whether the identity has been announced.
    pub fn shared(&self) -> (r: bool)
        ensures
            r == self@.shared,
    {
        self.shared
    }

    /// Records that the identity has been announced. There is no way back.
    pub fn mark_as_shared(&mut self)
        ensures
            final(self)@ == (AccountView { shared: true, ..old(self)@ }),
    {
        self.shared = true;
    }

    /// The fallback key of the account, where it has one.
    pub fn fallback_key(&self) -> (r: Option<&OneTimeKey>)
        ensures
            match r {
                Some(key) => self@.fallback_key == Some(key@),
                None => self@.fallback_key is None,
            },
    {
        self.fallback_key.as_ref()
    }

    /// The fallback key before the present one, where there was one.
    pub fn previous_fallback_key(&self) -> (r: Option<&OneTimeKey>)
        ensures
            match r {
                Some(key) => self@.previous_fallback_key == Some(key@),
                None => self@.previous_fallback_key is None,
            },
    {
        self.previous_fallback_key.as_ref()
    }

    /// Puts the freshly generated key `key` into the fallback slot. The key
    /// that was there goes on serving as the one before, and the one before
    /// that is forgotten. A key that is no key is refused, and the slot
    /// stays as it was.
    pub fn generate_fallback_key(&mut self, key: OneTimeKey) -> (r: Result<(), KeyError>)
        requires
            old(self)@.wf(),
        ensures
            final(self)@.wf(),
            match r {
                Ok(_) => {
                    &&& key_of(key@.key) is Some
                    &&& final(self)@ == (AccountView {
                        fallback_key: Some(key@),
                        previous_fallback_key: if old(self)@.fallback_key is Some {
                            old(self)@.fallback_key
                        } else {
                            old(self)@.previous_fallback_key
                        },
                        ..old(self)@
                    })
                },
                Err(error) => {
                    &&& key_of(key@.key) is None
                    &&& error == KeyError::Malformed
                    &&& final(self)@ == old(self)@
                },
            },
    {
        if decode_key(key.key.as_str()).is_none() {
            return Err(KeyError::Malformed);
        }
        match self.fallback_key.take() {
            Some(before) => {
                self.previous_fallback_key = Some(before);
            },
            None => {},
        }
        self.fallback_key = Some(key);
        Ok(())
    }

    /// How many one-time keys the account keeps at most.
    pub fn max_one_time_keys(&self) -> (r: usize)
        ensures
            r == self@.pool.capacity,
    {
        self.pool.capacity()
    }

    /// How many one-time keys the account holds.
    pub fn one_time_key_count(&self) -> (r: usize)
        ensures
            r == self@.pool.keys.len(),
    {
        self.pool.len()
    }

    /// Takes the freshly generated one-time keys `fresh` into the pool, to
    /// be published: all of them or none.
    ///
    /// The keys that the pool holds stay as they are. The batch is refused
    /// where it would not fit, or where one of its keys is no key or is in
    /// the pool already.
    pub fn generate_one_time_keys(&mut self, fresh: &Vec<OneTimeKey>) -> (r: Result<
        usize,
        KeyError,
    >)
        requires
            old(self)@.wf(),
        ensures
            final(self)@.wf(),
            match r {
                Ok(count) => {
                    &&& count == fresh@.len()
                    &&& old(self)@.pool.keys.len() + fresh@.len() <= old(self)@.pool.capacity
                    &&& admitted(
                        old(self)@.pool.keys,
                        as_fresh(fresh@.map_values(|k: OneTimeKey| k@)),
                    )
                        matches Ok(keys)
                    &&& final(self)@ == (AccountView {
                        pool: PoolView { keys, capacity: old(self)@.pool.capacity },
                        ..old(self)@
                    })
                    &&& keys.len() == old(self)@.pool.keys.len() + fresh@.len()
                    &&& keys.take(old(self)@.pool.keys.len() as int) == old(self)@.pool.keys
                },
                Err(error) => {
                    &&& final(self)@ == old(self)@
                    &&& if old(self)@.pool.keys.len() + fresh@.len() > old(self)@.pool.capacity {
                        error == KeyError::PoolFull
                    } else {
                        admitted(
                        old(self)@.pool.keys,
                        as_fresh(fresh@.map_values(|k: OneTimeKey| k@)),
                    )
                            == Err::<Seq<PooledKey>, KeyError>(error)
                    }
                },
            },
    {
        self.pool.take_in(fresh)
    }

    /// The keys among `listed` that the account does not hold yet, in their
    /// order: what was generated when the backend lists the keys that wait
    /// to be published. The account is not changed.
    pub fn unknown_one_time_keys(&self, listed: &Vec<OneTimeKey>) -> (r: Vec<OneTimeKey>)
        ensures
            r@.map_values(|k: OneTimeKey| k@) == unknown(
                self@.pool.keys,
                listed@.map_values(|k: OneTimeKey| k@),
            ),
    {
        self.pool.unknown_among(listed)
    }

    /// The one-time keys that wait to be published. The account is not
    /// changed.
    pub fn one_time_keys(&self) -> (r: OneTimeKeys)
        ensures
            r@ == unpublished(self@.pool.keys),
    {
        OneTimeKeys { curve25519: self.pool.unpublished_keys() }
    }

    /// Records that the one-time keys have been published: none waits to be
    /// published any more, and each stays in the pool until a handshake
    /// consumes it.
    pub fn mark_keys_as_published(&mut self)
        requires
            old(self)@.wf(),
        ensures
            final(self)@.wf(),
            final(self)@ == (AccountView {
                pool: PoolView {
                    keys: all_published(old(self)@.pool.keys),
                    capacity: old(self)@.pool.capacity,
                },
                ..old(self)@
            }),
            unpublished(final(self)@.pool.keys) == Seq::<OneTimeKeyView>::empty(),
    {
        self.pool.mark_published();
    }

    /// Where the pool holds the one-time key that a pre-key message names,
    /// or why the message cannot start a session. The account is not
    /// changed.
    pub fn locate_one_time_key(&self, identity_key: &str, message: &str) -> (r: Result<
        Option<usize>,
        SessionCreationError,
    >)
        requires
            self@.wf(),
        ensures
            match r {
                Ok(Some(at)) => self@.located(identity_key@, message@) == Ok::<
                    Option<int>,
                    SessionCreationError,
                >(Some(at as int)) && at < self@.pool.keys.len(),
                Ok(None) => self@.located(identity_key@, message@) == Ok::<
                    Option<int>,
                    SessionCreationError,
                >(None),
                Err(error) => self@.located(identity_key@, message@) == Err::<
                    Option<int>,
                    SessionCreationError,
                >(error),
            },
    {
        let key = match decode_key(identity_key) {
            Some(key) => key,
            None => {
                return Err(SessionCreationError::MalformedHandshake);
            },
        };
        let handshake = match Handshake::read(message) {
            Some(handshake) => handshake,
            None => {
                return Err(SessionCreationError::MalformedHandshake);
            },
        };
        if !same_bytes(handshake.identity_key.as_slice(), key.as_slice()) {
            return Err(SessionCreationError::IdentityMismatch);
        }
        match self.pool.find(handshake.one_time_key.as_slice()) {
            Some(at) => Ok(Some(at)),
            None => {
                if key_is(&self.fallback_key, handshake.one_time_key.as_slice()) || key_is(
                    &self.previous_fallback_key,
                    handshake.one_time_key.as_slice(),
                ) {
                    Ok(None)
                } else {
                    Err(SessionCreationError::UnknownOneTimeKey)
                }
            },
        }
    }

    /// Sets up the session that the pre-key message `message` of the device
    /// with the identity key `identity_key` asks for, and consumes the
    /// one-time key that the message names.
    ///
    /// `outcome` is what the ratchet made of the handshake: the id of the
    /// session, or its failure. A key leaves the pool if and only if the
    /// session comes to be on a key of the pool: where the message finds no
    /// key, or the ratchet fails, the account is as it was, and the
    /// fallback key serves without being consumed.
    pub fn create_inbound_session(
        &mut self,
        identity_key: &str,
        message: &str,
        outcome: Result<String, CryptoFailure>,
        now: u64,
    ) -> (r: Result<Session, SessionCreationError>)
        requires
            old(self)@.wf(),
        ensures
            final(self)@.wf(),
            match (old(self)@.located(identity_key@, message@), outcome) {
                (Ok(found), Ok(session_id)) => {
                    &&& r matches Ok(session)
                    &&& session@ == session_from(
                        session_id@,
                        identity_key@,
                        Some(message@),
                        now,
                    )
                    &&& final(self)@ == match found {
                        Some(at) => old(self)@.consuming(at),
                        None => old(self)@,
                    }
                },
                (Ok(_), Err(failure)) => {
                    &&& r matches Err(error)
                    &&& error == creation_error_of(failure)
                    &&& final(self)@ == old(self)@
                },
                (Err(refusal), _) => {
                    &&& r matches Err(error)
                    &&& error == refusal
                    &&& final(self)@ == old(self)@
                },
            },
    {
        let at = match self.locate_one_time_key(identity_key, message) {
            Ok(at) => at,
            Err(error) => {
                return Err(error);
            },
        };
        match outcome {
            Ok(session_id) => {
                match at {
                    Some(at) => {
                        let _ = self.pool.consume(at);
                    },
                    None => {},
                }
                Ok(
                    Session::new(
                        session_id,
                        identity_key.to_owned(),
                        Handshake::read(message),
                        now,
                    ),
                )
            },
            Err(failure) => Err(SessionCreationError::from_failure(failure)),
        }
    }

    /// Sets up a session towards the device with the identity key
    /// `identity_key`, on its one-time key `one_time_key`.
    ///
    /// `signature_valid` says whether the signature of the one-time key,
    /// where it has one, verified; `outcome` is what the ratchet made of the
    /// keys: the id of the session, or its failure. The account is not
    /// changed.
    pub fn create_outbound_session(
        &self,
        identity_key: &str,
        one_time_key: &SignedKey,
        signature_valid: bool,
        outcome: Result<String, CryptoFailure>,
        now: u64,
    ) -> (r: Result<Session, KeyError>)
        ensures
            match (
                key_fault(
                    identity_key@,
                    one_time_key.key@,
                    one_time_key.signature is Some,
                    signature_valid,
                ),
                outcome,
            ) {
                (Some(fault), _) => {
                    &&& r matches Err(error)
                    &&& error == fault
                },
                (None, Err(failure)) => {
                    &&& r matches Err(error)
                    &&& error == key_error_of(failure)
                },
                (None, Ok(session_id)) => {
                    &&& r matches Ok(session)
                    &&& session@ == session_from(session_id@, identity_key@, None, now)
                },
            },
    {
        if decode_key(identity_key).is_none() || decode_key(one_time_key.key.as_str()).is_none() {
            return Err(KeyError::Malformed);
        }
        if one_time_key.signature.is_some() && !signature_valid {
            return Err(KeyError::InvalidSignature);
        }
        match outcome {
            Ok(session_id) => Ok(Session::new(session_id, identity_key.to_owned(), None, now)),
            Err(failure) => Err(KeyError::from_failure(failure)),
        }
    }

    /// Sets up the two sides of a fresh group session for the room
    /// `room_id`: they have one id, `session_id`, which the ratchet gave,
    /// and the receiving side knows the session from its first message on.
    /// Settings for another algorithm than the group ratchet are refused.
    /// The account is not changed.
    pub fn create_group_session_pair(
        &self,
        room_id: &str,
        settings: EncryptionSettings,
        session_id: String,
        now: u64,
    ) -> (r: Result<(OutboundGroupSession, InboundGroupSession), SessionCreationError>)
        ensures
            match r {
                Ok((outbound, inbound)) => {
                    &&& settings.algorithm == EventEncryptionAlgorithm::MegolmV1AesSha2
                    &&& outbound@.wf()
                    &&& outbound@.session_id == session_id@
                    &&& outbound@.room_id == room_id@
                    &&& outbound@.device_id == self@.device_id
                    &&& outbound@.sender_key == self@.identity_keys.curve25519
                    &&& outbound@.settings == settings
                    &&& outbound@.creation_time == now
                    &&& outbound@.message_index == 0
                    &&& !outbound@.shared
                    &&& !outbound@.invalidated
                    &&& outbound@.ledger.sent.len() == 0
                    &&& outbound@.ledger.pending.len() == 0
                    &&& inbound@ == (InboundView {
                        session_id: session_id@,
                        room_id: room_id@,
                        sender_key: self@.identity_keys.curve25519,
                        signing_key: Some(self@.identity_keys.ed25519),
                        first_known_index: 0,
                        history_visibility: Some(settings.history_visibility),
                        imported: false,
                    })
                },
                Err(error) => settings.algorithm != EventEncryptionAlgorithm::MegolmV1AesSha2
                    && error == SessionCreationError::UnsupportedAlgorithm,
            },
    {
        match settings.algorithm {
            EventEncryptionAlgorithm::MegolmV1AesSha2 => {},
            _ => {
                return Err(SessionCreationError::UnsupportedAlgorithm);
            },
        }
        let inbound = InboundGroupSession::restore(
            session_id.clone(),
            room_id.to_owned(),
            self.identity_keys.curve25519.clone(),
            Some(self.identity_keys.ed25519.clone()),
            0,
            Some(settings.history_visibility),
            false,
        );
        let outbound = OutboundGroupSession::new(
            session_id,
            room_id.to_owned(),
            self.device_id.clone(),
            self.identity_keys.curve25519.clone(),
            settings,
            now,
        );
        Ok((outbound, inbound))
    }
}

} // verus!
