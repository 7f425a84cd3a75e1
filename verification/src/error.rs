//! Failures of the engine, and how a failure of the backend maps onto them.

use vstd::prelude::*;

verus! {

/// What the cryptographic backend reports when a primitive fails.
#[derive(Clone, Copy, Debug, PartialEq, Eq, Structural)]
pub enum CryptoFailure {
    /// The key does not fit the material it is used on.
    BadAccountKey,
    /// The message could not be decoded.
    BadMessageFormat,
    /// The message names a key that the account does not hold.
    BadMessageKeyId,
    /// The message failed authentication.
    BadMessageMac,
    /// The message has a version that is not supported.
    BadMessageVersion,
    /// The session key cannot start a group session.
    BadSessionKey,
    /// The input is not base64.
    InvalidBase64,
    /// Too little entropy was supplied.
    NotEnoughRandom,
    /// An output buffer was too small.
    OutputBufferTooSmall,
    /// The message index lies before the earliest known ratchet state.
    UnknownMessageIndex,
    /// Any other failure.
    Unknown,
}

/// Key material that cannot be used.
#[derive(Clone, Copy, Debug, PartialEq, Eq, Structural)]
pub enum KeyError {
    /// The key is not the unpadded base64 form of 32 bytes.
    Malformed,
    /// The key carries a signature that does not verify.
    InvalidSignature,
    /// The key is already part of the pool, under this or another id.
    Duplicate,
    /// The pool cannot take that many keys.
    PoolFull,
    /// The backend refused the key material.
    Rejected(CryptoFailure),
}

/// A handshake that did not lead to a session.
#[derive(Clone, Copy, Debug, PartialEq, Eq, Structural)]
pub enum SessionCreationError {
    /// The handshake payload, or the key it is claimed to come from, cannot be read.
    MalformedHandshake,
    /// The handshake names another identity key than the one it is claimed to come from.
    IdentityMismatch,
    /// The handshake names a one-time key that the account does not hold:
    /// it never did, or the key was consumed before.
    UnknownOneTimeKey,
    /// The key of a group session cannot be read, or the ratchet that it
    /// set up does not stand where the key says.
    MalformedSessionKey,
    /// The settings or the key ask for an algorithm that has no group ratchet.
    UnsupportedAlgorithm,
    /// The backend refused the handshake or the key material.
    Rejected(CryptoFailure),
}

/// A message that could not be decrypted.
#[derive(Clone, Copy, Debug, PartialEq, Eq, Structural)]
pub enum DecryptionError {
    /// The message failed authentication.
    BadMac,
    /// The message index lies before the first index that the session knows.
    UnknownMessageIndex,
    /// The ciphertext cannot be decoded.
    Malformed,
    /// The event is encrypted with another algorithm than the session's.
    UnsupportedAlgorithm,
    /// The event belongs to another session.
    MismatchedSession,
    /// The plaintext is not an event: a JSON object with a string `type`.
    UnknownFraming,
    /// Any other failure of the backend.
    Backend(CryptoFailure),
}

/// Persisted state that cannot be restored.
#[derive(Clone, Copy, Debug, PartialEq, Eq, Structural)]
pub enum PickleError {
    /// The pickle was made under another key or mode.
    WrongKey,
    /// The pickle is damaged, or was written in a form that is not understood.
    Corrupt,
    /// The record next to the pickle contradicts itself or the restored ratchet.
    Inconsistent,
    /// A stored elapsed time reaches further back than the clock can go.
    ClockUnderflow,
}

/// The decryption error that stands for a failure of the backend.
pub open spec fn decryption_error_of(failure: CryptoFailure) -> DecryptionError {
    match failure {
        CryptoFailure::BadMessageMac => DecryptionError::BadMac,
        CryptoFailure::UnknownMessageIndex => DecryptionError::UnknownMessageIndex,
        CryptoFailure::BadMessageFormat => DecryptionError::Malformed,
        CryptoFailure::BadMessageVersion => DecryptionError::Malformed,
        CryptoFailure::InvalidBase64 => DecryptionError::Malformed,
        other => DecryptionError::Backend(other),
    }
}

/// The session creation error that stands for a failure of the backend.
pub open spec fn creation_error_of(failure: CryptoFailure) -> SessionCreationError {
    match failure {
        CryptoFailure::BadMessageKeyId => SessionCreationError::UnknownOneTimeKey,
        CryptoFailure::BadMessageFormat => SessionCreationError::MalformedHandshake,
        CryptoFailure::BadMessageVersion => SessionCreationError::MalformedHandshake,
        CryptoFailure::InvalidBase64 => SessionCreationError::MalformedHandshake,
        other => SessionCreationError::Rejected(other),
    }
}

/// The key error that stands for a failure of the backend.
pub open spec fn key_error_of(failure: CryptoFailure) -> KeyError {
    match failure {
        CryptoFailure::InvalidBase64 => KeyError::Malformed,
        other => KeyError::Rejected(other),
    }
}

/// The pickle error that stands for a failure of the backend.
pub open spec fn pickle_error_of(failure: CryptoFailure) -> PickleError {
    match failure {
        CryptoFailure::BadAccountKey => PickleError::WrongKey,
        _ => PickleError::Corrupt,
    }
}

impl DecryptionError {
    /// Classifies a failure of the backend during decryption.
    pub fn from_failure(failure: CryptoFailure) -> (e: DecryptionError)
        ensures
            e == decryption_error_of(failure),
    {
        match failure {
            CryptoFailure::BadMessageMac => DecryptionError::BadMac,
            CryptoFailure::UnknownMessageIndex => DecryptionError::UnknownMessageIndex,
            CryptoFailure::BadMessageFormat => DecryptionError::Malformed,
            CryptoFailure::BadMessageVersion => DecryptionError::Malformed,
            CryptoFailure::InvalidBase64 => DecryptionError::Malformed,
            other => DecryptionError::Backend(other),
        }
    }
}

impl SessionCreationError {
    /// Classifies a failure of the backend while a session was set up.
    pub fn from_failure(failure: CryptoFailure) -> (e: SessionCreationError)
        ensures
            e == creation_error_of(failure),
    {
        match failure {
            CryptoFailure::BadMessageKeyId => SessionCreationError::UnknownOneTimeKey,
            CryptoFailure::BadMessageFormat => SessionCreationError::MalformedHandshake,
            CryptoFailure::BadMessageVersion => SessionCreationError::MalformedHandshake,
            CryptoFailure::InvalidBase64 => SessionCreationError::MalformedHandshake,
            other => SessionCreationError::Rejected(other),
        }
    }
}

impl KeyError {
    /// Classifies a failure of the backend on key material.
    pub fn from_failure(failure: CryptoFailure) -> (e: KeyError)
        ensures
            e == key_error_of(failure),
    {
        match failure {
            CryptoFailure::InvalidBase64 => KeyError::Malformed,
            other => KeyError::Rejected(other),
        }
    }
}

impl PickleError {
    /// Classifies a failure of the backend while a pickle was read.
    pub fn from_failure(failure: CryptoFailure) -> (e: PickleError)
        ensures
            e == pickle_error_of(failure),
    {
        match failure {
            CryptoFailure::BadAccountKey => PickleError::WrongKey,
            _ => PickleError::Corrupt,
        }
    }
}

} // verus!
