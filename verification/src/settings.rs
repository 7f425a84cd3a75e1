//! How the group session of a room is to be run.

use vstd::prelude::*;

verus! {

/// A week in milliseconds: how long a group session is used where the room
/// sets no period.
pub const ROTATION_PERIOD_MS: u64 = 604_800_000;

/// How many messages a group session encrypts where the room sets no number.
pub const ROTATION_MESSAGES: u64 = 100;

/// An hour in milliseconds: no room can ask for a shorter period than this.
pub const SHORTEST_ROTATION_PERIOD_MS: u64 = 3_600_000;

/// The algorithm that a room is encrypted with.
#[derive(Clone, Copy, Debug, PartialEq, Eq, Structural)]
pub enum EventEncryptionAlgorithm {
    /// The pairwise ratchet.
    OlmV1Curve25519AesSha2,
    /// The group ratchet.
    MegolmV1AesSha2,
    /// An algorithm that the engine does not know.
    Unknown,
}

/// Who may read the history of a room.
#[derive(Clone, Copy, Debug, PartialEq, Eq, Structural)]
pub enum HistoryVisibility {
    Invited,
    Joined,
    Shared,
    WorldReadable,
}

/// The settings of a group session.
#[derive(Clone, Copy, Debug, PartialEq, Eq, Structural)]
pub struct EncryptionSettings {
    /// The algorithm of the room.
    pub algorithm: EventEncryptionAlgorithm,
    /// The age, in milliseconds, at which the session is to be replaced.
    pub rotation_period_ms: u64,
    /// The number of messages after which the session is to be replaced.
    pub rotation_period_msgs: u64,
    /// Who may read the history of the room.
    pub history_visibility: HistoryVisibility,
}

/// The settings of a room that asks for nothing in particular.
pub open spec fn default_settings() -> EncryptionSettings {
    EncryptionSettings {
        algorithm: EventEncryptionAlgorithm::MegolmV1AesSha2,
        rotation_period_ms: ROTATION_PERIOD_MS,
        rotation_period_msgs: ROTATION_MESSAGES,
        history_visibility: HistoryVisibility::Shared,
    }
}

impl EncryptionSettings {
    /// The settings for what a room asks for; where it names no period or no
    /// number of messages, the usual one holds.
    pub fn new(
        algorithm: EventEncryptionAlgorithm,
        rotation_period_ms: Option<u64>,
        rotation_period_msgs: Option<u64>,
        history_visibility: HistoryVisibility,
    ) -> (r: EncryptionSettings)
        ensures
            r.algorithm == algorithm,
            r.history_visibility == history_visibility,
            r.rotation_period_ms == match rotation_period_ms {
                Some(period) => period,
                None => ROTATION_PERIOD_MS,
            },
            r.rotation_period_msgs == match rotation_period_msgs {
                Some(messages) => messages,
                None => ROTATION_MESSAGES,
            },
    {
        EncryptionSettings {
            algorithm,
            rotation_period_ms: match rotation_period_ms {
                Some(period) => period,
                None => ROTATION_PERIOD_MS,
            },
            rotation_period_msgs: match rotation_period_msgs {
                Some(messages) => messages,
                None => ROTATION_MESSAGES,
            },
            history_visibility,
        }
    }

    /// The age at which a session under these settings is replaced: the
    /// period of the settings, but no less than an hour.
    pub open spec fn effective_period(self) -> u64 {
        if self.rotation_period_ms >= SHORTEST_ROTATION_PERIOD_MS {
            self.rotation_period_ms
        } else {
            SHORTEST_ROTATION_PERIOD_MS
        }
    }
}

impl Default for EncryptionSettings {
    fn default() -> (r: EncryptionSettings)
        ensures
            r == default_settings(),
    {
        EncryptionSettings {
            algorithm: EventEncryptionAlgorithm::MegolmV1AesSha2,
            rotation_period_ms: ROTATION_PERIOD_MS,
            rotation_period_msgs: ROTATION_MESSAGES,
            history_visibility: HistoryVisibility::Shared,
        }
    }
}

} // verus!
