//! Session engine for end-to-end encrypted messaging.
//!
//! The engine keeps the books of one device: its identity and one-time
//! prekeys, its pairwise sessions with other devices, and the group sessions
//! of its rooms. The ratchets themselves run in a cryptographic backend that
//! the caller drives; every operation here takes what the backend produced as
//! plain values, decides what it means for the device, and records it.
//!
//! The timeline of a room, which shows what was decrypted and tries again
//! what was not, is kept the same way: its items are plain values, and what
//! is written where is decided here.

pub mod account;
pub mod base64;
pub mod clock;
pub mod error;
pub mod events;
pub mod group_key;
pub mod inbound;
pub mod keys;
pub mod message;
pub mod outbound;
pub mod pickle;
pub mod pool;
pub mod replay;
pub mod room_list;
pub mod session;
pub mod settings;
pub mod share;
pub mod text;
pub mod timeline;
pub mod timeline_items;
pub mod timeline_state;
pub mod wire;

pub use account::Account;
pub use error::{CryptoFailure, DecryptionError, KeyError, PickleError, SessionCreationError};
pub use events::{EncryptedContent, ExportedRoomKey, GroupPayload};
pub use inbound::InboundGroupSession;
pub use keys::{IdentityKeys, OneTimeKey, OneTimeKeys, SignedKey};
pub use message::OlmMessage;
pub use outbound::OutboundGroupSession;
pub use replay::{MessageHashLog, OlmMessageHash};
pub use session::Session;
pub use settings::EncryptionSettings;
pub use share::{ShareInfo, ShareState};
