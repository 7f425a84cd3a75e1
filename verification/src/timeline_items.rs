//! The items of a room's timeline, as far as the engine's callers decide
//! on them.

use vstd::prelude::*;

verus! {

/// A copy of a text that may be missing.
pub fn copy_text(text: &Option<String>) -> (r: Option<String>)
    ensures
        r == *text,
{
    match text {
        Some(t) => Some(t.clone()),
        None => None,
    }
}

/// Whether two texts that may be missing read the same.
pub open spec fn same_reading(a: Option<String>, b: Option<String>) -> bool {
    match (a, b) {
        (Some(x), Some(y)) => x@ == y@,
        (None, None) => true,
        _ => false,
    }
}

/// How a user shows in a room.
#[derive(Debug)]
pub struct Profile {
    pub display_name: Option<String>,
    pub display_name_ambiguous: bool,
    pub avatar_url: Option<String>,
}

impl Profile {
    /// Whether two profiles read the same.
    pub open spec fn alike(self, other: Profile) -> bool {
        &&& same_reading(self.display_name, other.display_name)
        &&& self.display_name_ambiguous == other.display_name_ambiguous
        &&& same_reading(self.avatar_url, other.avatar_url)
    }

    /// A copy of the profile.
    pub fn duplicate(&self) -> (r: Profile)
        ensures
            r == *self,
    {
        Profile {
            display_name: copy_text(&self.display_name),
            display_name_ambiguous: self.display_name_ambiguous,
            avatar_url: copy_text(&self.avatar_url),
        }
    }
}

/// What is known of the profile of a sender.
#[derive(Debug)]
pub enum SenderProfile {
    /// The profile cannot be had.
    Unavailable,
    /// The profile is being fetched.
    Pending,
    /// The profile.
    Ready(Profile),
    /// Fetching the profile failed.
    Error(String),
}

impl SenderProfile {
    /// A copy of the state.
    pub fn duplicate(&self) -> (r: SenderProfile)
        ensures
            r == *self,
    {
        match self {
            SenderProfile::Unavailable => SenderProfile::Unavailable,
            SenderProfile::Pending => SenderProfile::Pending,
            SenderProfile::Ready(profile) => SenderProfile::Ready(profile.duplicate()),
            SenderProfile::Error(error) => SenderProfile::Error(error.clone()),
        }
    }
}

/// An event that could not be decrypted, by the ratchet it was made with.
#[derive(Debug)]
pub enum EncryptedMessage {
    /// A message of a pairwise session.
    OlmV1Curve25519AesSha2,
    /// A message of the group session with this id.
    MegolmV1AesSha2 { session_id: String },
    /// A message of an algorithm that is not known.
    Unknown,
}

impl EncryptedMessage {
    /// A copy of the message.
    pub fn duplicate(&self) -> (r: EncryptedMessage)
        ensures
            r == *self,
    {
        match self {
            EncryptedMessage::OlmV1Curve25519AesSha2 => EncryptedMessage::OlmV1Curve25519AesSha2,
            EncryptedMessage::MegolmV1AesSha2 { session_id } => EncryptedMessage::MegolmV1AesSha2 {
                session_id: session_id.clone(),
            },
            EncryptedMessage::Unknown => EncryptedMessage::Unknown,
        }
    }
}

/// Why the timeline could not do what it was asked.
#[derive(Clone, Copy, Debug, PartialEq, Eq, Structural)]
pub enum TimelineError {
    /// The timeline has no remote event with the id.
    RemoteEventNotInTimeline,
    /// The event is of a kind that cannot be replied to.
    UnsupportedEvent,
}

/// The event that a message replies to.
#[derive(Debug)]
pub struct RepliedToEvent {
    pub body: String,
    pub sender: String,
    pub sender_profile: SenderProfile,
}

/// What is known of the event that a message replies to.
#[derive(Debug)]
pub enum ReplyDetails {
    /// The event cannot be had.
    Unavailable,
    /// The event is being fetched.
    Pending,
    /// The event.
    Ready(RepliedToEvent),
    /// The event is of the wrong kind.
    Error(TimelineError),
    /// Fetching the event failed.
    FetchFailed(String),
}

impl ReplyDetails {
    /// A copy of the details.
    pub fn duplicate(&self) -> (r: ReplyDetails)
        ensures
            r == *self,
    {
        match self {
            ReplyDetails::Unavailable => ReplyDetails::Unavailable,
            ReplyDetails::Pending => ReplyDetails::Pending,
            ReplyDetails::Ready(event) => ReplyDetails::Ready(
                RepliedToEvent {
                    body: event.body.clone(),
                    sender: event.sender.clone(),
                    sender_profile: event.sender_profile.duplicate(),
                },
            ),
            ReplyDetails::Error(error) => ReplyDetails::Error(*error),
            ReplyDetails::FetchFailed(error) => ReplyDetails::FetchFailed(error.clone()),
        }
    }
}

/// The reply that a message makes.
#[derive(Debug)]
pub struct InReplyTo {
    pub event_id: String,
    pub details: ReplyDetails,
}

/// A message.
#[derive(Debug)]
pub struct Message {
    pub body: String,
    pub in_reply_to: Option<InReplyTo>,
}

impl Message {
    /// A copy of the message.
    pub fn duplicate(&self) -> (r: Message)
        ensures
            r == *self,
    {
        Message {
            body: self.body.clone(),
            in_reply_to: match &self.in_reply_to {
                Some(reply) => Some(
                    InReplyTo {
                        event_id: reply.event_id.clone(),
                        details: reply.details.duplicate(),
                    },
                ),
                None => None,
            },
        }
    }
}

/// What an event holds.
#[derive(Debug)]
pub enum Content {
    /// A message.
    Message(Message),
    /// An event that could not be decrypted.
    UnableToDecrypt(EncryptedMessage),
    /// Anything else, named by its kind.
    Other(String),
}

impl Content {
    /// A copy of the content.
    pub fn duplicate(&self) -> (r: Content)
        ensures
            r == *self,
    {
        match self {
            Content::Message(message) => Content::Message(message.duplicate()),
            Content::UnableToDecrypt(message) => Content::UnableToDecrypt(message.duplicate()),
            Content::Other(kind) => Content::Other(kind.clone()),
        }
    }
}

/// How far the sending of a local event has come.
#[derive(Debug)]
pub enum EventSendState {
    /// The event has not been sent yet.
    NotSentYet,
    /// Sending the event failed.
    SendingFailed { error: String },
    /// The event was sent and has this id.
    Sent { event_id: String },
}

/// An event that this device is sending.
#[derive(Debug)]
pub struct LocalEvent {
    pub transaction_id: String,
    pub send_state: EventSendState,
    pub sender: String,
    pub sender_profile: SenderProfile,
    pub content: Content,
}

/// An event that came from the server.
#[derive(Debug)]
pub struct RemoteEvent {
    pub event_id: String,
    pub transaction_id: Option<String>,
    pub sender: String,
    pub sender_profile: SenderProfile,
    pub content: Content,
    pub is_own: bool,
    /// The event as it came, to be handed to whoever decrypts it.
    pub raw: String,
}

impl RemoteEvent {
    /// A copy of the event.
    pub fn duplicate(&self) -> (r: RemoteEvent)
        ensures
            r == *self,
    {
        RemoteEvent {
            event_id: self.event_id.clone(),
            transaction_id: copy_text(&self.transaction_id),
            sender: self.sender.clone(),
            sender_profile: self.sender_profile.duplicate(),
            content: self.content.duplicate(),
            is_own: self.is_own,
            raw: self.raw.clone(),
        }
    }
}

/// An item of the timeline.
#[derive(Debug)]
pub enum TimelineItem {
    /// An event that this device is sending.
    Local(LocalEvent),
    /// An event that came from the server.
    Remote(RemoteEvent),
    /// The mark that earlier events are being loaded.
    LoadingIndicator,
    /// The mark that the timeline starts here.
    TimelineStart,
    /// Another mark between events, named by its kind.
    Virtual(String),
}

impl TimelineItem {
    /// Whether the item is an event.
    pub open spec fn is_event(self) -> bool {
        self is Local || self is Remote
    }

    /// The id of the event, where the item is an event that has one.
    pub open spec fn event_id(self) -> Option<Seq<char>> {
        match self {
            TimelineItem::Remote(event) => Some(event.event_id@),
            TimelineItem::Local(event) => match event.send_state {
                EventSendState::Sent { event_id } => Some(event_id@),
                _ => None,
            },
            _ => None,
        }
    }

    /// The id of the transaction that sent the event, where the item is an
    /// event that has one.
    pub open spec fn transaction_id(self) -> Option<Seq<char>> {
        match self {
            TimelineItem::Local(event) => Some(event.transaction_id@),
            TimelineItem::Remote(event) => match event.transaction_id {
                Some(id) => Some(id@),
                None => None,
            },
            _ => None,
        }
    }

    /// What is known of the sender's profile, where the item is an event.
    pub open spec fn sender_profile(self) -> Option<SenderProfile> {
        match self {
            TimelineItem::Local(event) => Some(event.sender_profile),
            TimelineItem::Remote(event) => Some(event.sender_profile),
            _ => None,
        }
    }

    /// The content, where the item is an event.
    pub open spec fn content(self) -> Option<Content> {
        match self {
            TimelineItem::Local(event) => Some(event.content),
            TimelineItem::Remote(event) => Some(event.content),
            _ => None,
        }
    }

    /// The sender, where the item is an event.
    pub open spec fn sender(self) -> Option<String> {
        match self {
            TimelineItem::Local(event) => Some(event.sender),
            TimelineItem::Remote(event) => Some(event.sender),
            _ => None,
        }
    }

    /// The item with `profile` for the profile of its sender; an item that
    /// is no event stays as it is.
    pub open spec fn with_sender_profile(self, profile: SenderProfile) -> TimelineItem {
        match self {
            TimelineItem::Local(event) => TimelineItem::Local(
                LocalEvent { sender_profile: profile, ..event },
            ),
            TimelineItem::Remote(event) => TimelineItem::Remote(
                RemoteEvent { sender_profile: profile, ..event },
            ),
            other => other,
        }
    }

    /// A copy of the item.
    pub fn duplicate(&self) -> (r: TimelineItem)
        ensures
            r == *self,
    {
        match self {
            TimelineItem::Local(event) => TimelineItem::Local(
                LocalEvent {
                    transaction_id: event.transaction_id.clone(),
                    send_state: match &event.send_state {
                        EventSendState::NotSentYet => EventSendState::NotSentYet,
                        EventSendState::SendingFailed { error } => EventSendState::SendingFailed {
                            error: error.clone(),
                        },
                        EventSendState::Sent { event_id } => EventSendState::Sent {
                            event_id: event_id.clone(),
                        },
                    },
                    sender: event.sender.clone(),
                    sender_profile: event.sender_profile.duplicate(),
                    content: event.content.duplicate(),
                },
            ),
            TimelineItem::Remote(event) => TimelineItem::Remote(event.duplicate()),
            TimelineItem::LoadingIndicator => TimelineItem::LoadingIndicator,
            TimelineItem::TimelineStart => TimelineItem::TimelineStart,
            TimelineItem::Virtual(kind) => TimelineItem::Virtual(kind.clone()),
        }
    }

    /// The same item with `profile` for the profile of its sender.
    pub fn into_with_sender_profile(self, profile: SenderProfile) -> (r: TimelineItem)
        ensures
            r == self.with_sender_profile(profile),
    {
        match self {
            TimelineItem::Local(event) => TimelineItem::Local(
                LocalEvent {
                    transaction_id: event.transaction_id,
                    send_state: event.send_state,
                    sender: event.sender,
                    sender_profile: profile,
                    content: event.content,
                },
            ),
            TimelineItem::Remote(event) => TimelineItem::Remote(
                RemoteEvent {
                    event_id: event.event_id,
                    transaction_id: event.transaction_id,
                    sender: event.sender,
                    sender_profile: profile,
                    content: event.content,
                    is_own: event.is_own,
                    raw: event.raw,
                },
            ),
            other => other,
        }
    }
}

} // verus!
