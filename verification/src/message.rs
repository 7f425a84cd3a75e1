//! The messages of a pairwise session.
//!
//! A message is one of two kinds, and the kind travels with it: a pre-key
//! message carries the handshake along and can start a session at the
//! receiver, a normal message needs the session to exist.

use vstd::prelude::*;

verus! {

/// The number that marks a pre-key message on the wire.
pub const PRE_KEY_TYPE: usize = 0;

/// The number that marks a normal message on the wire.
pub const NORMAL_TYPE: usize = 1;

/// A message of a pairwise session with its kind.
#[derive(Debug)]
pub enum OlmMessage {
    /// A message that carries the handshake.
    PreKey(String),
    /// A message on an established session.
    Normal(String),
}

/// The model of a message: its kind and its body.
pub enum OlmMessageView {
    PreKey(Seq<char>),
    Normal(Seq<char>),
}

impl View for OlmMessage {
    type V = OlmMessageView;

    open spec fn view(&self) -> OlmMessageView {
        match self {
            OlmMessage::PreKey(body) => OlmMessageView::PreKey(body@),
            OlmMessage::Normal(body) => OlmMessageView::Normal(body@),
        }
    }
}

/// A message type that is neither of the two kinds.
#[derive(Clone, Copy, Debug, PartialEq, Eq, Structural)]
pub struct UnknownMessageType;

/// The message with the type number `message_type` and the body `body`.
pub open spec fn tagged(message_type: usize, body: Seq<char>) -> Option<OlmMessageView> {
    if message_type == PRE_KEY_TYPE {
        Some(OlmMessageView::PreKey(body))
    } else if message_type == NORMAL_TYPE {
        Some(OlmMessageView::Normal(body))
    } else {
        None
    }
}

impl OlmMessageView {
    /// The type number of the message.
    pub open spec fn message_type(self) -> usize {
        match self {
            OlmMessageView::PreKey(_) => PRE_KEY_TYPE,
            OlmMessageView::Normal(_) => NORMAL_TYPE,
        }
    }

    /// The body of the message.
    pub open spec fn body(self) -> Seq<char> {
        match self {
            OlmMessageView::PreKey(body) => body,
            OlmMessageView::Normal(body) => body,
        }
    }
}

/// Taking a message apart and putting it together again gives the message:
/// its kind survives the wire.
pub proof fn lemma_kind_survives_the_wire(message: OlmMessageView)
    ensures
        tagged(message.message_type(), message.body()) == Some(message),
{
}

/// What comes off the wire as a message is put back on it unchanged.
pub proof fn lemma_wire_form_is_kept(message_type: usize, body: Seq<char>)
    requires
        tagged(message_type, body) is Some,
    ensures
        tagged(message_type, body).unwrap().message_type() == message_type,
        tagged(message_type, body).unwrap().body() == body,
{
}

impl OlmMessage {
    /// The message with the given type number and body.
    pub fn from_type_and_ciphertext(message_type: usize, ciphertext: String) -> (r: Result<
        OlmMessage,
        UnknownMessageType,
    >)
        ensures
            match r {
                Ok(message) => tagged(message_type, ciphertext@) == Some(message@),
                Err(_) => tagged(message_type, ciphertext@) is None,
            },
    {
        if message_type == PRE_KEY_TYPE {
            Ok(OlmMessage::PreKey(ciphertext))
        } else if message_type == NORMAL_TYPE {
            Ok(OlmMessage::Normal(ciphertext))
        } else {
            Err(UnknownMessageType)
        }
    }

    /// The type number and the body of the message.
    pub fn to_tuple(self) -> (r: (usize, String))
        ensures
            r.0 == self@.message_type(),
            r.1@ == self@.body(),
    {
        match self {
            OlmMessage::PreKey(body) => (PRE_KEY_TYPE, body),
            OlmMessage::Normal(body) => (NORMAL_TYPE, body),
        }
    }

    /// The type number of the message.
    pub fn message_type(&self) -> (r: usize)
        ensures
            r == self@.message_type(),
    {
        match self {
            OlmMessage::PreKey(_) => PRE_KEY_TYPE,
            OlmMessage::Normal(_) => NORMAL_TYPE,
        }
    }

    /// The body of the message.
    pub fn body(&self) -> (r: &str)
        ensures
            r@ == self@.body(),
    {
        match self {
            OlmMessage::PreKey(body) => body.as_str(),
            OlmMessage::Normal(body) => body.as_str(),
        }
    }

    /// A copy of the message.
    pub fn duplicate(&self) -> (r: OlmMessage)
        ensures
            r@ == self@,
    {
        match self {
            OlmMessage::PreKey(body) => OlmMessage::PreKey(body.clone()),
            OlmMessage::Normal(body) => OlmMessage::Normal(body.clone()),
        }
    }
}

} // verus!
