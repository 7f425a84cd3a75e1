//! The state of a timeline, and what is made of an event before it enters.

use vstd::prelude::*;
use crate::text::same_text;
use crate::timeline_items::Profile;
use crate::timeline_items::TimelineItem;

verus! {

/// A reaction that was seen, with the event it is about.
#[derive(Debug)]
pub struct Reaction {
    pub transaction_id: Option<String>,
    pub event_id: Option<String>,
    pub sender: String,
    pub relates_to: String,
    pub key: String,
}

/// The reactions that wait for an event that is not in the timeline yet.
#[derive(Debug)]
pub struct PendingReactions {
    pub event_id: String,
    pub reactions: Vec<String>,
}

/// The state of a timeline.
#[derive(Debug)]
pub struct TimelineState {
    /// The items, oldest first.
    pub items: Vec<TimelineItem>,
    /// The reactions that were seen.
    pub reaction_map: Vec<Reaction>,
    /// The reactions to events that have not come yet.
    pub pending_reactions: Vec<PendingReactions>,
    /// The event up to which the user has read.
    pub fully_read_event: Option<String>,
    /// Whether that event is in the timeline.
    pub fully_read_event_in_timeline: bool,
}

impl TimelineState {
    /// The state of a timeline that nothing has entered.
    pub fn new() -> (r: TimelineState)
        ensures
            r.items@.len() == 0,
            r.reaction_map@.len() == 0,
            r.pending_reactions@.len() == 0,
            r.fully_read_event is None,
            !r.fully_read_event_in_timeline,
    {
        TimelineState {
            items: Vec::with_capacity(32),
            reaction_map: Vec::new(),
            pending_reactions: Vec::new(),
            fully_read_event: None,
            fully_read_event_in_timeline: false,
        }
    }

    /// Empties the timeline: no item, no reaction seen, nothing read. The
    /// reactions that wait for their event go on waiting.
    pub fn clear(&mut self)
        ensures
            final(self).items@.len() == 0,
            final(self).reaction_map@.len() == 0,
            final(self).pending_reactions == old(self).pending_reactions,
            final(self).fully_read_event is None,
            !final(self).fully_read_event_in_timeline,
    {
        self.items.clear();
        self.reaction_map.clear();
        self.fully_read_event = None;
        self.fully_read_event_in_timeline = false;
    }

    /// A copy of the items as they stand.
    pub fn snapshot(&self) -> (r: Vec<TimelineItem>)
        ensures
            r@ == self.items@,
    {
        let mut copy: Vec<TimelineItem> = Vec::new();
        let mut i: usize = 0;
        while i < self.items.len()
            invariant
                i <= self.items.len(),
                copy@.len() == i,
                forall|k: int| 0 <= k < i ==> copy@[k] == self.items@[k],
            decreases self.items.len() - i,
        {
            copy.push(self.items[i].duplicate());
            i += 1;
        }
        assert(copy@ =~= self.items@);
        copy
    }

    /// Whether the user has read up to the event `event_id` as far as the
    /// state knows.
    pub open spec fn has_read_to(self, event_id: Seq<char>) -> bool {
        match self.fully_read_event {
            Some(known) => known@ == event_id,
            None => false,
        }
    }

    /// Records that the user has read up to the event `event_id`, and says
    /// whether that is news: the same event again changes nothing, and
    /// then the read marker need not be moved.
    pub fn set_fully_read_event(&mut self, event_id: String) -> (r: bool)
        ensures
            r == !old(self).has_read_to(event_id@),
            *final(self) == if old(self).has_read_to(event_id@) {
                *old(self)
            } else {
                TimelineState { fully_read_event: Some(event_id), ..*old(self) }
            },
    {
        let same = match &self.fully_read_event {
            Some(known) => same_text(known.as_str(), event_id.as_str()),
            None => false,
        };
        if same {
            return false;
        }
        self.fully_read_event = Some(event_id);
        true
    }

    /// Takes in what was read of a note on how far the user has read: the
    /// id of the event, or nothing where the note could not be read, which
    /// changes nothing.
    pub fn handle_fully_read(&mut self, read: Option<String>) -> (r: bool)
        ensures
            match read {
                Some(event_id) => r == !old(self).has_read_to(event_id@) && *final(self) == if old(
                    self,
                ).has_read_to(event_id@) {
                    *old(self)
                } else {
                    TimelineState { fully_read_event: Some(event_id), ..*old(self) }
                },
                None => !r && *final(self) == *old(self),
            },
    {
        match read {
            Some(event_id) => self.set_fully_read_event(event_id),
            None => false,
        }
    }
}

/// Where an event enters the timeline.
#[derive(Clone, Copy, Debug, PartialEq, Eq, Structural)]
pub enum TimelineItemPosition {
    /// Before the first item.
    Start,
    /// Behind the last item.
    End,
    /// In the place of the item at this index.
    Update(usize),
}

/// How an event was encrypted when it came.
#[derive(Debug)]
pub struct EncryptionInfo {
    pub sender: String,
    pub sender_device: String,
}

/// What every reading of an event gives.
#[derive(Debug)]
pub struct ParsedEvent {
    pub event_id: String,
    pub sender: String,
    pub origin_server_ts: u64,
    pub transaction_id: Option<String>,
    pub relations: String,
}

/// What came of reading an event as it arrived.
#[derive(Debug)]
pub enum RawReading {
    /// The event could be read whole; `content` is what it holds.
    Full { event: ParsedEvent, content: String },
    /// The event could be read but for its content; `error` says why not.
    WithoutContent { event: ParsedEvent, error: String },
    /// The event could not be read at all.
    Unreadable,
}

/// What kind of event enters the timeline.
#[derive(Debug)]
pub enum EventKind {
    /// An event with its content.
    Parsed { content: String },
    /// An event whose content could not be read.
    FailedToParse { error: String },
}

/// What is known about an event besides what it holds.
#[derive(Debug)]
pub struct EventMetadata {
    pub sender: String,
    pub sender_profile: Option<Profile>,
    pub is_own_event: bool,
    pub relations: String,
    pub encryption_info: Option<EncryptionInfo>,
}

/// Where an event comes from.
#[derive(Debug)]
pub enum Flow {
    /// This device is sending the event.
    Local { local_transaction_id: String, timestamp: u64 },
    /// The server sent the event.
    Remote {
        event_id: String,
        origin_server_ts: u64,
        raw_event: String,
        transaction_id: Option<String>,
        position: TimelineItemPosition,
    },
}

/// An event on its way into the timeline.
#[derive(Debug)]
pub struct Arrival {
    pub metadata: EventMetadata,
    pub flow: Flow,
    pub kind: EventKind,
}

/// What enters the timeline for an event that was read as `reading`:
/// nothing where it could not be read at all; else the event with what
/// came with it handed on as it came, marked as the user's own where its
/// sender is `own_user_id`.
pub open spec fn arrival_of(
    reading: RawReading,
    raw_event: String,
    own_user_id: Seq<char>,
    sender_profile: Option<Profile>,
    encryption_info: Option<EncryptionInfo>,
    position: TimelineItemPosition,
) -> Option<Arrival> {
    match reading {
        RawReading::Unreadable => None,
        RawReading::Full { event, content } => Some(
            Arrival {
                metadata: EventMetadata {
                    sender: event.sender,
                    sender_profile,
                    is_own_event: event.sender@ == own_user_id,
                    relations: event.relations,
                    encryption_info,
                },
                flow: Flow::Remote {
                    event_id: event.event_id,
                    origin_server_ts: event.origin_server_ts,
                    raw_event,
                    transaction_id: event.transaction_id,
                    position,
                },
                kind: EventKind::Parsed { content },
            },
        ),
        RawReading::WithoutContent { event, error } => Some(
            Arrival {
                metadata: EventMetadata {
                    sender: event.sender,
                    sender_profile,
                    is_own_event: event.sender@ == own_user_id,
                    relations: event.relations,
                    encryption_info,
                },
                flow: Flow::Remote {
                    event_id: event.event_id,
                    origin_server_ts: event.origin_server_ts,
                    raw_event,
                    transaction_id: event.transaction_id,
                    position,
                },
                kind: EventKind::FailedToParse { error },
            },
        ),
    }
}

/// Makes ready an event of the server to enter the timeline at `position`.
pub fn handle_remote_event(
    reading: RawReading,
    raw_event: String,
    own_user_id: &str,
    sender_profile: Option<Profile>,
    encryption_info: Option<EncryptionInfo>,
    position: TimelineItemPosition,
) -> (r: Option<Arrival>)
    ensures
        r == arrival_of(
            reading,
            raw_event,
            own_user_id@,
            sender_profile,
            encryption_info,
            position,
        ),
{
    let (event, kind) = match reading {
        RawReading::Unreadable => {
            return None;
        },
        RawReading::Full { event, content } => (event, EventKind::Parsed { content }),
        RawReading::WithoutContent { event, error } => (event, EventKind::FailedToParse { error }),
    };
    let is_own_event = same_text(event.sender.as_str(), own_user_id);
    Some(
        Arrival {
            metadata: EventMetadata {
                sender: event.sender,
                sender_profile,
                is_own_event,
                relations: event.relations,
                encryption_info,
            },
            flow: Flow::Remote {
                event_id: event.event_id,
                origin_server_ts: event.origin_server_ts,
                raw_event,
                transaction_id: event.transaction_id,
                position,
            },
            kind,
        },
    )
}

/// Makes ready an event that just came from the server: it enters at the
/// end. The first events of a timeline enter the same way, one by one.
pub fn handle_live_event(
    reading: RawReading,
    raw_event: String,
    own_user_id: &str,
    sender_profile: Option<Profile>,
    encryption_info: Option<EncryptionInfo>,
) -> (r: Option<Arrival>)
    ensures
        r == arrival_of(
            reading,
            raw_event,
            own_user_id@,
            sender_profile,
            encryption_info,
            TimelineItemPosition::End,
        ),
{
    handle_remote_event(
        reading,
        raw_event,
        own_user_id,
        sender_profile,
        encryption_info,
        TimelineItemPosition::End,
    )
}

/// Makes ready an event that was loaded from the past: it enters at the
/// start.
pub fn handle_back_paginated_event(
    reading: RawReading,
    raw_event: String,
    own_user_id: &str,
    sender_profile: Option<Profile>,
    encryption_info: Option<EncryptionInfo>,
) -> (r: Option<Arrival>)
    ensures
        r == arrival_of(
            reading,
            raw_event,
            own_user_id@,
            sender_profile,
            encryption_info,
            TimelineItemPosition::Start,
        ),
{
    handle_remote_event(
        reading,
        raw_event,
        own_user_id,
        sender_profile,
        encryption_info,
        TimelineItemPosition::Start,
    )
}

/// Makes ready an event that this device is about to send in the
/// transaction `transaction_id` at `timestamp`: it is the user's own, has
/// no relations yet and no encryption info.
pub fn handle_local_event(
    transaction_id: String,
    own_user_id: &str,
    sender_profile: Option<Profile>,
    timestamp: u64,
) -> (r: (EventMetadata, Flow))
    ensures
        r.0.sender@ == own_user_id@,
        r.0.sender_profile == sender_profile,
        r.0.is_own_event,
        r.0.relations@.len() == 0,
        r.0.encryption_info is None,
        r.1 == (Flow::Local { local_transaction_id: transaction_id, timestamp }),
{
    (
        EventMetadata {
            sender: own_user_id.to_owned(),
            sender_profile,
            is_own_event: true,
            relations: String::new(),
            encryption_info: None,
        },
        Flow::Local { local_transaction_id: transaction_id, timestamp },
    )
}

} // verus!
