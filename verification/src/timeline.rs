//! What the timeline of a room decides.
//!
//! The timeline is a list of items that is rewritten as events arrive, are
//! sent, are decrypted at last, or change their looks. Fetching, decrypting
//! and waiting are the caller's; which item is looked at, what is written
//! and where is decided here.

use vstd::prelude::*;
use crate::text::same_text;
use crate::timeline_items::same_reading;
use crate::timeline_items::Content;
use crate::timeline_items::EncryptedMessage;
use crate::timeline_items::EventSendState;
use crate::timeline_items::InReplyTo;
use crate::timeline_items::LocalEvent;
use crate::timeline_items::Message;
use crate::timeline_items::Profile;
use crate::timeline_items::RemoteEvent;
use crate::timeline_items::RepliedToEvent;
use crate::timeline_items::ReplyDetails;
use crate::timeline_items::SenderProfile;
use crate::timeline_items::TimelineError;
use crate::timeline_items::TimelineItem;

verus! {

/// The session ids of a list, as texts; no list stands for every id.
pub open spec fn ids_of(session_ids: Option<Vec<String>>) -> Option<Seq<Seq<char>>> {
    match session_ids {
        Some(ids) => Some(ids@.map_values(|id: String| id@)),
        None => None,
    }
}

/// Whether decrypting `item` is to be tried again now that the keys of the
/// sessions `ids` have come: it is a remote event that could not be
/// decrypted under the group ratchet, and its session is among `ids`.
pub open spec fn to_retry(item: TimelineItem, ids: Option<Seq<Seq<char>>>) -> bool {
    match item {
        TimelineItem::Remote(event) => match event.content {
            Content::UnableToDecrypt(EncryptedMessage::MegolmV1AesSha2 { session_id }) => match ids {
                Some(list) => list.contains(session_id@),
                None => true,
            },
            _ => false,
        },
        _ => false,
    }
}

fn listed(ids: &Vec<String>, id: &str) -> (r: bool)
    ensures
        r == ids@.map_values(|id: String| id@).contains(id@),
{
    let ghost texts = ids@.map_values(|id: String| id@);
    let mut i: usize = 0;
    while i < ids.len()
        invariant
            i <= ids.len(),
            texts == ids@.map_values(|id: String| id@),
            forall|k: int| 0 <= k < i ==> texts[k] != id@,
        decreases ids.len() - i,
    {
        if same_text(ids[i].as_str(), id) {
            assert(texts[i as int] == id@);
            return true;
        }
        i += 1;
    }
    false
}

/// Whether decrypting `item` is to be tried again.
pub fn should_retry(item: &TimelineItem, session_ids: &Option<Vec<String>>) -> (r: bool)
    ensures
        r == to_retry(*item, ids_of(*session_ids)),
{
    match item {
        TimelineItem::Remote(event) => match &event.content {
            Content::UnableToDecrypt(EncryptedMessage::MegolmV1AesSha2 { session_id }) => {
                match session_ids {
                    Some(ids) => listed(ids, session_id.as_str()),
                    None => true,
                }
            },
            _ => false,
        },
        _ => false,
    }
}

/// The first item from `from` on whose decryption is to be tried again.
pub fn next_to_retry(items: &Vec<TimelineItem>, from: usize, session_ids: &Option<Vec<String>>) -> (r:
    Option<usize>)
    ensures
        match r {
            Some(idx) => from <= idx < items@.len() && to_retry(
                items@[idx as int],
                ids_of(*session_ids),
            ) && forall|k: int|
                from <= k < idx ==> !to_retry(#[trigger] items@[k], ids_of(*session_ids)),
            None => forall|k: int|
                from <= k < items@.len() ==> !to_retry(#[trigger] items@[k], ids_of(*session_ids)),
        },
{
    let mut idx: usize = from;
    while idx < items.len()
        invariant
            from <= idx,
            forall|k: int| from <= k < idx ==> !to_retry(#[trigger] items@[k], ids_of(*session_ids)),
        decreases items.len() - idx,
    {
        if should_retry(&items[idx], session_ids) {
            return Some(idx);
        }
        idx += 1;
    }
    None
}

/// Where to look next after the item at `idx` was tried: at the same place
/// where the decrypted event took the item away, at the next otherwise.
pub fn resume_retry_at(idx: usize, decrypted: bool, item_removed: bool) -> (r: usize)
    requires
        idx < usize::MAX,
    ensures
        r == if decrypted && item_removed {
            idx as int
        } else {
            idx + 1
        },
{
    if decrypted && item_removed {
        idx
    } else {
        idx + 1
    }
}

/// Puts the loading indicator in front, unless it stands there.
pub fn add_loading_indicator(items: &mut Vec<TimelineItem>)
    ensures
        final(items)@ == if old(items)@.len() > 0 && old(items)@[0] is LoadingIndicator {
            old(items)@
        } else {
            seq![TimelineItem::LoadingIndicator] + old(items)@
        },
{
    if items.len() > 0 {
        if let TimelineItem::LoadingIndicator = &items[0] {
            return ;
        }
    }
    items.insert(0, TimelineItem::LoadingIndicator);
    assert(items@ =~= seq![TimelineItem::LoadingIndicator] + old(items)@);
}

/// Takes the loading indicator away where it stands in front: for good
/// where there are more messages to load, and for the mark of the
/// timeline's start where there are none.
pub fn remove_loading_indicator(items: &mut Vec<TimelineItem>, more_messages: bool)
    ensures
        final(items)@ == if old(items)@.len() > 0 && old(items)@[0] is LoadingIndicator {
            if more_messages {
                old(items)@.skip(1)
            } else {
                old(items)@.update(0, TimelineItem::TimelineStart)
            }
        } else {
            old(items)@
        },
{
    if items.len() == 0 {
        return ;
    }
    match &items[0] {
        TimelineItem::LoadingIndicator => {},
        _ => {
            return ;
        },
    }
    if more_messages {
        let _ = items.remove(0);
        assert(items@ =~= old(items)@.skip(1));
    } else {
        items.set(0, TimelineItem::TimelineStart);
    }
}

/// The id that a send state gives an event, if it gives one.
pub open spec fn new_event_id(send_state: EventSendState) -> Option<Seq<char>> {
    match send_state {
        EventSendState::Sent { event_id } => Some(event_id@),
        _ => None,
    }
}

/// Whether `item` is the event that the transaction `txn_id` sent, or the
/// event with the id that the server gave it.
pub open spec fn is_echo_of(item: TimelineItem, txn_id: Seq<char>, event_id: Option<Seq<char>>) -> bool {
    item.transaction_id() == Some(txn_id) || (event_id is Some && item.event_id() == event_id)
}

/// The last place in `items` of the event that the transaction sent.
pub open spec fn last_echo(
    items: Seq<TimelineItem>,
    txn_id: Seq<char>,
    event_id: Option<Seq<char>>,
) -> Option<int>
    decreases items.len(),
{
    if items.len() == 0 {
        None
    } else if is_echo_of(items.last(), txn_id, event_id) {
        Some(items.len() - 1)
    } else {
        last_echo(items.drop_last(), txn_id, event_id)
    }
}

fn transaction_id_is(item: &TimelineItem, id: &str) -> (r: bool)
    ensures
        r == (item.transaction_id() == Some(id@)),
{
    match item {
        TimelineItem::Local(event) => same_text(event.transaction_id.as_str(), id),
        TimelineItem::Remote(event) => match &event.transaction_id {
            Some(own) => same_text(own.as_str(), id),
            None => false,
        },
        _ => false,
    }
}

fn event_id_is(item: &TimelineItem, id: &str) -> (r: bool)
    ensures
        r == (item.event_id() == Some(id@)),
{
    match item {
        TimelineItem::Remote(event) => same_text(event.event_id.as_str(), id),
        TimelineItem::Local(event) => match &event.send_state {
            EventSendState::Sent { event_id } => same_text(event_id.as_str(), id),
            _ => false,
        },
        _ => false,
    }
}

/// Records how far the sending of the event of the transaction `txn_id`
/// has come.
///
/// The event is looked for from the end, by its transaction or, once it
/// was sent, by the id that the server gave it. Where it still stands as a
/// local event it takes the new state, also where it was marked as sent
/// before; where the server's copy has come already, or the event is not
/// there, nothing is written.
pub fn update_event_send_state(
    items: &mut Vec<TimelineItem>,
    txn_id: &str,
    send_state: EventSendState,
)
    ensures
        final(items)@.len() == old(items)@.len(),
        final(items)@ == match last_echo(old(items)@, txn_id@, new_event_id(send_state)) {
            Some(idx) => match old(items)@[idx] {
                TimelineItem::Local(event) => old(items)@.update(
                    idx,
                    TimelineItem::Local(LocalEvent { send_state, ..event }),
                ),
                _ => old(items)@,
            },
            None => old(items)@,
        },
{
    let ghost all = items@;
    let ghost sent_as = new_event_id(send_state);
    let mut i: usize = items.len();
    assert(all.take(i as int) =~= all);
    while i > 0
        invariant
            i <= items.len(),
            items@ == all,
            all == old(items)@,
            sent_as == new_event_id(send_state),
            last_echo(all, txn_id@, sent_as) == last_echo(all.take(i as int), txn_id@, sent_as),
        decreases i,
    {
        assert(all.take(i as int).last() == all[i - 1]);
        assert(all.take(i as int).drop_last() =~= all.take(i - 1));
        let found = transaction_id_is(&items[i - 1], txn_id) || match &send_state {
            EventSendState::Sent { event_id } => event_id_is(&items[i - 1], event_id.as_str()),
            _ => false,
        };
        if found {
            let rewritten = match &items[i - 1] {
                TimelineItem::Local(event) => Some(
                    TimelineItem::Local(
                        LocalEvent {
                            transaction_id: event.transaction_id.clone(),
                            send_state,
                            sender: event.sender.clone(),
                            sender_profile: event.sender_profile.duplicate(),
                            content: event.content.duplicate(),
                        },
                    ),
                ),
                _ => None,
            };
            match rewritten {
                Some(item) => {
                    items.set(i - 1, item);
                },
                None => {},
            }
            return ;
        }
        i -= 1;
    }
}

/// `item` as it shows when the profiles of senders are in the state
/// `state`: an event whose profile is not at hand takes the state, an event
/// whose profile is at hand keeps it, and any other item stays as it is.
pub open spec fn marked(item: TimelineItem, state: SenderProfile) -> TimelineItem {
    match item.sender_profile() {
        Some(SenderProfile::Ready(_)) => item,
        Some(_) => item.with_sender_profile(state),
        None => item,
    }
}

/// Gives every event whose sender's profile is not at hand the state
/// `state`.
pub fn set_non_ready_sender_profiles(items: &mut Vec<TimelineItem>, state: &SenderProfile)
    ensures
        final(items)@.len() == old(items)@.len(),
        final(items)@ == Seq::new(old(items)@.len(), |i: int| marked(old(items)@[i], *state)),
{
    let ghost before = items@;
    let n = items.len();
    let mut idx: usize = 0;
    while idx < n
        invariant
            idx <= n,
            n == items@.len(),
            before == old(items)@,
            before.len() == n,
            forall|k: int| 0 <= k < idx ==> items@[k] == marked(before[k], *state),
            forall|k: int| idx <= k < n ==> items@[k] == before[k],
        decreases n - idx,
    {
        let rewritten = match &items[idx] {
            TimelineItem::Local(event) => match &event.sender_profile {
                SenderProfile::Ready(_) => None,
                _ => Some(items[idx].duplicate().into_with_sender_profile(state.duplicate())),
            },
            TimelineItem::Remote(event) => match &event.sender_profile {
                SenderProfile::Ready(_) => None,
                _ => Some(items[idx].duplicate().into_with_sender_profile(state.duplicate())),
            },
            _ => None,
        };
        match rewritten {
            Some(item) => {
                items.set(idx, item);
            },
            None => {},
        }
        idx += 1;
    }
    assert(items@ =~= Seq::new(before.len(), |i: int| marked(before[i], *state)));
}

/// What an event shows once the answer `answer` on its sender's profile
/// has come: the profile, or that there is none.
pub open spec fn answered(answer: Option<Profile>) -> SenderProfile {
    match answer {
        Some(profile) => SenderProfile::Ready(profile),
        None => SenderProfile::Unavailable,
    }
}

/// Whether `shown` is what the answer `answer` would show.
pub open spec fn shows(shown: SenderProfile, answer: Option<Profile>) -> bool {
    match (shown, answer) {
        (SenderProfile::Ready(profile), Some(answer)) => profile.alike(answer),
        (SenderProfile::Unavailable, None) => true,
        _ => false,
    }
}

fn same_optional_text(a: &Option<String>, b: &Option<String>) -> (r: bool)
    ensures
        r == same_reading(*a, *b),
{
    match (a, b) {
        (Some(x), Some(y)) => same_text(x.as_str(), y.as_str()),
        (None, None) => true,
        _ => false,
    }
}

fn shows_answer(shown: &SenderProfile, answer: &Option<Profile>) -> (r: bool)
    ensures
        r == shows(*shown, *answer),
{
    match (shown, answer) {
        (SenderProfile::Ready(profile), Some(answer)) => same_optional_text(
            &profile.display_name,
            &answer.display_name,
        ) && profile.display_name_ambiguous == answer.display_name_ambiguous
            && same_optional_text(&profile.avatar_url, &answer.avatar_url),
        (SenderProfile::Unavailable, None) => true,
        _ => false,
    }
}

/// What is to be written in the place of `item` now that the answer
/// `answer` on its sender's profile has come: the event with what the
/// answer shows, or nothing where the item is no event or shows it already.
pub fn with_profile_answer(item: &TimelineItem, answer: Option<Profile>) -> (r: Option<
    TimelineItem,
>)
    ensures
        r == match item.sender_profile() {
            Some(shown) => if shows(shown, answer) {
                None
            } else {
                Some(item.with_sender_profile(answered(answer)))
            },
            None => None,
        },
{
    let shown = match item {
        TimelineItem::Local(event) => &event.sender_profile,
        TimelineItem::Remote(event) => &event.sender_profile,
        _ => {
            return None;
        },
    };
    if shows_answer(shown, &answer) {
        return None;
    }
    let profile = match answer {
        Some(profile) => SenderProfile::Ready(profile),
        None => SenderProfile::Unavailable,
    };
    Some(item.duplicate().into_with_sender_profile(profile))
}

/// A member of a room, as the room knows it.
#[derive(Debug)]
pub struct Member {
    pub display_name: Option<String>,
    pub name_ambiguous: bool,
    pub avatar_url: Option<String>,
}

/// The profile that the room's answer on a member gives: the member's
/// where the room knows the member; an empty one where it does not and
/// knows all its members; none where it does not know all, or failed.
pub fn profile_of(member: Result<Option<Member>, ()>, members_synced: bool) -> (r: Option<Profile>)
    ensures
        r == match member {
            Ok(Some(member)) => Some(
                Profile {
                    display_name: member.display_name,
                    display_name_ambiguous: member.name_ambiguous,
                    avatar_url: member.avatar_url,
                },
            ),
            Ok(None) => if members_synced {
                Some(
                    Profile { display_name: None, display_name_ambiguous: false, avatar_url: None },
                )
            } else {
                None
            },
            Err(_) => None,
        },
{
    match member {
        Ok(Some(member)) => Some(
            Profile {
                display_name: member.display_name,
                display_name_ambiguous: member.name_ambiguous,
                avatar_url: member.avatar_url,
            },
        ),
        Ok(None) => {
            if members_synced {
                Some(Profile { display_name: None, display_name_ambiguous: false, avatar_url: None })
            } else {
                None
            }
        },
        Err(_) => None,
    }
}

/// The last place in `items` of the event with the id `id`.
pub open spec fn last_with_id(items: Seq<TimelineItem>, id: Seq<char>) -> Option<int>
    decreases items.len(),
{
    if items.len() == 0 {
        None
    } else if items.last().event_id() == Some(id) {
        Some(items.len() - 1)
    } else {
        last_with_id(items.drop_last(), id)
    }
}

/// A found place lies within the items and holds the event.
pub proof fn lemma_last_with_id_is_there(items: Seq<TimelineItem>, id: Seq<char>)
    ensures
        last_with_id(items, id) matches Some(at) ==> 0 <= at < items.len() && items[at].event_id()
            == Some(id),
    decreases items.len(),
{
    if items.len() > 0 && items.last().event_id() != Some(id) {
        lemma_last_with_id_is_there(items.drop_last(), id);
    }
}

fn find_last_with_id(items: &Vec<TimelineItem>, id: &str) -> (r: Option<usize>)
    ensures
        match r {
            Some(at) => last_with_id(items@, id@) == Some(at as int) && at < items@.len(),
            None => last_with_id(items@, id@) is None,
        },
{
    let ghost all = items@;
    let mut i: usize = items.len();
    assert(all.take(i as int) =~= all);
    while i > 0
        invariant
            i <= items.len(),
            all == items@,
            last_with_id(all, id@) == last_with_id(all.take(i as int), id@),
        decreases i,
    {
        assert(all.take(i as int).last() == all[i - 1]);
        assert(all.take(i as int).drop_last() =~= all.take(i - 1));
        if event_id_is(&items[i - 1], id) {
            return Some(i - 1);
        }
        i -= 1;
    }
    None
}

/// The message of `event` and the reply it makes, where it is a message
/// that replies to something.
pub open spec fn reply_of(event: RemoteEvent) -> Option<(Message, InReplyTo)> {
    match event.content {
        Content::Message(message) => match message.in_reply_to {
            Some(reply) => Some((message, reply)),
            None => None,
        },
        _ => None,
    }
}

/// `event` with `details` on the event that it replies to.
pub open spec fn with_reply_details(event: RemoteEvent, details: ReplyDetails) -> RemoteEvent {
    match reply_of(event) {
        Some((message, reply)) => RemoteEvent {
            content: Content::Message(
                Message {
                    in_reply_to: Some(InReplyTo { event_id: reply.event_id, details }),
                    ..message
                },
            ),
            ..event
        },
        None => event,
    }
}

/// What is known of the replied-to event where it stands in the timeline
/// as `item`: the event where it is a message, and that it is of the wrong
/// kind otherwise.
pub open spec fn details_from(item: TimelineItem) -> ReplyDetails {
    match (item.content(), item.sender(), item.sender_profile()) {
        (Some(Content::Message(message)), Some(sender), Some(sender_profile)) => ReplyDetails::Ready(
            RepliedToEvent { body: message.body, sender, sender_profile },
        ),
        _ => ReplyDetails::Error(TimelineError::UnsupportedEvent),
    }
}

/// What is to be done next about the reply of an event.
#[derive(Debug)]
pub enum ReplyStep {
    /// Nothing: the event is no message or replies to nothing. Here it is.
    Unchanged(RemoteEvent),
    /// The replied-to event stands in the timeline; these are its details.
    Known(ReplyDetails),
    /// The replied-to event, which has this id, is to be fetched.
    Fetch(String),
}

/// The remote event with the id `id`, where the last event of that id in
/// `items` is a remote one, and its place.
pub open spec fn remote_at(items: Seq<TimelineItem>, id: Seq<char>) -> Option<(int, RemoteEvent)> {
    match last_with_id(items, id) {
        Some(at) => match items[at] {
            TimelineItem::Remote(event) => Some((at, event)),
            _ => None,
        },
        None => None,
    }
}

/// The step that looking up the reply of the event `id` leads to.
pub open spec fn reply_step(items: Seq<TimelineItem>, id: Seq<char>) -> Result<
    ReplyStep,
    TimelineError,
> {
    match remote_at(items, id) {
        None => Err(TimelineError::RemoteEventNotInTimeline),
        Some((_, event)) => match reply_of(event) {
            None => Ok(ReplyStep::Unchanged(event)),
            Some((_, reply)) => match last_with_id(items, reply.event_id@) {
                Some(at) => Ok(ReplyStep::Known(details_from(items[at]))),
                None => Ok(ReplyStep::Fetch(reply.event_id)),
            },
        },
    }
}

/// The items after the reply of the event `id` was looked up: where the
/// replied-to event has to be fetched, the event shows that it is being
/// fetched; nothing else is ever written.
pub open spec fn after_look_up(items: Seq<TimelineItem>, id: Seq<char>) -> Seq<TimelineItem> {
    match remote_at(items, id) {
        Some((at, event)) => match reply_of(event) {
            Some((_, reply)) => if last_with_id(items, reply.event_id@) is None {
                items.update(
                    at,
                    TimelineItem::Remote(with_reply_details(event, ReplyDetails::Pending)),
                )
            } else {
                items
            },
            None => items,
        },
        None => items,
    }
}

fn take_remote(items: &Vec<TimelineItem>, id: &str) -> (r: Option<(usize, RemoteEvent)>)
    ensures
        match r {
            Some((at, event)) => remote_at(items@, id@) == Some((at as int, event)) && at
                < items@.len(),
            None => remote_at(items@, id@) is None,
        },
{
    match find_last_with_id(items, id) {
        Some(at) => match &items[at] {
            TimelineItem::Remote(event) => Some((at, event.duplicate())),
            _ => None,
        },
        None => None,
    }
}

fn rewrite_reply(event: RemoteEvent, details: ReplyDetails) -> (r: RemoteEvent)
    ensures
        r == with_reply_details(event, details),
{
    match event.content {
        Content::Message(message) => match message.in_reply_to {
            Some(reply) => RemoteEvent {
                event_id: event.event_id,
                transaction_id: event.transaction_id,
                sender: event.sender,
                sender_profile: event.sender_profile,
                content: Content::Message(
                    Message {
                        body: message.body,
                        in_reply_to: Some(InReplyTo { event_id: reply.event_id, details }),
                    },
                ),
                is_own: event.is_own,
                raw: event.raw,
            },
            None => RemoteEvent {
                event_id: event.event_id,
                transaction_id: event.transaction_id,
                sender: event.sender,
                sender_profile: event.sender_profile,
                content: Content::Message(Message { body: message.body, in_reply_to: None }),
                is_own: event.is_own,
                raw: event.raw,
            },
        },
        other => RemoteEvent {
            event_id: event.event_id,
            transaction_id: event.transaction_id,
            sender: event.sender,
            sender_profile: event.sender_profile,
            content: other,
            is_own: event.is_own,
            raw: event.raw,
        },
    }
}

fn details_of(item: &TimelineItem) -> (r: ReplyDetails)
    ensures
        r == details_from(*item),
{
    match item {
        TimelineItem::Local(event) => match &event.content {
            Content::Message(message) => ReplyDetails::Ready(
                RepliedToEvent {
                    body: message.body.clone(),
                    sender: event.sender.clone(),
                    sender_profile: event.sender_profile.duplicate(),
                },
            ),
            _ => ReplyDetails::Error(TimelineError::UnsupportedEvent),
        },
        TimelineItem::Remote(event) => match &event.content {
            Content::Message(message) => ReplyDetails::Ready(
                RepliedToEvent {
                    body: message.body.clone(),
                    sender: event.sender.clone(),
                    sender_profile: event.sender_profile.duplicate(),
                },
            ),
            _ => ReplyDetails::Error(TimelineError::UnsupportedEvent),
        },
        _ => ReplyDetails::Error(TimelineError::UnsupportedEvent),
    }
}

/// Looks up the reply that the event `event_id` makes, and says what is to
/// be done next.
pub fn reply_look_up(items: &mut Vec<TimelineItem>, event_id: &str) -> (r: Result<
    ReplyStep,
    TimelineError,
>)
    ensures
        r == reply_step(old(items)@, event_id@),
        final(items)@ == after_look_up(old(items)@, event_id@),
        final(items)@.len() == old(items)@.len(),
{
    let (at, event) = match take_remote(items, event_id) {
        Some(found) => found,
        None => {
            return Err(TimelineError::RemoteEventNotInTimeline);
        },
    };
    let reply_id = match &event.content {
        Content::Message(message) => match &message.in_reply_to {
            Some(reply) => reply.event_id.clone(),
            None => {
                return Ok(ReplyStep::Unchanged(event));
            },
        },
        _ => {
            return Ok(ReplyStep::Unchanged(event));
        },
    };
    match find_last_with_id(items, reply_id.as_str()) {
        Some(found) => Ok(ReplyStep::Known(details_of(&items[found]))),
        None => {
            items.set(at, TimelineItem::Remote(rewrite_reply(event, ReplyDetails::Pending)));
            Ok(ReplyStep::Fetch(reply_id))
        },
    }
}

/// What comes of writing `details` to the event `id`: the event as it
/// stands then, or that it is gone.
pub open spec fn reply_applied(items: Seq<TimelineItem>, id: Seq<char>, details: ReplyDetails) -> Result<
    RemoteEvent,
    TimelineError,
> {
    match remote_at(items, id) {
        Some((_, event)) => Ok(with_reply_details(event, details)),
        None => Err(TimelineError::RemoteEventNotInTimeline),
    }
}

/// The items after `details` were written to the event `id`: the event is
/// rewritten where it stands now, if it is still a message that replies to
/// something; nothing else is written.
pub open spec fn after_reply_applied(
    items: Seq<TimelineItem>,
    id: Seq<char>,
    details: ReplyDetails,
) -> Seq<TimelineItem> {
    match remote_at(items, id) {
        Some((at, event)) => if reply_of(event) is Some {
            items.update(at, TimelineItem::Remote(with_reply_details(event, details)))
        } else {
            items
        },
        None => items,
    }
}

/// Writes what was found out about the event that the event `event_id`
/// replies to. The event is looked up anew: it may have moved, changed or
/// gone while the replied-to event was fetched.
pub fn apply_reply_details(items: &mut Vec<TimelineItem>, event_id: &str, details: ReplyDetails) -> (r:
    Result<RemoteEvent, TimelineError>)
    ensures
        r == reply_applied(old(items)@, event_id@, details),
        final(items)@ == after_reply_applied(old(items)@, event_id@, details),
        final(items)@.len() == old(items)@.len(),
{
    let (at, event) = match take_remote(items, event_id) {
        Some(found) => found,
        None => {
            return Err(TimelineError::RemoteEventNotInTimeline);
        },
    };
    let replies = match &event.content {
        Content::Message(message) => message.in_reply_to.is_some(),
        _ => false,
    };
    if !replies {
        return Ok(event);
    }
    let rewritten = rewrite_reply(event, details);
    items.set(at, TimelineItem::Remote(rewritten.duplicate()));
    Ok(rewritten)
}

} // verus!
