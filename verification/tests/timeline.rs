use olm_engine::timeline::{
    add_loading_indicator, apply_reply_details, next_to_retry, profile_of,
    remove_loading_indicator, reply_look_up, resume_retry_at, set_non_ready_sender_profiles,
    should_retry, update_event_send_state, with_profile_answer, Member, ReplyStep,
};
use olm_engine::timeline_items::{
    Content, EncryptedMessage, EventSendState, InReplyTo, LocalEvent, Message, Profile,
    RemoteEvent, ReplyDetails, SenderProfile, TimelineError, TimelineItem,
};
use olm_engine::room_list::{easy, RoomListEntry, RoomListEntryEasy};
use olm_engine::timeline_state::{
    handle_back_paginated_event, handle_live_event, handle_local_event, handle_remote_event,
    EncryptionInfo, EventKind, Flow, ParsedEvent, RawReading, TimelineItemPosition,
    TimelineState,
};

fn remote(event_id: &str, content: Content) -> TimelineItem {
    TimelineItem::Remote(RemoteEvent {
        event_id: event_id.to_owned(),
        transaction_id: None,
        sender: "@bob:example.org".to_owned(),
        sender_profile: SenderProfile::Unavailable,
        content,
        is_own: false,
        raw: format!("raw {event_id}"),
    })
}

fn local(transaction_id: &str, send_state: EventSendState) -> TimelineItem {
    TimelineItem::Local(LocalEvent {
        transaction_id: transaction_id.to_owned(),
        send_state,
        sender: "@alice:example.org".to_owned(),
        sender_profile: SenderProfile::Pending,
        content: message("hello", None),
    })
}

fn message(body: &str, reply_to: Option<&str>) -> Content {
    Content::Message(Message {
        body: body.to_owned(),
        in_reply_to: reply_to.map(|event_id| InReplyTo {
            event_id: event_id.to_owned(),
            details: ReplyDetails::Unavailable,
        }),
    })
}

fn undecrypted(session_id: &str) -> Content {
    Content::UnableToDecrypt(EncryptedMessage::MegolmV1AesSha2 {
        session_id: session_id.to_owned(),
    })
}

fn profile(name: &str) -> Profile {
    Profile {
        display_name: Some(name.to_owned()),
        display_name_ambiguous: false,
        avatar_url: None,
    }
}

fn kinds(items: &[TimelineItem]) -> Vec<String> {
    items
        .iter()
        .map(|item| match item {
            TimelineItem::Local(event) => format!("local {}", event.transaction_id),
            TimelineItem::Remote(event) => format!("remote {}", event.event_id),
            TimelineItem::LoadingIndicator => "loading".to_owned(),
            TimelineItem::TimelineStart => "start".to_owned(),
            TimelineItem::Virtual(kind) => kind.clone(),
        })
        .collect()
}

#[test]
fn only_group_messages_of_the_named_sessions_are_retried() {
    let ids = Some(vec!["s1".to_owned(), "s2".to_owned()]);
    assert!(should_retry(&remote("$1", undecrypted("s1")), &ids));
    assert!(should_retry(&remote("$1", undecrypted("s2")), &ids));
    assert!(!should_retry(&remote("$1", undecrypted("s3")), &ids));
    assert!(should_retry(&remote("$1", undecrypted("s3")), &None));
    assert!(!should_retry(&remote("$1", undecrypted("s1")), &Some(vec![])));
    assert!(!should_retry(
        &remote("$1", Content::UnableToDecrypt(EncryptedMessage::OlmV1Curve25519AesSha2)),
        &None
    ));
    assert!(!should_retry(&remote("$1", Content::UnableToDecrypt(EncryptedMessage::Unknown)), &None));
    assert!(!should_retry(&remote("$1", message("decrypted", None)), &None));
    assert!(!should_retry(&TimelineItem::LoadingIndicator, &None));
    let local_item = TimelineItem::Local(LocalEvent {
        transaction_id: "t".to_owned(),
        send_state: EventSendState::NotSentYet,
        sender: "@alice:example.org".to_owned(),
        sender_profile: SenderProfile::Pending,
        content: undecrypted("s1"),
    });
    assert!(!should_retry(&local_item, &None));
}

#[test]
fn the_next_item_to_retry_is_the_first_from_the_place_on() {
    let items = vec![
        TimelineItem::TimelineStart,
        remote("$1", undecrypted("s1")),
        remote("$2", message("plain", None)),
        remote("$3", undecrypted("s2")),
        remote("$4", undecrypted("s1")),
    ];
    let ids = Some(vec!["s1".to_owned()]);
    assert_eq!(next_to_retry(&items, 0, &ids), Some(1));
    assert_eq!(next_to_retry(&items, 1, &ids), Some(1));
    assert_eq!(next_to_retry(&items, 2, &ids), Some(4));
    assert_eq!(next_to_retry(&items, 5, &ids), None);
    assert_eq!(next_to_retry(&items, 9, &ids), None);
    assert_eq!(next_to_retry(&items, 2, &None), Some(3));
    assert_eq!(next_to_retry(&items, 0, &Some(vec!["other".to_owned()])), None);
    assert_eq!(next_to_retry(&Vec::new(), 0, &None), None);
}

#[test]
fn retrying_goes_on_at_the_same_place_only_where_the_item_went_away() {
    assert_eq!(resume_retry_at(4, true, true), 4);
    assert_eq!(resume_retry_at(4, true, false), 5);
    assert_eq!(resume_retry_at(4, false, false), 5);
    assert_eq!(resume_retry_at(4, false, true), 5);
    assert_eq!(resume_retry_at(0, true, true), 0);
}

#[test]
fn the_loading_indicator_is_added_once() {
    let mut items = vec![remote("$1", message("a", None))];
    add_loading_indicator(&mut items);
    assert_eq!(kinds(&items), ["loading", "remote $1"]);
    add_loading_indicator(&mut items);
    assert_eq!(kinds(&items), ["loading", "remote $1"]);
    let mut empty = Vec::new();
    add_loading_indicator(&mut empty);
    assert_eq!(kinds(&empty), ["loading"]);
}

#[test]
fn the_loading_indicator_goes_or_becomes_the_start() {
    let mut items = vec![TimelineItem::LoadingIndicator, remote("$1", message("a", None))];
    remove_loading_indicator(&mut items, true);
    assert_eq!(kinds(&items), ["remote $1"]);
    remove_loading_indicator(&mut items, true);
    assert_eq!(kinds(&items), ["remote $1"]);

    let mut items = vec![TimelineItem::LoadingIndicator, remote("$1", message("a", None))];
    remove_loading_indicator(&mut items, false);
    assert_eq!(kinds(&items), ["start", "remote $1"]);
    remove_loading_indicator(&mut items, false);
    assert_eq!(kinds(&items), ["start", "remote $1"]);

    let mut empty: Vec<TimelineItem> = Vec::new();
    remove_loading_indicator(&mut empty, true);
    assert!(empty.is_empty());
}

#[test]
fn a_local_event_takes_its_send_state() {
    let mut items = vec![
        local("t1", EventSendState::NotSentYet),
        remote("$1", message("a", None)),
        local("t2", EventSendState::NotSentYet),
    ];
    update_event_send_state(&mut items, "t1", EventSendState::Sent { event_id: "$9".to_owned() });
    match &items[0] {
        TimelineItem::Local(event) => {
            assert!(matches!(&event.send_state, EventSendState::Sent { event_id } if event_id == "$9"));
            assert_eq!(event.transaction_id, "t1");
            assert_eq!(event.sender, "@alice:example.org");
        }
        _ => panic!("the item is no local event"),
    }
    assert!(matches!(&items[2], TimelineItem::Local(e) if matches!(e.send_state, EventSendState::NotSentYet)));

    // an event that was marked as sent is overridden
    update_event_send_state(
        &mut items,
        "t1",
        EventSendState::SendingFailed { error: "offline".to_owned() },
    );
    assert!(matches!(&items[0], TimelineItem::Local(e)
        if matches!(&e.send_state, EventSendState::SendingFailed { error } if error == "offline")));
}

#[test]
fn the_last_echo_is_the_one_that_is_looked_at() {
    // the server's copy stands behind the local event: nothing is written
    let mut items = vec![
        local("t1", EventSendState::NotSentYet),
        remote("$9", message("a", None)),
    ];
    update_event_send_state(&mut items, "t1", EventSendState::Sent { event_id: "$9".to_owned() });
    assert!(matches!(&items[0], TimelineItem::Local(e) if matches!(e.send_state, EventSendState::NotSentYet)));
    assert_eq!(kinds(&items), ["local t1", "remote $9"]);

    // the last of two local events with one transaction is rewritten
    let mut items = vec![local("t1", EventSendState::NotSentYet), local("t1", EventSendState::NotSentYet)];
    update_event_send_state(&mut items, "t1", EventSendState::SendingFailed { error: "e".to_owned() });
    assert!(matches!(&items[0], TimelineItem::Local(e) if matches!(e.send_state, EventSendState::NotSentYet)));
    assert!(matches!(&items[1], TimelineItem::Local(e) if matches!(e.send_state, EventSendState::SendingFailed { .. })));

    // an unknown transaction writes nothing
    let mut items = vec![local("t1", EventSendState::NotSentYet)];
    update_event_send_state(&mut items, "t7", EventSendState::Sent { event_id: "$1".to_owned() });
    assert!(matches!(&items[0], TimelineItem::Local(e) if matches!(e.send_state, EventSendState::NotSentYet)));
}

#[test]
fn profiles_that_are_not_at_hand_take_the_state() {
    let ready = TimelineItem::Remote(RemoteEvent {
        event_id: "$2".to_owned(),
        transaction_id: None,
        sender: "@bob:example.org".to_owned(),
        sender_profile: SenderProfile::Ready(profile("Bob")),
        content: message("b", None),
        is_own: false,
        raw: String::new(),
    });
    let mut items = vec![
        TimelineItem::LoadingIndicator,
        remote("$1", message("a", None)),
        ready,
        local("t1", EventSendState::NotSentYet),
    ];
    set_non_ready_sender_profiles(&mut items, &SenderProfile::Error("no network".to_owned()));
    assert_eq!(kinds(&items), ["loading", "remote $1", "remote $2", "local t1"]);
    assert!(matches!(&items[1], TimelineItem::Remote(e)
        if matches!(&e.sender_profile, SenderProfile::Error(error) if error == "no network")));
    assert!(matches!(&items[2], TimelineItem::Remote(e)
        if matches!(&e.sender_profile, SenderProfile::Ready(p) if p.display_name.as_deref() == Some("Bob"))));
    assert!(matches!(&items[3], TimelineItem::Local(e) if matches!(e.sender_profile, SenderProfile::Error(_))));
    set_non_ready_sender_profiles(&mut items, &SenderProfile::Pending);
    assert!(matches!(&items[1], TimelineItem::Remote(e) if matches!(e.sender_profile, SenderProfile::Pending)));
    assert!(matches!(&items[2], TimelineItem::Remote(e) if matches!(e.sender_profile, SenderProfile::Ready(_))));
}

#[test]
fn an_answer_on_a_profile_is_written_only_where_it_is_news() {
    let item = remote("$1", message("a", None));
    // unavailable, and the answer is that there is none
    assert!(with_profile_answer(&item, None).is_none());
    let written = with_profile_answer(&item, Some(profile("Bob"))).unwrap();
    assert!(matches!(&written, TimelineItem::Remote(e)
        if matches!(&e.sender_profile, SenderProfile::Ready(p) if p.display_name.as_deref() == Some("Bob"))));
    assert!(with_profile_answer(&written, Some(profile("Bob"))).is_none());
    assert!(with_profile_answer(&written, Some(profile("Robert"))).is_some());
    let gone = with_profile_answer(&written, None).unwrap();
    assert!(matches!(&gone, TimelineItem::Remote(e) if matches!(e.sender_profile, SenderProfile::Unavailable)));
    assert!(with_profile_answer(&TimelineItem::TimelineStart, Some(profile("Bob"))).is_none());
    let pending = local("t", EventSendState::NotSentYet);
    assert!(with_profile_answer(&pending, None).is_some());
}

#[test]
fn a_profile_is_made_of_what_the_room_knows() {
    let member = Member {
        display_name: Some("Bob".to_owned()),
        name_ambiguous: true,
        avatar_url: Some("mxc://avatar".to_owned()),
    };
    let known = profile_of(Ok(Some(member)), false).unwrap();
    assert_eq!(known.display_name.as_deref(), Some("Bob"));
    assert!(known.display_name_ambiguous);
    assert_eq!(known.avatar_url.as_deref(), Some("mxc://avatar"));

    let empty = profile_of(Ok(None), true).unwrap();
    assert!(empty.display_name.is_none());
    assert!(!empty.display_name_ambiguous);
    assert!(empty.avatar_url.is_none());

    assert!(profile_of(Ok(None), false).is_none());
    assert!(profile_of(Err(()), true).is_none());
    assert!(profile_of(Err(()), false).is_none());
}

#[test]
fn a_reply_to_an_event_of_the_timeline_is_known_at_once() {
    let mut items = vec![
        remote("$1", message("question", None)),
        remote("$2", message("answer", Some("$1"))),
    ];
    match reply_look_up(&mut items, "$2").unwrap() {
        ReplyStep::Known(ReplyDetails::Ready(event)) => {
            assert_eq!(event.body, "question");
            assert_eq!(event.sender, "@bob:example.org");
        }
        other => panic!("unexpected step {other:?}"),
    }
    // nothing was written yet
    assert!(matches!(&items[1], TimelineItem::Remote(e)
        if matches!(&e.content, Content::Message(m)
            if matches!(&m.in_reply_to, Some(r) if matches!(r.details, ReplyDetails::Unavailable)))));
}

#[test]
fn a_reply_to_an_event_of_another_kind_is_an_error() {
    let mut items = vec![
        remote("$1", Content::Other("m.sticker".to_owned())),
        remote("$2", message("answer", Some("$1"))),
    ];
    assert!(matches!(
        reply_look_up(&mut items, "$2").unwrap(),
        ReplyStep::Known(ReplyDetails::Error(TimelineError::UnsupportedEvent))
    ));
}

#[test]
fn a_reply_to_an_event_that_is_not_there_is_fetched() {
    let mut items = vec![remote("$2", message("answer", Some("$1")))];
    assert!(matches!(reply_look_up(&mut items, "$2").unwrap(), ReplyStep::Fetch(id) if id == "$1"));
    assert!(matches!(&items[0], TimelineItem::Remote(e)
        if matches!(&e.content, Content::Message(m)
            if m.body == "answer" && matches!(&m.in_reply_to, Some(r)
                if r.event_id == "$1" && matches!(r.details, ReplyDetails::Pending)))));
}

#[test]
fn an_event_that_replies_to_nothing_is_handed_back() {
    let mut items = vec![
        remote("$1", message("plain", None)),
        remote("$2", Content::Other("m.sticker".to_owned())),
    ];
    assert!(matches!(reply_look_up(&mut items, "$1").unwrap(), ReplyStep::Unchanged(e) if e.event_id == "$1"));
    assert!(matches!(reply_look_up(&mut items, "$2").unwrap(), ReplyStep::Unchanged(e) if e.event_id == "$2"));
    assert_eq!(kinds(&items), ["remote $1", "remote $2"]);
}

#[test]
fn a_reply_is_looked_up_on_remote_events_only() {
    let mut items = vec![local("t1", EventSendState::Sent { event_id: "$5".to_owned() })];
    assert_eq!(reply_look_up(&mut items, "$5").unwrap_err(), TimelineError::RemoteEventNotInTimeline);
    assert_eq!(reply_look_up(&mut items, "$6").unwrap_err(), TimelineError::RemoteEventNotInTimeline);
    assert_eq!(
        apply_reply_details(&mut items, "$5", ReplyDetails::Pending).unwrap_err(),
        TimelineError::RemoteEventNotInTimeline
    );
    assert_eq!(kinds(&items), ["local t1"]);
}

#[test]
fn reply_details_are_written_where_the_event_stands_now() {
    let mut items = vec![remote("$2", message("answer", Some("$1")))];
    assert!(matches!(reply_look_up(&mut items, "$2").unwrap(), ReplyStep::Fetch(_)));
    // the event moved while the replied-to event was fetched
    items.insert(0, TimelineItem::LoadingIndicator);
    let written = apply_reply_details(
        &mut items,
        "$2",
        ReplyDetails::FetchFailed("not found".to_owned()),
    )
    .unwrap();
    assert_eq!(written.event_id, "$2");
    assert!(matches!(&items[1], TimelineItem::Remote(e)
        if matches!(&e.content, Content::Message(m)
            if matches!(&m.in_reply_to, Some(r)
                if r.event_id == "$1" && matches!(&r.details, ReplyDetails::FetchFailed(error) if error == "not found")))));
    assert_eq!(kinds(&items), ["loading", "remote $2"]);
}

#[test]
fn reply_details_are_not_written_to_an_event_that_changed() {
    let mut items = vec![remote("$2", Content::Other("m.room.redaction".to_owned()))];
    let current = apply_reply_details(&mut items, "$2", ReplyDetails::Pending).unwrap();
    assert!(matches!(current.content, Content::Other(_)));
    assert!(matches!(&items[0], TimelineItem::Remote(e) if matches!(e.content, Content::Other(_))));
}

#[test]
fn a_fresh_timeline_is_empty_and_a_cleared_one_too() {
    let mut state = TimelineState::new();
    assert!(state.items.is_empty());
    assert!(state.reaction_map.is_empty());
    assert!(state.pending_reactions.is_empty());
    assert!(state.fully_read_event.is_none());
    assert!(!state.fully_read_event_in_timeline);

    state.items.push(TimelineItem::TimelineStart);
    state.items.push(remote("$1", message("a", None)));
    assert_eq!(kinds(&state.snapshot()), ["start", "remote $1"]);
    state.fully_read_event_in_timeline = true;
    assert!(state.set_fully_read_event("$1".to_owned()));
    state.clear();
    assert!(state.items.is_empty());
    assert!(state.fully_read_event.is_none());
    assert!(!state.fully_read_event_in_timeline);
    assert!(state.snapshot().is_empty());
}

#[test]
fn the_same_fully_read_event_changes_nothing() {
    let mut state = TimelineState::new();
    assert!(state.set_fully_read_event("$1".to_owned()));
    assert_eq!(state.fully_read_event.as_deref(), Some("$1"));
    assert!(!state.set_fully_read_event("$1".to_owned()));
    assert_eq!(state.fully_read_event.as_deref(), Some("$1"));
    assert!(state.set_fully_read_event("$2".to_owned()));
    assert_eq!(state.fully_read_event.as_deref(), Some("$2"));
    assert!(!state.handle_fully_read(None));
    assert_eq!(state.fully_read_event.as_deref(), Some("$2"));
    assert!(!state.handle_fully_read(Some("$2".to_owned())));
    assert!(state.handle_fully_read(Some("$3".to_owned())));
    assert_eq!(state.fully_read_event.as_deref(), Some("$3"));
}

fn parsed(sender: &str) -> ParsedEvent {
    ParsedEvent {
        event_id: "$1".to_owned(),
        sender: sender.to_owned(),
        origin_server_ts: 42,
        transaction_id: Some("t".to_owned()),
        relations: "{}".to_owned(),
    }
}

#[test]
fn an_event_enters_with_what_came_with_it() {
    let arrival = handle_remote_event(
        RawReading::Full { event: parsed("@alice:example.org"), content: "content".to_owned() },
        "raw".to_owned(),
        "@alice:example.org",
        Some(profile("Alice")),
        Some(EncryptionInfo { sender: "@alice:example.org".to_owned(), sender_device: "D".to_owned() }),
        TimelineItemPosition::Update(3),
    )
    .unwrap();
    assert!(arrival.metadata.is_own_event);
    assert_eq!(arrival.metadata.sender, "@alice:example.org");
    assert_eq!(arrival.metadata.relations, "{}");
    assert_eq!(arrival.metadata.sender_profile.unwrap().display_name.as_deref(), Some("Alice"));
    assert_eq!(arrival.metadata.encryption_info.unwrap().sender_device, "D");
    assert!(matches!(arrival.kind, EventKind::Parsed { content } if content == "content"));
    match arrival.flow {
        Flow::Remote { event_id, origin_server_ts, raw_event, transaction_id, position } => {
            assert_eq!(event_id, "$1");
            assert_eq!(origin_server_ts, 42);
            assert_eq!(raw_event, "raw");
            assert_eq!(transaction_id.as_deref(), Some("t"));
            assert_eq!(position, TimelineItemPosition::Update(3));
        }
        Flow::Local { .. } => panic!("the event is not local"),
    }
}

#[test]
fn an_event_that_could_be_read_in_part_enters_as_failed_to_parse() {
    let arrival = handle_live_event(
        RawReading::WithoutContent { event: parsed("@bob:example.org"), error: "bad".to_owned() },
        "raw".to_owned(),
        "@alice:example.org",
        None,
        None,
    )
    .unwrap();
    assert!(!arrival.metadata.is_own_event);
    assert!(matches!(arrival.kind, EventKind::FailedToParse { error } if error == "bad"));
    assert!(matches!(arrival.flow, Flow::Remote { position: TimelineItemPosition::End, .. }));
}

#[test]
fn an_event_that_could_not_be_read_does_not_enter() {
    assert!(handle_remote_event(
        RawReading::Unreadable,
        "raw".to_owned(),
        "@alice:example.org",
        None,
        None,
        TimelineItemPosition::End
    )
    .is_none());
    assert!(handle_live_event(RawReading::Unreadable, String::new(), "@a:b", None, None).is_none());
}

#[test]
fn a_back_paginated_event_enters_at_the_start() {
    let arrival = handle_back_paginated_event(
        RawReading::Full { event: parsed("@bob:example.org"), content: "c".to_owned() },
        "raw".to_owned(),
        "@alice:example.org",
        None,
        None,
    )
    .unwrap();
    assert!(matches!(arrival.flow, Flow::Remote { position: TimelineItemPosition::Start, .. }));
}

#[test]
fn a_local_event_is_the_users_own() {
    let (metadata, flow) =
        handle_local_event("txn".to_owned(), "@alice:example.org", Some(profile("Alice")), 77);
    assert_eq!(metadata.sender, "@alice:example.org");
    assert!(metadata.is_own_event);
    assert!(metadata.relations.is_empty());
    assert!(metadata.encryption_info.is_none());
    assert_eq!(metadata.sender_profile.unwrap().display_name.as_deref(), Some("Alice"));
    assert!(matches!(flow, Flow::Local { local_transaction_id, timestamp }
        if local_transaction_id == "txn" && timestamp == 77));
}

#[test]
fn a_room_list_entry_is_told_by_its_kind() {
    assert_eq!(easy(&RoomListEntry::Empty), RoomListEntryEasy::Empty);
    assert_eq!(easy(&RoomListEntry::Invalidated("!r".to_owned())), RoomListEntryEasy::Invalid);
    assert_eq!(easy(&RoomListEntry::Filled("!r".to_owned())), RoomListEntryEasy::Filled);
}
