use signal_mcp::base64::{base64_decode, base64_encode};
use signal_mcp::signal::{
    contact_to_store, content_to_event, group_master_key, group_message_sent, group_to_store,
    invalid_uuid, message_sent, received_to_event, store_contacts, store_groups, sync_next,
    sync_stored_contacts, sync_stored_groups, Content, ContentBody, DataMessage, Delivery,
    Received, Sent, SignalEvent, SyncAction, SyncEvent, SyncedContact, SyncedGroup,
    CONTACTS_TIMEOUT_SECS, CONTACTS_WAIT_SECS, GROUP_SEND_TIMEOUT_SECS, SEND_TIMEOUT_SECS,
};
use signal_mcp::storage::Storage;

fn content(body: ContentBody) -> Content {
    Content { sender_uuid: "me".to_string(), timestamp: 17, body }
}

fn sync_message(destination: Option<&str>, text: Option<&str>) -> ContentBody {
    ContentBody::SynchronizeMessage(Some(Sent {
        destination_service_id: destination.map(str::to_string),
        message: Some(DataMessage { body: text.map(str::to_string) }),
    }))
}

fn text_of(event: Option<SignalEvent>) -> Option<String> {
    match event {
        Some(SignalEvent::Message { sender_uuid, body, timestamp }) => {
            assert_eq!(sender_uuid, "me");
            assert_eq!(timestamp, 17);
            Some(body)
        }
        None => None,
        Some(other) => panic!("{other:?}"),
    }
}

#[test]
fn test_content_to_event_returns_none_for_empty() {
    let empty = content(ContentBody::DataMessage(DataMessage { body: None }));
    assert!(content_to_event(empty).is_none());
}

#[test]
fn a_text_message_is_an_event() {
    let message = content(ContentBody::DataMessage(DataMessage { body: Some("hi".to_string()) }));
    assert_eq!(text_of(content_to_event(message)), Some("hi".to_string()));
}

#[test]
fn a_note_to_self_is_an_event() {
    let note = content(sync_message(Some("me"), Some("remember")));
    assert_eq!(text_of(content_to_event(note)), Some("remember".to_string()));
}

#[test]
fn what_other_devices_sent_is_no_event() {
    assert!(content_to_event(content(sync_message(Some("you"), Some("hi")))).is_none());
    assert!(content_to_event(content(sync_message(None, Some("hi")))).is_none());
    assert!(content_to_event(content(sync_message(Some("me"), None))).is_none());
    assert!(content_to_event(content(ContentBody::SynchronizeMessage(None))).is_none());
    assert!(content_to_event(content(ContentBody::Other)).is_none());
}

#[test]
fn the_stream_tells_when_it_caught_up() {
    assert!(matches!(received_to_event(Received::QueueEmpty), Some(SignalEvent::QueueEmpty)));
    assert!(matches!(received_to_event(Received::Contacts), Some(SignalEvent::ContactsSync)));
    let message = content(ContentBody::DataMessage(DataMessage { body: Some("x".to_string()) }));
    assert_eq!(text_of(received_to_event(Received::Content(message))), Some("x".to_string()));
}

#[test]
fn sending_tells_the_time_unless_refused() {
    assert_eq!(message_sent(Delivery::Sent, 5), Ok(5));
    assert_eq!(message_sent(Delivery::TimedOut, 5), Ok(5));
    assert_eq!(
        message_sent(Delivery::Refused("gone".to_string()), 5),
        Err("Failed to send message: gone".to_string())
    );
    assert_eq!(group_message_sent(Delivery::TimedOut, 6), Ok(6));
    assert_eq!(
        group_message_sent(Delivery::Refused("gone".to_string()), 6),
        Err("Failed to send group message: gone".to_string())
    );
    assert_eq!(invalid_uuid("x"), "Invalid UUID: x");
    assert_eq!((SEND_TIMEOUT_SECS, GROUP_SEND_TIMEOUT_SECS, CONTACTS_TIMEOUT_SECS), (15, 120, 5));
}

#[test]
fn base64_of_known_texts() {
    for (plain, text) in [
        ("", ""),
        ("f", "Zg=="),
        ("fo", "Zm8="),
        ("foo", "Zm9v"),
        ("foob", "Zm9vYg=="),
        ("fooba", "Zm9vYmE="),
        ("foobar", "Zm9vYmFy"),
    ] {
        assert_eq!(base64_encode(plain.as_bytes()), text);
        assert_eq!(base64_decode(text).unwrap(), plain.as_bytes().to_vec());
    }
    assert_eq!(base64_encode(&[0xfb, 0xff, 0xfe]), "+//+");
}

#[test]
fn base64_comes_back() {
    for length in 0usize..100 {
        let data: Vec<u8> = (0..length).map(|i| (i * 37 + length) as u8).collect();
        assert_eq!(base64_decode(&base64_encode(&data)).unwrap(), data);
    }
}

#[test]
fn base64_reads_what_it_can() {
    // Without padding, and with characters that do not count.
    assert_eq!(base64_decode("Zg").unwrap(), b"f".to_vec());
    assert_eq!(base64_decode("Zm8").unwrap(), b"fo".to_vec());
    assert_eq!(base64_decode("Z-g-").unwrap(), b"f".to_vec());
    assert_eq!(base64_decode("Zm 9vYg").is_err(), false);
    // A character is known by its lowest byte.
    assert_eq!(base64_decode("\u{15a}g").unwrap(), b"f".to_vec());
    assert!(base64_decode("Z").is_err());
    assert!(base64_decode("Zm9vY").is_err());
    assert!(base64_decode("----").is_err());
    assert!(base64_decode("=").unwrap().is_empty());
}

#[test]
fn group_ids_lead_to_master_keys() {
    let key: Vec<u8> = (0..32).collect();
    assert_eq!(group_master_key(&base64_encode(&key)).unwrap(), key);
    assert_eq!(
        group_master_key("!").unwrap_err(),
        "Invalid group ID (not valid base64): !"
    );
    assert_eq!(
        group_master_key("Zm9v").unwrap_err(),
        "Invalid group master key length: expected 32 bytes, got 3"
    );
}

fn alice() -> SyncedContact {
    SyncedContact {
        uuid: "u1".to_string(),
        phone: Some("+1".to_string()),
        name: "Alice".to_string(),
    }
}

#[test]
fn synced_entries_are_stored_with_their_names() {
    let contact = contact_to_store(alice());
    assert_eq!(contact.uuid, "u1");
    assert_eq!(contact.phone, Some("+1".to_string()));
    assert_eq!(contact.name, Some("Alice".to_string()));
    let nameless =
        contact_to_store(SyncedContact { uuid: "u2".to_string(), phone: None, name: String::new() });
    assert_eq!(nameless.name, None);
    let group = group_to_store(SyncedGroup {
        master_key: b"foo".to_vec(),
        title: String::new(),
        members_count: 3,
    });
    assert_eq!(group.id, "Zm9v");
    assert_eq!(group.name, None);
    assert_eq!(group.members_count, 3);
}

#[test]
fn synced_entries_are_counted() {
    let mut storage = Storage::open(std::path::Path::new(":memory:")).unwrap();
    let entries = vec![Ok(alice()), Err("unreadable".to_string()), Ok(alice())];
    assert_eq!(store_contacts(&mut storage, entries), 2);
    assert_eq!(storage.list_contacts(None).unwrap().len(), 1);
    let group = SyncedGroup {
        master_key: b"foo".to_vec(),
        title: "Friends".to_string(),
        members_count: 3,
    };
    assert_eq!(store_groups(&mut storage, vec![Err("bad".to_string()), Ok(group)]), 1);
    let groups = storage.list_groups(None).unwrap();
    assert_eq!(groups.len(), 1);
    assert_eq!(groups[0].id, "Zm9v");
    assert_eq!(groups[0].members_count, 3);
}

#[test]
fn a_sync_without_entries_says_why() {
    let mut storage = Storage::open(std::path::Path::new(":memory:")).unwrap();
    assert_eq!(
        sync_stored_contacts(&mut storage, Err("locked".to_string())),
        Err("Failed to get contacts from store: locked".to_string())
    );
    assert_eq!(
        sync_stored_groups(&mut storage, Err("locked".to_string())),
        Err("Failed to get groups from store: locked".to_string())
    );
    assert_eq!(sync_stored_contacts(&mut storage, Ok(vec![Ok(alice())])), Ok(1));
    assert_eq!(sync_stored_groups(&mut storage, Ok(vec![])), Ok(0));
}

#[test]
fn a_sync_waits_for_the_contacts() {
    assert_eq!(CONTACTS_WAIT_SECS, 30);
    assert!(matches!(sync_next(SyncEvent::Asked), SyncAction::StartReceiving));
    assert!(matches!(sync_next(SyncEvent::NotAsked), SyncAction::Read));
    assert!(matches!(sync_next(SyncEvent::Receiving), SyncAction::Wait));
    assert!(matches!(sync_next(SyncEvent::NotReceiving), SyncAction::Read));
    let message = SignalEvent::Message {
        sender_uuid: "u1".to_string(),
        body: "x".to_string(),
        timestamp: 1,
    };
    assert!(matches!(
        sync_next(SyncEvent::Received(message)),
        SyncAction::Store(SignalEvent::Message { body, .. }) if body == "x"
    ));
    assert!(matches!(
        sync_next(SyncEvent::Received(SignalEvent::QueueEmpty)),
        SyncAction::Store(SignalEvent::QueueEmpty)
    ));
    assert!(matches!(sync_next(SyncEvent::Stored), SyncAction::Wait));
    assert!(matches!(
        sync_next(SyncEvent::Received(SignalEvent::ContactsSync)),
        SyncAction::Read
    ));
    assert!(matches!(sync_next(SyncEvent::TimeOver), SyncAction::Read));
}
