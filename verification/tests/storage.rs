use signal_mcp::storage::{
    chronological, is_phone_form, is_uuid_form, Contact, Group, Message, Storage,
};

const UUID: &str = "01234567-89ab-cdef-0123-456789abcdef";

fn store() -> Storage {
    Storage::open(std::path::Path::new(":memory:")).unwrap()
}

fn contact(uuid: &str, phone: Option<&str>, name: Option<&str>) -> Contact {
    Contact {
        uuid: uuid.to_string(),
        phone: phone.map(str::to_string),
        name: name.map(str::to_string),
    }
}

fn message(uuid: &str, direction: &str, body: &str, timestamp: i64) -> Message {
    Message {
        id: 0,
        contact_uuid: uuid.to_string(),
        direction: direction.to_string(),
        body: body.to_string(),
        timestamp,
    }
}

fn filled() -> Storage {
    let mut storage = store();
    storage.upsert_contact(&contact("u1", Some("+100"), Some("Alice"))).unwrap();
    storage.upsert_contact(&contact("u2", Some("+200"), Some("Bob"))).unwrap();
    storage
}

#[test]
fn a_store_that_cannot_be_opened_says_why() {
    let result = Storage::open(std::path::Path::new("/nonexistent/directory/file.db"));
    match result {
        Ok(_) => panic!(),
        Err(e) => assert!(e.message.contains("unable to open database file"), "{}", e.message),
    }
}

#[test]
fn contacts_are_listed_by_name() {
    let mut storage = filled();
    storage.upsert_contact(&contact("u0", None, Some("Carol"))).unwrap();
    let uuids: Vec<String> =
        storage.list_contacts(None).unwrap().into_iter().map(|c| c.uuid).collect();
    assert_eq!(uuids, vec!["u1", "u2", "u0"]);
}

#[test]
fn contacts_are_filtered_by_name_or_phone() {
    let mut storage = filled();
    let by_name = storage.list_contacts(Some("lic")).unwrap();
    assert_eq!(by_name.len(), 1);
    assert_eq!(by_name[0].uuid, "u1");
    assert_eq!(by_name[0].phone, Some("+100".to_string()));
    let by_phone = storage.list_contacts(Some("20")).unwrap();
    assert_eq!(by_phone.len(), 1);
    assert_eq!(by_phone[0].name, Some("Bob".to_string()));
    assert!(storage.list_contacts(Some("zzz")).unwrap().is_empty());
}

#[test]
fn what_a_new_contact_does_not_know_stays() {
    let mut storage = filled();
    storage.upsert_contact(&contact("u1", None, None)).unwrap();
    storage.upsert_contact(&contact("u2", None, Some("Robert"))).unwrap();
    let contacts = storage.list_contacts(None).unwrap();
    assert_eq!(contacts.len(), 2);
    assert_eq!(contacts[0].name, Some("Alice".to_string()));
    assert_eq!(contacts[0].phone, Some("+100".to_string()));
    assert_eq!(contacts[1].name, Some("Robert".to_string()));
    assert_eq!(contacts[1].phone, Some("+200".to_string()));
}

#[test]
fn the_latest_messages_come_in_time_order() {
    let mut storage = filled();
    for (body, timestamp) in [("b", 20), ("d", 40), ("a", 10), ("c", 30)] {
        storage.insert_message(&message("u1", "in", body, timestamp)).unwrap();
    }
    storage.insert_message(&message("u2", "in", "x", 99)).unwrap();
    let bodies = |messages: Vec<Message>| -> Vec<String> {
        messages.into_iter().map(|m| m.body).collect()
    };
    assert_eq!(bodies(storage.get_messages("u1", 3).unwrap()), vec!["b", "c", "d"]);
    assert_eq!(bodies(storage.get_messages("u1", 50).unwrap()), vec!["a", "b", "c", "d"]);
    assert_eq!(bodies(storage.get_messages("u1", -1).unwrap()).len(), 4);
    assert!(storage.get_messages("u1", 0).unwrap().is_empty());
    assert!(storage.get_messages("u3", 50).unwrap().is_empty());
}

#[test]
fn messages_get_their_ids_from_the_store() {
    let mut storage = filled();
    let first = storage.insert_message(&message("u1", "in", "a", 1)).unwrap();
    let second = storage.insert_message(&message("u1", "out", "b", 2)).unwrap();
    let messages = storage.get_messages("u1", 50).unwrap();
    assert_eq!(messages[0].id, first);
    assert_eq!(messages[1].id, second);
    assert_ne!(first, second);
    assert_eq!(messages[1].direction, "out");
    assert_eq!(messages[1].contact_uuid, "u1");
}

#[test]
fn a_message_needs_its_contact() {
    let mut storage = store();
    let error = storage.insert_message(&message("u1", "in", "a", 1)).unwrap_err();
    assert_eq!(error.message, "FOREIGN KEY constraint failed");
}

#[test]
fn recipients_are_resolved_in_order() {
    let mut storage = filled();
    // A UUID stands for itself, known or not.
    assert_eq!(storage.resolve_recipient(UUID).unwrap(), Some(UUID.to_string()));
    assert_eq!(storage.resolve_recipient("+200").unwrap(), Some("u2".to_string()));
    assert_eq!(storage.resolve_recipient("alice").unwrap(), Some("u1".to_string()));
    assert_eq!(storage.resolve_recipient("ALICE").unwrap(), Some("u1".to_string()));
    assert_eq!(storage.resolve_recipient("+300").unwrap(), None);
    assert_eq!(storage.resolve_recipient("nobody").unwrap(), None);
    assert_eq!(storage.resolve_recipient("").unwrap(), None);
    // A number that nobody has may be a name.
    storage.upsert_contact(&contact("u3", None, Some("+300"))).unwrap();
    assert_eq!(storage.resolve_recipient("+300").unwrap(), Some("u3".to_string()));
}

#[test]
fn uuids_are_known_by_their_form() {
    assert!(is_uuid_form(UUID));
    assert!(is_uuid_form("----xxxxxxxxxxxxxxxxxxxxxxxxxxxxxxxx"));
    assert!(!is_uuid_form("0123456789abcdef0123456789abcdef0123"));
    assert!(!is_uuid_form("01234567-89ab-cdef-0123-456789abcde"));
    // The length counts bytes.
    assert!(!is_uuid_form("ä1234567-89ab-cdef-0123-456789abcdef"));
    assert!(is_uuid_form("ä234567-89ab-cdef-0123-456789abcdef"));
    assert!(is_phone_form("+1"));
    assert!(!is_phone_form("1+"));
    assert!(!is_phone_form(""));
}

#[test]
fn groups_are_found_by_id_or_name() {
    let mut storage = store();
    let group =
        Group { id: "Zm9v".to_string(), name: Some("Friends".to_string()), members_count: 3 };
    storage.upsert_group(&group).unwrap();
    assert_eq!(storage.find_group("Zm9v").unwrap(), Some("Zm9v".to_string()));
    assert_eq!(storage.find_group("friends").unwrap(), Some("Zm9v".to_string()));
    assert_eq!(storage.find_group("foes").unwrap(), None);
    let renamed = Group { id: "Zm9v".to_string(), name: None, members_count: 4 };
    storage.upsert_group(&renamed).unwrap();
    let groups = storage.list_groups(Some("rien")).unwrap();
    assert_eq!(groups.len(), 1);
    assert_eq!(groups[0].name, Some("Friends".to_string()));
    assert_eq!(groups[0].members_count, 4);
    assert_eq!(storage.list_groups(None).unwrap().len(), 1);
    assert!(storage.list_groups(Some("zzz")).unwrap().is_empty());
}

#[test]
fn conversations_come_with_the_latest_first() {
    let mut storage = filled();
    storage.insert_message(&message("u1", "in", "old", 10)).unwrap();
    storage.insert_message(&message("u1", "in", "new", 30)).unwrap();
    storage.insert_message(&message("u2", "out", "mine", 20)).unwrap();
    let conversations = storage.get_conversations(20).unwrap();
    assert_eq!(conversations.len(), 2);
    assert_eq!(conversations[0].contact.uuid, "u1");
    assert_eq!(conversations[0].contact.name, Some("Alice".to_string()));
    assert_eq!(conversations[0].last_message, "new");
    assert_eq!(conversations[0].last_timestamp, 30);
    assert_eq!(conversations[0].unread_count, 2);
    assert_eq!(conversations[1].contact.uuid, "u2");
    assert_eq!(conversations[1].unread_count, 0);
    assert_eq!(storage.get_conversations(1).unwrap().len(), 1);
    assert!(storage.get_conversations(0).unwrap().is_empty());
}

#[test]
fn rows_are_turned_around() {
    let rows = vec![message("u", "in", "b", 2), message("u", "in", "a", 1)];
    let turned = chronological(rows);
    assert_eq!(turned.len(), 2);
    assert_eq!(turned[0].body, "a");
    assert_eq!(turned[1].body, "b");
    assert!(chronological(vec![]).is_empty());
}

#[test]
fn a_connection_that_failed_makes_no_store() {
    let cause = rusqlite::Error::InvalidQuery;
    let message = cause.to_string();
    match Storage::on(Err(cause)) {
        Ok(_) => panic!(),
        Err(e) => assert_eq!(e.message, message),
    }
    let connection = rusqlite::Connection::open_in_memory();
    assert!(Storage::on(connection).unwrap().list_contacts(None).unwrap().is_empty());
}

#[test]
fn messages_from_before_a_time_come_in_time_order() {
    let mut storage = filled();
    for timestamp in [20, 40, 10, 30] {
        storage.insert_message(&message("u1", "in", "m", timestamp)).unwrap();
    }
    let times = |messages: Vec<Message>| -> Vec<i64> {
        messages.into_iter().map(|m| m.timestamp).collect()
    };
    assert_eq!(times(storage.get_messages_before("u1", 40, 2).unwrap()), vec![20, 30]);
    assert_eq!(times(storage.get_messages_before("u1", 41, -1).unwrap()), vec![10, 20, 30, 40]);
    assert!(storage.get_messages_before("u1", 10, 50).unwrap().is_empty());
    assert!(storage.get_messages_before("u2", 99, 50).unwrap().is_empty());
}

#[test]
fn a_store_whose_tables_cannot_be_made_says_why() {
    let connection = rusqlite::Connection::open_in_memory().unwrap();
    connection.execute_batch("CREATE VIEW messages AS SELECT 1;").unwrap();
    match Storage::on(Ok(connection)) {
        Ok(_) => panic!(),
        Err(e) => assert!(e.message.contains("view"), "{}", e.message),
    }
}
