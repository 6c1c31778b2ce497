use signal_mcp::json::Json;
use signal_mcp::json_text::compact_text;
use signal_mcp::methods::{
    contact_found, contacts_found, conversations_found, find_recipient, finish_send_message,
    finish_send_message_direct, groups_found, messages_found, recipient_found,
    rpc_get_conversations, rpc_get_messages, rpc_get_status, rpc_list_contacts, rpc_list_groups,
    rpc_send_message, rpc_sync_contacts, status_found, sync_contacts_direct, text_content,
    GetMessagesParams, ManagerCommand, Outgoing, Reply, ResolvedRecipient, SendMessageParams,
    SyncResult,
};
use signal_mcp::rpc::{JsonRpcError, Outcome};
use signal_mcp::storage::{Contact, Conversation, Group, Message, Storage, StorageError};

fn store() -> Storage {
    let mut storage = Storage::open(std::path::Path::new(":memory:")).unwrap();
    storage
        .upsert_contact(&Contact {
            uuid: "u1".to_string(),
            phone: Some("+100".to_string()),
            name: Some("Alice".to_string()),
        })
        .unwrap();
    storage
        .upsert_group(&Group {
            id: "Zm9v".to_string(),
            name: Some("Friends".to_string()),
            members_count: 3,
        })
        .unwrap();
    storage
}

fn ok(outcome: Outcome) -> String {
    compact_text(&outcome.unwrap())
}

fn bad<T>(outcome: Result<T, JsonRpcError>) -> (i32, String) {
    match outcome {
        Ok(_) => panic!(),
        Err(e) => (e.code, e.message),
    }
}

fn trouble() -> StorageError {
    StorageError { message: "disk on fire".to_string() }
}

fn send_params(recipient: &str) -> Option<Result<SendMessageParams, String>> {
    Some(Ok(SendMessageParams { recipient: recipient.to_string(), message: "hi".to_string() }))
}

fn to_contact() -> Outgoing {
    Outgoing { recipient: ResolvedRecipient::Contact("u1".to_string()), message: "hi".to_string() }
}

fn to_group() -> Outgoing {
    Outgoing { recipient: ResolvedRecipient::Group("Zm9v".to_string()), message: "hi".to_string() }
}

#[test]
fn contacts_are_told_in_json() {
    let mut storage = store();
    assert_eq!(
        ok(rpc_list_contacts(None, &mut storage)),
        "[{\"name\":\"Alice\",\"phone\":\"+100\",\"uuid\":\"u1\"}]"
    );
    assert_eq!(ok(rpc_list_contacts(Some("zzz".to_string()), &mut storage)), "[]");
    let nameless = Contact { uuid: "u".to_string(), phone: None, name: None };
    assert_eq!(
        ok(contacts_found(Ok(vec![nameless]))),
        "[{\"name\":null,\"phone\":null,\"uuid\":\"u\"}]"
    );
    assert_eq!(
        bad(contacts_found(Err(trouble()))),
        (-32000, "Failed to list contacts: disk on fire".to_string())
    );
}

#[test]
fn groups_are_told_in_json() {
    let mut storage = store();
    assert_eq!(
        ok(rpc_list_groups(None, &mut storage)),
        "[{\"id\":\"Zm9v\",\"members_count\":3,\"name\":\"Friends\"}]"
    );
    assert_eq!(ok(rpc_list_groups(Some("zzz".to_string()), &mut storage)), "[]");
    assert_eq!(
        bad(groups_found(Err(trouble()))),
        (-32000, "Failed to list groups: disk on fire".to_string())
    );
}

#[test]
fn messages_are_told_in_json() {
    let mut storage = store();
    storage
        .insert_message(&Message {
            id: 0,
            contact_uuid: "u1".to_string(),
            direction: "in".to_string(),
            body: "hello".to_string(),
            timestamp: 5,
        })
        .unwrap();
    let params = GetMessagesParams { contact: "alice".to_string(), limit: None, before: None };
    assert_eq!(
        ok(rpc_get_messages(Some(Ok(params)), &mut storage)),
        "[{\"body\":\"hello\",\"contact_uuid\":\"u1\",\"direction\":\"in\",\"id\":1,\"timestamp\":5}]"
    );
    let params = GetMessagesParams { contact: "alice".to_string(), limit: Some(0), before: None };
    assert_eq!(ok(rpc_get_messages(Some(Ok(params)), &mut storage)), "[]");
    assert_eq!(
        bad(messages_found(Err(trouble()))),
        (-32000, "Failed to get messages: disk on fire".to_string())
    );
}

#[test]
fn fifty_messages_are_read_where_no_limit_is_given() {
    let mut storage = store();
    for n in 0i64..60 {
        storage
            .insert_message(&Message {
                id: 0,
                contact_uuid: "u1".to_string(),
                direction: "in".to_string(),
                body: n.to_string(),
                timestamp: n,
            })
            .unwrap();
    }
    let params = GetMessagesParams { contact: "Alice".to_string(), limit: None, before: None };
    let outcome = rpc_get_messages(Some(Ok(params)), &mut storage).unwrap();
    let items = outcome.as_array().unwrap();
    assert_eq!(items.len(), 50);
    assert_eq!(items[0].get("body").unwrap().as_str(), Some("10"));
    assert_eq!(items[49].get("body").unwrap().as_str(), Some("59"));
}

#[test]
fn messages_need_a_contact_that_is_known() {
    let mut storage = store();
    let params = GetMessagesParams { contact: "nobody".to_string(), limit: None, before: None };
    assert_eq!(
        bad(rpc_get_messages(Some(Ok(params)), &mut storage)),
        (-32000, "Could not resolve contact: nobody".to_string())
    );
    assert_eq!(
        bad(rpc_get_messages(None, &mut storage)),
        (-32602, "Missing params".to_string())
    );
    assert_eq!(
        bad(rpc_get_messages(Some(Err("odd".to_string())), &mut storage)),
        (-32602, "Invalid params: odd".to_string())
    );
    assert_eq!(
        bad(contact_found("x", Err(trouble()))),
        (-32000, "Error resolving contact: disk on fire".to_string())
    );
    assert_eq!(contact_found("x", Ok(Some("u".to_string()))).unwrap(), "u");
}

#[test]
fn conversations_are_told_in_json() {
    let mut storage = store();
    assert_eq!(ok(rpc_get_conversations(20, &mut storage)), "[]");
    let conversation = Conversation {
        contact: Contact { uuid: "u1".to_string(), phone: None, name: Some("Alice".to_string()) },
        last_message: "bye".to_string(),
        last_timestamp: 9,
        unread_count: 2,
    };
    let outcome = conversations_found(Ok(vec![conversation])).unwrap();
    let told = &outcome.as_array().unwrap()[0];
    assert_eq!(told.get("last_message").unwrap().as_str(), Some("bye"));
    assert_eq!(told.get("last_timestamp").unwrap().as_u64(), Some(9));
    assert_eq!(told.get("unread_count").unwrap().as_u64(), Some(2));
    assert_eq!(
        compact_text(told.get("contact").unwrap()),
        "{\"name\":\"Alice\",\"phone\":null,\"uuid\":\"u1\"}"
    );
    assert_eq!(
        bad(conversations_found(Err(trouble()))),
        (-32000, "Failed to get conversations: disk on fire".to_string())
    );
}

#[test]
fn the_status_names_the_account_and_counts_the_contacts() {
    let mut storage = store();
    assert_eq!(
        ok(rpc_get_status("me", &mut storage)),
        "{\"account\":\"me\",\"connected\":true,\"contacts_count\":1}"
    );
    assert_eq!(
        ok(status_found("me", Ok(vec![]))),
        "{\"account\":\"me\",\"connected\":true,\"contacts_count\":0}"
    );
    assert_eq!(
        bad(status_found("me", Err(trouble()))),
        (-32000, "disk on fire".to_string())
    );
}

#[test]
fn messages_are_read_from_before_a_time() {
    let mut storage = store();
    for n in 0i64..5 {
        storage
            .insert_message(&Message {
                id: 0,
                contact_uuid: "u1".to_string(),
                direction: "in".to_string(),
                body: n.to_string(),
                timestamp: n,
            })
            .unwrap();
    }
    let bodies = |before: Option<i64>, limit: Option<i64>, storage: &mut Storage| {
        let params = GetMessagesParams { contact: "Alice".to_string(), limit, before };
        let outcome = rpc_get_messages(Some(Ok(params)), storage).unwrap();
        let items = outcome.as_array().unwrap();
        items
            .iter()
            .map(|item| item.get("body").unwrap().as_str().unwrap().to_string())
            .collect::<Vec<String>>()
    };
    assert_eq!(bodies(Some(3), None, &mut storage), vec!["0", "1", "2"]);
    assert_eq!(bodies(Some(3), Some(2), &mut storage), vec!["1", "2"]);
    assert!(bodies(Some(0), None, &mut storage).is_empty());
    assert_eq!(bodies(None, None, &mut storage).len(), 5);
}

#[test]
fn recipients_are_contacts_before_groups() {
    let mut storage = store();
    let found = find_recipient("Alice", &mut storage).unwrap();
    assert!(matches!(found, ResolvedRecipient::Contact(uuid) if uuid == "u1"));
    let found = find_recipient("friends", &mut storage).unwrap();
    assert!(matches!(found, ResolvedRecipient::Group(id) if id == "Zm9v"));
    assert_eq!(
        bad(find_recipient("nobody", &mut storage)),
        (-32000, "Could not resolve recipient: nobody".to_string())
    );
    // A contact that bears the name of a group comes first.
    storage
        .upsert_contact(&Contact {
            uuid: "u2".to_string(),
            phone: None,
            name: Some("Friends".to_string()),
        })
        .unwrap();
    let found = find_recipient("friends", &mut storage).unwrap();
    assert!(matches!(found, ResolvedRecipient::Contact(uuid) if uuid == "u2"));
}

#[test]
fn a_search_that_fails_is_told() {
    let error = (-32000, "Error resolving recipient: disk on fire".to_string());
    assert_eq!(bad(recipient_found("x", Err(trouble()), Ok(None))), error);
    assert_eq!(bad(recipient_found("x", Ok(None), Err(trouble()))), error);
    let found = recipient_found("x", Ok(Some("u".to_string())), Err(trouble())).unwrap();
    assert!(matches!(found, ResolvedRecipient::Contact(uuid) if uuid == "u"));
}

#[test]
fn messages_are_made_ready() {
    let mut storage = store();
    let ready = rpc_send_message(send_params("+100"), &mut storage).unwrap();
    assert_eq!(ready.message, "hi");
    assert!(matches!(
        ready.command(),
        ManagerCommand::SendMessage { recipient_uuid, message }
            if recipient_uuid == "u1" && message == "hi"
    ));
    let ready = rpc_send_message(send_params("Friends"), &mut storage).unwrap();
    assert!(matches!(
        ready.command(),
        ManagerCommand::SendGroupMessage { group_id, message }
            if group_id == "Zm9v" && message == "hi"
    ));
    assert_eq!(
        bad(rpc_send_message(send_params("nobody"), &mut storage)),
        (-32000, "Could not resolve recipient: nobody".to_string())
    );
    assert_eq!(
        bad(rpc_send_message(None, &mut storage)),
        (-32602, "Missing params".to_string())
    );
    assert_eq!(
        bad(rpc_send_message(Some(Err("odd".to_string())), &mut storage)),
        (-32602, "Invalid params: odd".to_string())
    );
}

#[test]
fn a_message_to_a_contact_is_kept() {
    let mut storage = store();
    assert_eq!(
        ok(finish_send_message(to_contact(), Reply::Answered(Ok(77)), &mut storage)),
        "{\"recipient_uuid\":\"u1\",\"success\":true,\"timestamp\":77}"
    );
    let messages = storage.get_messages("u1", 50).unwrap();
    assert_eq!(messages.len(), 1);
    assert_eq!(messages[0].direction, "out");
    assert_eq!(messages[0].body, "hi");
    assert_eq!(messages[0].timestamp, 77);
}

#[test]
fn a_message_to_a_group_is_not_kept() {
    let mut storage = store();
    assert_eq!(
        ok(finish_send_message(to_group(), Reply::Answered(Ok(78)), &mut storage)),
        "{\"group_id\":\"Zm9v\",\"success\":true,\"timestamp\":78}"
    );
    assert!(storage.get_messages("Zm9v", 50).unwrap().is_empty());
    assert!(storage.get_conversations(50).unwrap().is_empty());
}

#[test]
fn a_message_that_cannot_be_kept_is_sent_all_the_same() {
    let mut storage = Storage::open(std::path::Path::new(":memory:")).unwrap();
    assert_eq!(
        ok(finish_send_message(to_contact(), Reply::Answered(Ok(1)), &mut storage)),
        "{\"recipient_uuid\":\"u1\",\"success\":true,\"timestamp\":1}"
    );
    assert!(storage.get_messages("u1", 50).unwrap().is_empty());
}

#[test]
fn a_message_that_was_not_sent_is_not_kept() {
    let mut storage = store();
    assert_eq!(
        bad(finish_send_message(to_contact(), Reply::ShuttingDown, &mut storage)),
        (-32000, "Server shutting down".to_string())
    );
    assert_eq!(
        bad(finish_send_message(to_contact(), Reply::ChannelClosed, &mut storage)),
        (-32000, "Server error: channel closed".to_string())
    );
    let refused = Reply::Answered(Err("no".to_string()));
    assert_eq!(
        bad(finish_send_message(to_contact(), refused, &mut storage)),
        (-32000, "Failed to send message: no".to_string())
    );
    assert!(storage.get_messages("u1", 50).unwrap().is_empty());
}

#[test]
fn a_message_sent_directly_is_told() {
    let mut storage = store();
    assert_eq!(
        ok(finish_send_message_direct(to_contact(), Ok(5), &mut storage)),
        "{\"recipient\":\"u1\",\"success\":true,\"timestamp\":5}"
    );
    assert_eq!(storage.get_messages("u1", 50).unwrap().len(), 1);
    assert_eq!(
        ok(finish_send_message_direct(to_group(), Ok(6), &mut storage)),
        "{\"recipient\":\"Zm9v\",\"success\":true,\"timestamp\":6}"
    );
    assert_eq!(
        bad(finish_send_message_direct(to_contact(), Err("no".to_string()), &mut storage)),
        (-32000, "Failed to send message: no".to_string())
    );
    assert_eq!(
        bad(finish_send_message_direct(to_group(), Err("no".to_string()), &mut storage)),
        (-32000, "Failed to send group message: no".to_string())
    );
    assert_eq!(storage.get_messages("u1", 50).unwrap().len(), 1);
}

#[test]
fn a_sync_is_told() {
    let synced = || SyncResult { contacts_count: 12, groups_count: 3 };
    assert_eq!(
        ok(rpc_sync_contacts(Reply::Answered(Ok(synced())))),
        "{\"contacts_count\":12,\"groups_count\":3,\"message\":\"Synced 12 contacts and 3 groups\",\"success\":true}"
    );
    assert_eq!(
        bad(rpc_sync_contacts(Reply::Answered(Err("no".to_string())))),
        (-32000, "Failed to request contacts sync: no".to_string())
    );
    assert_eq!(
        bad(rpc_sync_contacts(Reply::ShuttingDown)),
        (-32000, "Server shutting down".to_string())
    );
    assert_eq!(
        bad(rpc_sync_contacts(Reply::ChannelClosed)),
        (-32000, "Server error: channel closed".to_string())
    );
    assert_eq!(
        ok(sync_contacts_direct(Ok(synced()))),
        "{\"contacts_synced\":12,\"groups_synced\":3,\"success\":true}"
    );
    assert_eq!(
        bad(sync_contacts_direct(Err("no".to_string()))),
        (-32000, "Failed to sync contacts: no".to_string())
    );
}

#[test]
fn a_text_is_made_content() {
    assert_eq!(
        compact_text(&text_content("a\"b")),
        "{\"content\":[{\"text\":\"a\\\"b\",\"type\":\"text\"}]}"
    );
    assert!(Json::object().get("content").is_none());
}
