use signal_mcp::client::{
    contacts_report, finish_call, groups_report, sent_report, status_report, sync_notice,
    sync_report, Call, CallEvent, Client, CONNECT_TIMEOUT_SECS,
};
use signal_mcp::dispatch::{handle_request, Action, Plan, Shape};
use signal_mcp::json::Json;
use signal_mcp::json_text::compact_text;
use signal_mcp::methods::status_found;
use signal_mcp::paths::{log_file, message_store, pid_file, signal_store, socket};
use signal_mcp::rpc::{tell, JsonRpcError, JsonRpcRequest, Outcome};

fn client() -> Client {
    Client::new(std::path::Path::new("/home/a/.config/signal-mcp"))
}

#[test]
fn files_are_in_the_configuration_directory() {
    let dir = std::path::Path::new("/c");
    assert_eq!(signal_store(dir), std::path::PathBuf::from("/c/signal.db"));
    assert_eq!(message_store(dir), std::path::PathBuf::from("/c/signal-mcp.db"));
    assert_eq!(socket(dir), std::path::PathBuf::from("/c/signal-mcp.sock"));
    assert_eq!(pid_file(dir), std::path::PathBuf::from("/c/signal-mcp.pid"));
    assert_eq!(log_file(dir), std::path::PathBuf::from("/c/signal-mcp.log"));
    assert_eq!(
        client().socket_path(),
        &std::path::PathBuf::from("/home/a/.config/signal-mcp/signal-mcp.sock")
    );
}

fn shown(call: &Call) -> (String, String, u64) {
    assert_eq!(call.jsonrpc, "2.0");
    assert_eq!(call.id, 1);
    (call.method.clone(), compact_text(&call.params), call.timeout_secs)
}

#[test]
fn calls_say_what_is_asked() {
    let client = client();
    assert_eq!(
        shown(&client.send_message("Alice", "hi")),
        (
            "send_message".to_string(),
            "{\"message\":\"hi\",\"recipient\":\"Alice\"}".to_string(),
            120
        )
    );
    assert_eq!(shown(&client.status()), ("get_status".to_string(), "{}".to_string(), 30));
    assert_eq!(
        shown(&client.list_contacts(Some("al"))),
        ("list_contacts".to_string(), "{\"filter\":\"al\"}".to_string(), 30)
    );
    assert_eq!(
        shown(&client.list_groups(None)),
        ("list_groups".to_string(), "{\"filter\":null}".to_string(), 30)
    );
    assert_eq!(
        shown(&client.sync_contacts()),
        ("sync_contacts".to_string(), "{}".to_string(), 30)
    );
    assert_eq!(CONNECT_TIMEOUT_SECS, 5);
}

fn planned(call: Call) -> Plan {
    handle_request(JsonRpcRequest {
        jsonrpc: call.jsonrpc,
        id: Some(Json::unsigned(call.id as u64)),
        method: call.method,
        params: Some(call.params),
    })
}

#[test]
fn the_server_knows_what_the_client_asks() {
    let client = client();
    assert!(matches!(
        planned(client.send_message("a", "b")),
        Plan::ReadArguments { shape: Shape::SendMessage, .. }
    ));
    assert!(matches!(
        planned(client.list_contacts(None)),
        Plan::ReadArguments { shape: Shape::ListContacts, .. }
    ));
    assert!(matches!(
        planned(client.list_groups(None)),
        Plan::ReadArguments { shape: Shape::ListGroups, .. }
    ));
    assert!(matches!(
        planned(client.status()),
        Plan::Perform { action: Action::GetStatus, .. }
    ));
    assert!(matches!(
        planned(client.sync_contacts()),
        Plan::Perform { action: Action::SyncContacts, .. }
    ));
}

fn heard(outcome: Outcome) -> Result<String, String> {
    let response = tell(Some(Json::unsigned(1)), outcome);
    let event = CallEvent::Answered {
        result: response.result,
        error: response.error.map(|e| e.message),
    };
    finish_call(event).map(|result| compact_text(&result))
}

#[test]
fn the_client_hears_what_the_server_tells() {
    assert_eq!(heard(Ok(Json::unsigned(5))), Ok("5".to_string()));
    let error = JsonRpcError { code: -32000, message: "no".to_string() };
    assert_eq!(heard(Err(error)), Err("no".to_string()));
}

#[test]
fn calls_that_fail_say_why() {
    let message = |event: CallEvent| finish_call(event).unwrap_err();
    assert_eq!(
        message(CallEvent::ConnectTimedOut),
        "Connection timeout. Server may be unresponsive."
    );
    assert_eq!(
        message(CallEvent::ConnectRefused),
        "Server not running. Start with: signal-mcp server"
    );
    assert_eq!(message(CallEvent::Failed("broken pipe".to_string())), "broken pipe");
    assert_eq!(
        message(CallEvent::ReadTimedOut),
        "Server response timeout. Try 'signal-mcp stop' and restart the server."
    );
    assert_eq!(message(CallEvent::Answered { result: None, error: None }), "Empty response");
    let both =
        CallEvent::Answered { result: Some(Json::Null), error: Some("first".to_string()) };
    assert_eq!(message(both), "first");
}

#[test]
fn a_sent_message_is_reported() {
    let result = Json::object().with("timestamp", Json::unsigned(123));
    assert_eq!(sent_report(&result), "Sent! Timestamp: 123");
    assert_eq!(sent_report(&Json::object()), "Sent! Timestamp: null");
}

#[test]
fn the_status_is_reported() {
    let up = Json::object().with("connected", Json::Bool(true));
    assert_eq!(status_report(&up), vec!["Connected as unknown", "Contacts: null"]);
    let up = up.with("account", Json::text("me")).with("contacts_count", Json::unsigned(42));
    assert_eq!(status_report(&up), vec!["Connected as me", "Contacts: 42"]);
    let down = Json::object().with("account", Json::text("me"));
    assert_eq!(status_report(&down), vec!["Not connected (account: me)", "Contacts: null"]);
    let told = status_found("me", Ok(vec![])).unwrap();
    assert_eq!(status_report(&told), vec!["Connected as me", "Contacts: 0"]);
}

#[test]
fn contacts_are_reported_as_a_table() {
    let contact = Json::object()
        .with("name", Json::text("Alice"))
        .with("phone", Json::Null)
        .with("uuid", Json::text("u1"));
    let rule = "-".repeat(70);
    assert_eq!(
        contacts_report(&Json::array(vec![contact])),
        vec![
            format!("{:<20} {:<15} {}", "NAME", "PHONE", "UUID"),
            rule,
            format!("{:<20} {:<15} {}", "Alice", "-", "u1"),
            String::new(),
            "Total: 1 contact(s)".to_string(),
        ]
    );
    assert_eq!(contacts_report(&Json::array(vec![])), vec!["No contacts found."]);
    assert!(contacts_report(&Json::object()).is_empty());
}

#[test]
fn groups_are_reported_as_a_table() {
    let group = Json::object()
        .with("name", Json::text("Friends"))
        .with("members_count", Json::unsigned(12))
        .with("id", Json::text("Zm9v"));
    let bare = Json::object();
    let rule = "-".repeat(70);
    assert_eq!(
        groups_report(&Json::array(vec![group, bare])),
        vec![
            format!("{:<30} {:<10} {}", "NAME", "MEMBERS", "ID"),
            rule,
            format!("{:<30} {:<10} {}", "Friends", 12, "Zm9v"),
            format!("{:<30} {:<10} {}", "-", 0, "-"),
            String::new(),
            "Total: 2 group(s)".to_string(),
        ]
    );
    assert_eq!(groups_report(&Json::array(vec![])), vec!["No groups found."]);
    assert!(groups_report(&Json::Null).is_empty());
}

#[test]
fn a_sync_is_reported() {
    assert_eq!(sync_notice(), "Requesting contacts sync from primary device...");
    let result = Json::object()
        .with("contacts_count", Json::unsigned(3))
        .with("groups_count", Json::text("many"));
    assert_eq!(sync_report(&result), "Synced 3 contacts and 0 groups");
}
