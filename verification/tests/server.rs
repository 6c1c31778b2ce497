use signal_mcp::daemon::{
    daemonize, process_to_probe, read_pid, stop_daemon, PidFile, Start, StopAction, Stopping,
    STOP_POLLS, STOP_POLL_MILLIS,
};
use signal_mcp::json::Json;
use signal_mcp::json_text::compact_text;
use signal_mcp::rpc::JsonRpcRequest;
use signal_mcp::server::{
    handle_signal_event, Handshake, ReceiveAction, ReceiveEvent, Receiver, HANDSHAKE_CUT_SHORT,
    SHUTDOWN_TIMEOUT_SECS,
};
use signal_mcp::signal::SignalEvent;
use signal_mcp::storage::Storage;

fn line(method: &str) -> Option<JsonRpcRequest> {
    Some(JsonRpcRequest {
        jsonrpc: "2.0".to_string(),
        id: Some(Json::unsigned(4)),
        method: method.to_string(),
        params: None,
    })
}

#[test]
fn the_handshake_takes_both_requests() {
    let mut handshake = Handshake::new();
    assert!(!handshake.is_complete());
    assert!(handshake.receive(None).is_none());
    let response = handshake.receive(line("initialize")).unwrap();
    assert_eq!(response.id.unwrap().as_u64(), Some(4));
    assert!(compact_text(&response.result.unwrap()).contains("2024-11-05"));
    assert!(!handshake.is_complete());
    assert!(handshake.receive(line("notifications/initialized")).is_none());
    assert!(handshake.is_complete());
    assert_eq!(HANDSHAKE_CUT_SHORT, "EOF before MCP handshake completed");
}

#[test]
fn the_handshake_takes_them_in_any_order() {
    let mut handshake = Handshake::new();
    handshake.receive(line("notifications/initialized"));
    assert!(!handshake.is_complete());
    let error = handshake.receive(line("tools/list")).unwrap().error.unwrap();
    assert_eq!(error.code, -32601);
    assert_eq!(
        error.message,
        "Server initializing, method not available yet: tools/list"
    );
    assert!(!handshake.is_complete());
    handshake.receive(line("initialize"));
    assert!(handshake.is_complete());
}

fn store() -> Storage {
    Storage::open(std::path::Path::new(":memory:")).unwrap()
}

#[test]
fn a_received_message_is_stored_with_its_sender() {
    let mut storage = store();
    let event = SignalEvent::Message {
        sender_uuid: "u1".to_string(),
        body: "hello".to_string(),
        timestamp: 12,
    };
    assert!(handle_signal_event(event, &mut storage).is_ok());
    let contacts = storage.list_contacts(None).unwrap();
    assert_eq!(contacts.len(), 1);
    assert_eq!(contacts[0].uuid, "u1");
    assert_eq!(contacts[0].name, None);
    let messages = storage.get_messages("u1", 50).unwrap();
    assert_eq!(messages.len(), 1);
    assert_eq!(messages[0].direction, "in");
    assert_eq!(messages[0].body, "hello");
    assert_eq!(messages[0].timestamp, 12);
}

#[test]
fn a_message_does_not_rename_its_sender() {
    let mut storage = store();
    let contact = SignalEvent::Contact {
        uuid: "u1".to_string(),
        phone: Some("+1".to_string()),
        name: Some("Alice".to_string()),
    };
    assert!(handle_signal_event(contact, &mut storage).is_ok());
    let message = SignalEvent::Message {
        sender_uuid: "u1".to_string(),
        body: "hello".to_string(),
        timestamp: 12,
    };
    assert!(handle_signal_event(message, &mut storage).is_ok());
    let contacts = storage.list_contacts(None).unwrap();
    assert_eq!(contacts.len(), 1);
    assert_eq!(contacts[0].name, Some("Alice".to_string()));
    assert_eq!(contacts[0].phone, Some("+1".to_string()));
}

#[test]
fn other_events_store_nothing() {
    let mut storage = store();
    assert!(handle_signal_event(SignalEvent::QueueEmpty, &mut storage).is_ok());
    assert!(handle_signal_event(SignalEvent::ContactsSync, &mut storage).is_ok());
    assert!(storage.list_contacts(None).unwrap().is_empty());
}

fn wait_after(receiver: &mut Receiver, event: ReceiveEvent) -> u64 {
    match receiver.next(event) {
        ReceiveAction::Wait { secs } => {
            assert!(matches!(receiver.next(ReceiveEvent::Waited), ReceiveAction::Connect));
            secs
        }
        other => panic!("{other:?}"),
    }
}

#[test]
fn waits_double_up_to_a_minute() {
    let mut receiver = Receiver::new();
    let waits: Vec<u64> =
        (0..9).map(|_| wait_after(&mut receiver, ReceiveEvent::ConnectFailed)).collect();
    assert_eq!(waits, vec![1, 2, 4, 8, 16, 32, 60, 60, 60]);
    assert_eq!(SHUTDOWN_TIMEOUT_SECS, 5);
}

#[test]
fn a_connection_starts_the_waits_over() {
    let mut receiver = Receiver::new();
    wait_after(&mut receiver, ReceiveEvent::ConnectFailed);
    wait_after(&mut receiver, ReceiveEvent::ConnectFailed);
    assert_eq!(receiver.backoff_secs(), 4);
    assert!(matches!(receiver.next(ReceiveEvent::Connected), ReceiveAction::Receive));
    assert!(matches!(receiver.next(ReceiveEvent::HandedOn), ReceiveAction::Receive));
    assert_eq!(wait_after(&mut receiver, ReceiveEvent::StreamEnded), 1);
    assert_eq!(receiver.backoff_secs(), 2);
    assert!(matches!(receiver.next(ReceiveEvent::NobodyListens), ReceiveAction::Stop));
}

#[test]
fn process_ids_are_read_as_integers() {
    for text in [
        "0", "42", " 42\n", "+7", "-7", "-0", "007", "2147483647", "-2147483648", "2147483648",
        "-2147483649", "99999999999999999999", "", " ", "+", "-", "+-1", "1 2", "12a", "a", "1.0",
        "\u{661}", "99999999999999999999x", "x99999999999999999999",
    ] {
        assert_eq!(read_pid(text), text.trim().parse::<i32>().ok(), "{text}");
    }
}

#[test]
fn a_second_daemon_is_refused() {
    let running = PidFile::Holds("42\n".to_string());
    assert_eq!(process_to_probe(&running), Some(42));
    match daemonize(&running, true) {
        Start::Refuse(message) => assert_eq!(
            message,
            "Daemon already running with PID 42. Use 'signal-mcp stop' to stop it."
        ),
        other => panic!("{other:?}"),
    }
    assert!(matches!(daemonize(&running, false), Start::CleanUp));
}

#[test]
fn a_stale_file_is_cleaned_up() {
    let garbage = PidFile::Holds("garbage".to_string());
    assert_eq!(process_to_probe(&garbage), None);
    assert!(matches!(daemonize(&garbage, false), Start::CleanUp));
    assert_eq!(process_to_probe(&PidFile::Unreadable), None);
    assert!(matches!(daemonize(&PidFile::Unreadable, false), Start::CleanUp));
    assert_eq!(process_to_probe(&PidFile::Absent), None);
    assert!(matches!(daemonize(&PidFile::Absent, false), Start::Go));
}

fn finish(action: StopAction) -> (String, bool) {
    match action {
        StopAction::Finish { say, remove_file } => (say, remove_file),
        other => panic!("{other:?}"),
    }
}

#[test]
fn stopping_begins_with_the_file() {
    let (none, action) = stop_daemon(None);
    assert!(none.is_none());
    assert_eq!(finish(action), ("No daemon running (PID file not found)".to_string(), false));
    let (none, action) = stop_daemon(Some("x\n".to_string()));
    assert!(none.is_none());
    assert!(matches!(
        action,
        StopAction::Fail { message } if message == "Invalid PID in file: x\n"
    ));
    let (stopping, action) = stop_daemon(Some("42\n".to_string()));
    assert_eq!(stopping.unwrap().pid, 42);
    assert!(matches!(action, StopAction::Probe));
}

#[test]
fn a_daemon_that_is_gone_leaves_its_file() {
    let stopping = Stopping { pid: 42, polls: 0 };
    assert_eq!(
        finish(stopping.probed(false)),
        ("Daemon not running (stale PID file), cleaning up".to_string(), true)
    );
    assert!(matches!(
        stopping.probed(true),
        StopAction::Terminate { say } if say == "Sending SIGTERM to daemon (PID 42)"
    ));
    assert!(matches!(
        stopping.signalled(false),
        StopAction::Fail { message } if message == "Failed to send SIGTERM to PID 42"
    ));
    assert!(matches!(stopping.signalled(true), StopAction::Poll));
}

#[test]
fn a_daemon_that_stops_is_cleaned_up() {
    let mut stopping = Stopping { pid: 42, polls: 0 };
    assert!(matches!(stopping.polled(true), StopAction::Poll));
    assert_eq!(finish(stopping.polled(false)), ("Daemon stopped".to_string(), true));
}

#[test]
fn a_daemon_that_does_not_stop_is_given_up() {
    let mut stopping = Stopping { pid: 42, polls: 0 };
    for _ in 0..STOP_POLLS - 1 {
        assert!(matches!(stopping.polled(true), StopAction::Poll));
    }
    assert_eq!(
        finish(stopping.polled(true)),
        (
            "Daemon did not stop within 5 seconds, you may need to kill it manually".to_string(),
            false
        )
    );
    assert_eq!((STOP_POLLS, STOP_POLL_MILLIS), (50, 100));
}
