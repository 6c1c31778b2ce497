use signal_mcp::dispatch::{
    arguments_read, contacts_synced_directly, deliver, deliver_directly, find_method,
    handle_manager_request_direct, handle_request, message_replied, message_sent_directly,
    parse_failure, perform, request_line, request_needs_manager, rpc_tools_call, stdio_request,
    sync_replied, Action, Arguments, Asker, DirectPlan, Method, Plan, Route, Shape, Step,
    ToolCallParams,
};
use signal_mcp::json::Json;
use signal_mcp::json_text::{compact_text, parse_text};
use signal_mcp::methods::{
    GetConversationsParams, GetMessagesParams, ListContactsParams, ListGroupsParams, Outgoing,
    Reply, ResolvedRecipient, SendMessageParams, SyncResult,
};
use signal_mcp::rpc::{JsonRpcError, JsonRpcRequest, JsonRpcResponse};
use signal_mcp::storage::{Contact, Storage};
use signal_mcp::tools::{find_tool, rpc_initialize, rpc_tools_list, Tool};

const TOOLS: [&str; 7] = [
    "send_message",
    "list_contacts",
    "get_messages",
    "get_conversations",
    "get_status",
    "sync_contacts",
    "list_groups",
];

fn request(method: &str, params: Option<Json>) -> JsonRpcRequest {
    JsonRpcRequest {
        jsonrpc: "2.0".to_string(),
        id: Some(Json::unsigned(9)),
        method: method.to_string(),
        params,
    }
}

fn store() -> Storage {
    let mut storage = Storage::open(std::path::Path::new(":memory:")).unwrap();
    storage
        .upsert_contact(&Contact {
            uuid: "u1".to_string(),
            phone: Some("+100".to_string()),
            name: Some("Alice".to_string()),
        })
        .unwrap();
    storage
}

fn replied(plan: Plan) -> JsonRpcResponse {
    match plan {
        Plan::Reply(response) => response,
        other => panic!("{other:?}"),
    }
}

fn error_of(response: JsonRpcResponse) -> (i32, String) {
    assert_eq!(response.jsonrpc, "2.0");
    assert_eq!(compact_text(&response.id.unwrap()), "9");
    assert!(response.result.is_none());
    let error = response.error.unwrap();
    (error.code, error.message)
}

fn result_of(response: JsonRpcResponse) -> String {
    assert_eq!(response.jsonrpc, "2.0");
    assert_eq!(compact_text(&response.id.unwrap()), "9");
    assert!(response.error.is_none());
    compact_text(&response.result.unwrap())
}

fn call(name: &str) -> Json {
    Json::object().with("name", Json::text(name))
}

#[test]
fn other_versions_are_refused() {
    let mut old = request("get_status", None);
    old.jsonrpc = "1.0".to_string();
    assert_eq!(
        error_of(replied(handle_request(old))),
        (-32600, "Invalid Request: jsonrpc must be \"2.0\"".to_string())
    );
}

#[test]
fn unknown_methods_are_refused() {
    assert_eq!(
        error_of(replied(handle_request(request("fly", None)))),
        (-32601, "Method not found: fly".to_string())
    );
    assert!(find_method("fly").is_none());
}

#[test]
fn the_server_introduces_itself() {
    assert_eq!(
        result_of(replied(handle_request(request("initialize", None)))),
        "{\"capabilities\":{\"tools\":{}},\"protocolVersion\":\"2024-11-05\",\"serverInfo\":{\"name\":\"signal-mcp\",\"version\":\"0.1.0\"}}"
    );
    assert_eq!(
        result_of(replied(handle_request(request("notifications/initialized", None)))),
        "{}"
    );
    assert_eq!(
        compact_text(&rpc_initialize()),
        result_of(replied(handle_request(request("initialize", None))))
    );
}

#[test]
fn the_tools_that_are_listed_can_be_called() {
    let listed = rpc_tools_list();
    let tools = listed.get("tools").unwrap().as_array().unwrap();
    let names: Vec<&str> =
        tools.iter().map(|tool| tool.get("name").unwrap().as_str().unwrap()).collect();
    assert_eq!(names, TOOLS);
    for name in TOOLS {
        assert!(find_tool(name).is_some());
        assert!(matches!(find_method(name), Some(Method::Tool(_))));
    }
    assert!(find_tool("initialize").is_none());
    assert_eq!(find_method("tools/call"), Some(Method::ToolsCall));
    assert_eq!(find_tool("get_status"), Some(Tool::GetStatus));
}

#[test]
fn tools_are_listed_with_their_parameters() {
    assert_eq!(
        result_of(replied(handle_request(request("tools/list", None)))),
        compact_text(&rpc_tools_list())
    );
    let listed = rpc_tools_list();
    let tools = listed.get("tools").unwrap().as_array().unwrap();
    assert_eq!(
        compact_text(&tools[0]),
        "{\"description\":\"Send a Signal message to a contact\",\"inputSchema\":{\"properties\":{\"message\":{\"description\":\"Message text to send\",\"type\":\"string\"},\"recipient\":{\"description\":\"Phone number (+1234...), contact name, or UUID\",\"type\":\"string\"}},\"required\":[\"recipient\",\"message\"],\"type\":\"object\"},\"name\":\"send_message\"}"
    );
    assert_eq!(
        compact_text(&tools[1]),
        "{\"description\":\"List Signal contacts\",\"inputSchema\":{\"properties\":{\"filter\":{\"description\":\"Optional search filter for name or phone\",\"type\":\"string\"}},\"type\":\"object\"},\"name\":\"list_contacts\"}"
    );
    assert_eq!(
        compact_text(&tools[2]),
        "{\"description\":\"Get message history with a contact\",\"inputSchema\":{\"properties\":{\"contact\":{\"description\":\"Phone number, contact name, or UUID\",\"type\":\"string\"},\"limit\":{\"description\":\"Max messages to return (default 50)\",\"type\":\"integer\"}},\"required\":[\"contact\"],\"type\":\"object\"},\"name\":\"get_messages\"}"
    );
    assert_eq!(
        compact_text(&tools[3]),
        "{\"description\":\"List recent conversations\",\"inputSchema\":{\"properties\":{\"limit\":{\"description\":\"Max conversations to return (default 20)\",\"type\":\"integer\"}},\"type\":\"object\"},\"name\":\"get_conversations\"}"
    );
    assert_eq!(
        compact_text(&tools[4]),
        "{\"description\":\"Get server connection status\",\"inputSchema\":{\"properties\":{},\"type\":\"object\"},\"name\":\"get_status\"}"
    );
    assert_eq!(
        compact_text(&tools[5]),
        "{\"description\":\"Request contacts sync from the primary device\",\"inputSchema\":{\"properties\":{},\"type\":\"object\"},\"name\":\"sync_contacts\"}"
    );
    assert_eq!(
        compact_text(&tools[6]),
        "{\"description\":\"List Signal groups\",\"inputSchema\":{\"properties\":{\"filter\":{\"description\":\"Optional search filter for group name\",\"type\":\"string\"}},\"type\":\"object\"},\"name\":\"list_groups\"}"
    );
}

#[test]
fn parameters_are_read_as_those_of_the_method() {
    for (name, expected) in [
        ("send_message", Shape::SendMessage),
        ("list_contacts", Shape::ListContacts),
        ("list_groups", Shape::ListGroups),
        ("get_messages", Shape::GetMessages),
        ("get_conversations", Shape::GetConversations),
    ] {
        match handle_request(request(name, Some(Json::text(name)))) {
            Plan::ReadArguments { asker, shape, value } => {
                assert_eq!(shape, expected);
                assert_eq!(value.as_str(), Some(name));
                assert!(!asker.tool);
                assert_eq!(asker.id.unwrap().as_u64(), Some(9));
            }
            other => panic!("{other:?}"),
        }
        let params =
            ToolCallParams { name: name.to_string(), arguments: Some(Json::text(name)) };
        match rpc_tools_call(Some(Json::unsigned(9)), Ok(params)) {
            Plan::ReadArguments { asker, shape, value } => {
                assert_eq!(shape, expected);
                assert_eq!(value.as_str(), Some(name));
                assert!(asker.tool);
                assert_eq!(asker.id.unwrap().as_u64(), Some(9));
            }
            other => panic!("{other:?}"),
        }
    }
}

fn action_without_params(name: &str) -> Action {
    match handle_request(request(name, None)) {
        Plan::Perform { asker, action } => {
            assert!(!asker.tool);
            action
        }
        other => panic!("{other:?}"),
    }
}

#[test]
fn methods_do_without_parameters_where_they_can() {
    assert!(matches!(action_without_params("send_message"), Action::SendMessage(None)));
    assert!(matches!(action_without_params("get_messages"), Action::GetMessages(None)));
    assert!(matches!(action_without_params("list_contacts"), Action::ListContacts(None)));
    assert!(matches!(action_without_params("list_groups"), Action::ListGroups(None)));
    assert!(matches!(action_without_params("get_conversations"), Action::GetConversations(20)));
    assert!(matches!(action_without_params("get_status"), Action::GetStatus));
    assert!(matches!(action_without_params("sync_contacts"), Action::SyncContacts));
}

#[test]
fn calls_of_tools_are_read_first() {
    assert_eq!(
        error_of(replied(handle_request(request("tools/call", None)))),
        (-32602, "Missing params".to_string())
    );
    match handle_request(request("tools/call", Some(call("get_status")))) {
        Plan::ReadCall { id, value } => {
            assert_eq!(id.unwrap().as_u64(), Some(9));
            assert_eq!(compact_text(&value), "{\"name\":\"get_status\"}");
        }
        other => panic!("{other:?}"),
    }
    let id = || Some(Json::unsigned(9));
    assert_eq!(
        error_of(replied(rpc_tools_call(id(), Err("odd".to_string())))),
        (-32602, "Invalid params: odd".to_string())
    );
    let unknown = ToolCallParams { name: "fly".to_string(), arguments: None };
    assert_eq!(
        error_of(replied(rpc_tools_call(id(), Ok(unknown)))),
        (-32000, "Unknown tool: fly".to_string())
    );
    let status = ToolCallParams { name: "get_status".to_string(), arguments: None };
    assert!(matches!(
        rpc_tools_call(id(), Ok(status)),
        Plan::Perform { asker: Asker { tool: true, .. }, action: Action::GetStatus }
    ));
    let sync = ToolCallParams { name: "sync_contacts".to_string(), arguments: None };
    assert!(matches!(
        rpc_tools_call(id(), Ok(sync)),
        Plan::Perform { asker: Asker { tool: true, .. }, action: Action::SyncContacts }
    ));
    let bare = ToolCallParams { name: "list_contacts".to_string(), arguments: None };
    match rpc_tools_call(id(), Ok(bare)) {
        Plan::ReadArguments { value, .. } => assert_eq!(compact_text(&value), "{}"),
        other => panic!("{other:?}"),
    }
}

#[test]
fn parameters_lead_to_their_method() {
    let send = SendMessageParams { recipient: "a".to_string(), message: "b".to_string() };
    assert!(matches!(
        arguments_read(Arguments::SendMessage(Ok(send))),
        Action::SendMessage(Some(Ok(p))) if p.recipient == "a" && p.message == "b"
    ));
    assert!(matches!(
        arguments_read(Arguments::SendMessage(Err("odd".to_string()))),
        Action::SendMessage(Some(Err(e))) if e == "odd"
    ));
    let contacts = ListContactsParams { filter: Some("f".to_string()) };
    assert!(matches!(
        arguments_read(Arguments::ListContacts(Ok(contacts))),
        Action::ListContacts(Some(f)) if f == "f"
    ));
    assert!(matches!(
        arguments_read(Arguments::ListContacts(Err("odd".to_string()))),
        Action::ListContacts(None)
    ));
    let groups = ListGroupsParams { filter: Some("g".to_string()) };
    assert!(matches!(
        arguments_read(Arguments::ListGroups(Ok(groups))),
        Action::ListGroups(Some(g)) if g == "g"
    ));
    assert!(matches!(
        arguments_read(Arguments::ListGroups(Err("odd".to_string()))),
        Action::ListGroups(None)
    ));
    let messages = GetMessagesParams { contact: "c".to_string(), limit: Some(3), before: Some(7) };
    assert!(matches!(
        arguments_read(Arguments::GetMessages(Ok(messages))),
        Action::GetMessages(Some(Ok(p)))
            if p.contact == "c" && p.limit == Some(3) && p.before == Some(7)
    ));
    assert!(matches!(
        arguments_read(Arguments::GetConversations(Ok(GetConversationsParams { limit: Some(4) }))),
        Action::GetConversations(4)
    ));
    assert!(matches!(
        arguments_read(Arguments::GetConversations(Ok(GetConversationsParams { limit: None }))),
        Action::GetConversations(20)
    ));
    assert!(matches!(
        arguments_read(Arguments::GetConversations(Err("odd".to_string()))),
        Action::GetConversations(0)
    ));
}

fn carried_out(name: &str, arguments: Arguments) -> Action {
    match handle_request(request(name, Some(Json::object()))) {
        Plan::ReadArguments { .. } => arguments_read(arguments),
        other => panic!("{other:?}"),
    }
}

#[test]
fn the_method_that_was_asked_for_is_carried_out() {
    let odd = || "odd".to_string();
    assert!(matches!(
        carried_out("send_message", Arguments::SendMessage(Err(odd()))),
        Action::SendMessage(_)
    ));
    assert!(matches!(
        carried_out("list_contacts", Arguments::ListContacts(Err(odd()))),
        Action::ListContacts(_)
    ));
    assert!(matches!(
        carried_out("list_groups", Arguments::ListGroups(Err(odd()))),
        Action::ListGroups(_)
    ));
    assert!(matches!(
        carried_out("get_messages", Arguments::GetMessages(Err(odd()))),
        Action::GetMessages(_)
    ));
    assert!(matches!(
        carried_out("get_conversations", Arguments::GetConversations(Err(odd()))),
        Action::GetConversations(_)
    ));
}

#[test]
fn methods_are_carried_out() {
    let mut storage = store();
    match perform(Action::GetStatus, "me", &mut storage) {
        Step::Done(Ok(status)) => {
            assert_eq!(
                compact_text(&status),
                "{\"account\":\"me\",\"connected\":true,\"contacts_count\":1}"
            )
        }
        other => panic!("{other:?}"),
    }
    match perform(Action::ListContacts(Some("lic".to_string())), "me", &mut storage) {
        Step::Done(Ok(contacts)) => assert_eq!(contacts.as_array().unwrap().len(), 1),
        other => panic!("{other:?}"),
    }
    match perform(Action::ListGroups(None), "me", &mut storage) {
        Step::Done(Ok(groups)) => assert_eq!(groups.as_array().unwrap().len(), 0),
        other => panic!("{other:?}"),
    }
    match perform(Action::GetConversations(20), "me", &mut storage) {
        Step::Done(Ok(found)) => assert_eq!(found.as_array().unwrap().len(), 0),
        other => panic!("{other:?}"),
    }
    match perform(Action::GetMessages(None), "me", &mut storage) {
        Step::Done(Err(e)) => assert_eq!(e.message, "Missing params"),
        other => panic!("{other:?}"),
    }
    assert!(matches!(perform(Action::SyncContacts, "me", &mut storage), Step::Sync));
    let send = SendMessageParams { recipient: "Alice".to_string(), message: "b".to_string() };
    match perform(Action::SendMessage(Some(Ok(send))), "me", &mut storage) {
        Step::Send(outgoing) => {
            assert!(matches!(outgoing.recipient, ResolvedRecipient::Contact(u) if u == "u1"));
            assert_eq!(outgoing.message, "b");
        }
        other => panic!("{other:?}"),
    }
    match perform(Action::SendMessage(None), "me", &mut storage) {
        Step::Done(Err(e)) => assert_eq!(e.code, -32602),
        other => panic!("{other:?}"),
    }
}

fn asker(tool: bool) -> Asker {
    Asker { id: Some(Json::unsigned(9)), tool }
}

#[test]
fn outcomes_are_delivered() {
    let outcome = || Ok(Json::object().with("a", Json::unsigned(1)));
    assert_eq!(result_of(deliver(asker(false), outcome())), "{\"a\":1}");
    assert_eq!(
        result_of(deliver(asker(true), outcome())),
        "{\"content\":[{\"text\":\"{\\n  \\\"a\\\": 1\\n}\",\"type\":\"text\"}]}"
    );
    let error = || Err(JsonRpcError { code: -32602, message: "Missing params".to_string() });
    assert_eq!(
        error_of(deliver(asker(false), error())),
        (-32602, "Missing params".to_string())
    );
    assert_eq!(
        error_of(deliver(asker(true), error())),
        (-32000, "Missing params".to_string())
    );
}

#[test]
fn replies_of_the_manager_are_delivered() {
    let mut storage = store();
    let outgoing = || Outgoing {
        recipient: ResolvedRecipient::Contact("u1".to_string()),
        message: "hi".to_string(),
    };
    assert_eq!(
        result_of(message_replied(
            asker(false),
            outgoing(),
            Reply::Answered(Ok(3)),
            &mut storage
        )),
        "{\"recipient_uuid\":\"u1\",\"success\":true,\"timestamp\":3}"
    );
    assert_eq!(storage.get_messages("u1", 50).unwrap().len(), 1);
    assert_eq!(
        error_of(message_replied(asker(true), outgoing(), Reply::ShuttingDown, &mut storage)),
        (-32000, "Server shutting down".to_string())
    );
    assert_eq!(storage.get_messages("u1", 50).unwrap().len(), 1);
    let synced = SyncResult { contacts_count: 1, groups_count: 0 };
    assert_eq!(
        result_of(sync_replied(asker(false), Reply::Answered(Ok(synced)))),
        "{\"contacts_count\":1,\"groups_count\":0,\"message\":\"Synced 1 contacts and 0 groups\",\"success\":true}"
    );
    assert_eq!(
        error_of(sync_replied(asker(true), Reply::ChannelClosed)),
        (-32000, "Server error: channel closed".to_string())
    );
}

#[test]
fn requests_that_need_the_manager_are_known() {
    assert!(request_needs_manager(&request("send_message", None)));
    assert!(request_needs_manager(&request("sync_contacts", None)));
    assert!(request_needs_manager(&request("tools/call", Some(call("send_message")))));
    assert!(request_needs_manager(&request("tools/call", Some(call("sync_contacts")))));
    assert!(!request_needs_manager(&request("tools/call", Some(call("get_status")))));
    assert!(!request_needs_manager(&request("tools/call", None)));
    assert!(!request_needs_manager(&request("tools/call", Some(Json::text("send_message")))));
    assert!(!request_needs_manager(&request("list_contacts", Some(call("send_message")))));
    // An array stands for the members in their order.
    let array = |name: &str| Json::array(vec![Json::text(name), Json::Null]);
    assert!(request_needs_manager(&request("tools/call", Some(array("sync_contacts")))));
    assert!(request_needs_manager(&request("tools/call", Some(array("send_message")))));
    assert!(!request_needs_manager(&request("tools/call", Some(array("get_status")))));
    let short = Json::array(vec![Json::text("sync_contacts")]);
    assert!(!request_needs_manager(&request("tools/call", Some(short))));
}

#[test]
fn requests_are_served_directly() {
    let args = Json::object().with("recipient", Json::text("a"));
    let params = call("send_message").with("arguments", args);
    match handle_manager_request_direct(request("tools/call", Some(params))) {
        DirectPlan::Send { asker, arguments } => {
            assert!(asker.tool);
            assert_eq!(asker.id.unwrap().as_u64(), Some(9));
            assert_eq!(compact_text(&arguments), "{\"recipient\":\"a\"}");
        }
        other => panic!("{other:?}"),
    }
    match handle_manager_request_direct(request("tools/call", Some(call("send_message")))) {
        DirectPlan::Send { arguments, .. } => assert_eq!(compact_text(&arguments), "{}"),
        other => panic!("{other:?}"),
    }
    match handle_manager_request_direct(request("send_message", Some(Json::unsigned(4)))) {
        DirectPlan::Send { asker, arguments } => {
            assert!(!asker.tool);
            assert_eq!(arguments.as_u64(), Some(4));
        }
        other => panic!("{other:?}"),
    }
    assert!(matches!(
        handle_manager_request_direct(request("sync_contacts", None)),
        DirectPlan::Sync { id: Some(_) }
    ));
    let array = Json::array(vec![Json::text("send_message"), Json::unsigned(4)]);
    match handle_manager_request_direct(request("tools/call", Some(array))) {
        DirectPlan::Send { asker, arguments } => {
            assert!(asker.tool);
            assert_eq!(arguments.as_u64(), Some(4));
        }
        other => panic!("{other:?}"),
    }
}

fn direct_error(plan: DirectPlan) -> (i32, String) {
    match plan {
        DirectPlan::Reply(response) => error_of(response),
        other => panic!("{other:?}"),
    }
}

#[test]
fn what_cannot_be_served_directly_is_refused() {
    assert_eq!(
        direct_error(handle_manager_request_direct(request("tools/call", None))),
        (-32602, "Missing params".to_string())
    );
    assert_eq!(
        direct_error(handle_manager_request_direct(request("tools/call", Some(Json::object())))),
        (-32602, "Missing tool name".to_string())
    );
    assert_eq!(
        direct_error(handle_manager_request_direct(request("tools/call", Some(call("fly"))))),
        (-32601, "Unknown manager method: fly".to_string())
    );
    assert_eq!(
        direct_error(handle_manager_request_direct(request("fly", None))),
        (-32601, "Unknown manager method: fly".to_string())
    );
}

#[test]
fn standard_input_does_not_wait_for_itself() {
    let plan = stdio_request(request("send_message", None));
    assert!(plan.respond);
    assert!(matches!(plan.route, Route::Direct(DirectPlan::Send { .. })));
    let mut notification = request("notifications/initialized", None);
    notification.id = None;
    let plan = stdio_request(notification);
    assert!(!plan.respond);
    assert!(matches!(plan.route, Route::Usual(Plan::Reply(_))));
    let plan = stdio_request(request("tools/call", Some(call("sync_contacts"))));
    assert!(matches!(plan.route, Route::Direct(DirectPlan::Sync { .. })));
    let plan = stdio_request(request("tools/call", Some(call("get_status"))));
    assert!(matches!(plan.route, Route::Usual(Plan::ReadCall { .. })));
}

#[test]
fn lines_hold_requests_or_nothing() {
    assert_eq!(request_line("  {} \n"), Some("{}".to_string()));
    assert_eq!(request_line(" \r\n"), None);
    assert_eq!(request_line(""), None);
    let response = parse_failure("EOF");
    assert!(response.id.is_none());
    assert!(response.result.is_none());
    let error = response.error.unwrap();
    assert_eq!(error.code, -32700);
    assert_eq!(error.message, "Parse error: EOF");
}

#[test]
fn methods_leave_the_store_as_it_is() {
    let mut storage = store();
    let send = SendMessageParams { recipient: "Alice".to_string(), message: "b".to_string() };
    let messages =
        GetMessagesParams { contact: "+100".to_string(), limit: None, before: None };
    for action in [
        Action::SendMessage(Some(Ok(send))),
        Action::SendMessage(None),
        Action::ListContacts(None),
        Action::ListGroups(Some("x".to_string())),
        Action::GetMessages(Some(Ok(messages))),
        Action::GetConversations(5),
        Action::GetStatus,
        Action::SyncContacts,
    ] {
        perform(action, "me", &mut storage);
        assert_eq!(storage.list_contacts(None).unwrap().len(), 1);
        assert!(storage.list_groups(None).unwrap().is_empty());
        assert!(storage.get_messages("u1", 50).unwrap().is_empty());
    }
}

#[test]
fn who_asks_directly_gets_the_plain_object() {
    let mut storage = store();
    let outgoing = || Outgoing {
        recipient: ResolvedRecipient::Contact("u1".to_string()),
        message: "hi".to_string(),
    };
    assert_eq!(
        result_of(message_sent_directly(asker(false), outgoing(), Ok(5), &mut storage)),
        "{\"recipient\":\"u1\",\"success\":true,\"timestamp\":5}"
    );
    assert_eq!(
        result_of(message_sent_directly(asker(true), outgoing(), Ok(5), &mut storage)),
        "{\"content\":[{\"text\":\"{\\\"recipient\\\":\\\"u1\\\",\\\"success\\\":true,\\\"timestamp\\\":5}\",\"type\":\"text\"}]}"
    );
    assert_eq!(storage.get_messages("u1", 50).unwrap().len(), 2);
    assert_eq!(
        error_of(message_sent_directly(
            asker(true),
            outgoing(),
            Err("no".to_string()),
            &mut storage
        )),
        (-32000, "Failed to send message: no".to_string())
    );
    let error = JsonRpcError { code: -32602, message: "Missing params".to_string() };
    assert_eq!(
        error_of(deliver_directly(asker(true), Err(error))),
        (-32602, "Missing params".to_string())
    );
}

#[test]
fn a_direct_sync_is_told_as_content() {
    let id = || Some(Json::unsigned(9));
    let synced = Ok(SyncResult { contacts_count: 2, groups_count: 1 });
    assert_eq!(
        result_of(contacts_synced_directly(id(), synced)),
        "{\"content\":[{\"text\":\"{\\\"contacts_synced\\\":2,\\\"groups_synced\\\":1,\\\"success\\\":true}\",\"type\":\"text\"}]}"
    );
    assert_eq!(
        error_of(contacts_synced_directly(id(), Err("no".to_string()))),
        (-32000, "Failed to sync contacts: no".to_string())
    );
}

#[test]
fn the_text_of_a_tool_reads_as_its_result() {
    let mut storage = store();
    for action in [
        Action::ListContacts(None),
        Action::ListGroups(None),
        Action::GetConversations(5),
        Action::GetStatus,
    ] {
        let Step::Done(Ok(result)) = perform(action, "me", &mut storage) else {
            panic!();
        };
        let expected = compact_text(&result);
        let told = deliver(asker(true), Ok(result)).result.unwrap();
        let content = told.get("content").unwrap().as_array().unwrap();
        assert_eq!(content.len(), 1);
        let text = content[0].get("text").unwrap().as_str().unwrap();
        assert_eq!(compact_text(&parse_text(text).unwrap()), expected);
    }
}
