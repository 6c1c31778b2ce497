//! The tools that the server offers, and how it introduces itself.

use vstd::prelude::*;

use crate::json::{member, text_json, Json, JsonView};
use crate::text::same;

verus! {

/// A tool of the server.
#[derive(Debug, Clone, Copy, PartialEq, Eq, Structural)]
pub enum Tool {
    SendMessage,
    ListContacts,
    GetMessages,
    GetConversations,
    GetStatus,
    SyncContacts,
    ListGroups,
}

/// The tool that a name stands for.
pub open spec fn tool_named(name: Seq<char>) -> Option<Tool> {
    if name == "send_message"@ {
        Some(Tool::SendMessage)
    } else if name == "list_contacts"@ {
        Some(Tool::ListContacts)
    } else if name == "get_messages"@ {
        Some(Tool::GetMessages)
    } else if name == "get_conversations"@ {
        Some(Tool::GetConversations)
    } else if name == "get_status"@ {
        Some(Tool::GetStatus)
    } else if name == "sync_contacts"@ {
        Some(Tool::SyncContacts)
    } else if name == "list_groups"@ {
        Some(Tool::ListGroups)
    } else {
        None
    }
}

/// Finds the tool that a name stands for.
pub fn find_tool(name: &str) -> (r: Option<Tool>)
    ensures
        r == tool_named(name@),
{
    if same(name, "send_message") {
        Some(Tool::SendMessage)
    } else if same(name, "list_contacts") {
        Some(Tool::ListContacts)
    } else if same(name, "get_messages") {
        Some(Tool::GetMessages)
    } else if same(name, "get_conversations") {
        Some(Tool::GetConversations)
    } else if same(name, "get_status") {
        Some(Tool::GetStatus)
    } else if same(name, "sync_contacts") {
        Some(Tool::SyncContacts)
    } else if same(name, "list_groups") {
        Some(Tool::ListGroups)
    } else {
        None
    }
}

/// How the server introduces itself.
pub open spec fn introduction() -> JsonView {
    JsonView::Object(
        Map::empty().insert("protocolVersion"@, text_json("2024-11-05"@)).insert(
            "capabilities"@,
            JsonView::Object(Map::empty().insert("tools"@, JsonView::Object(Map::empty()))),
        ).insert(
            "serverInfo"@,
            JsonView::Object(
                Map::empty().insert("name"@, text_json("signal-mcp"@)).insert(
                    "version"@,
                    text_json("0.1.0"@),
                ),
            ),
        ),
    )
}

/// Introduces the server.
pub fn rpc_initialize() -> (r: Json)
    ensures
        r@ == introduction(),
{
    let info = Json::object().with("name", Json::text("signal-mcp")).with(
        "version",
        Json::text("0.1.0"),
    );
    let capabilities = Json::object().with("tools", Json::object());
    Json::object().with("protocolVersion", Json::text("2024-11-05")).with(
        "capabilities",
        capabilities,
    ).with("serverInfo", info)
}

/// A parameter of a tool.
pub open spec fn parameter(kind: Seq<char>, description: Seq<char>) -> JsonView {
    JsonView::Object(
        Map::empty().insert("type"@, text_json(kind)).insert(
            "description"@,
            text_json(description),
        ),
    )
}

/// Describes a parameter of a tool.
fn describe_parameter(kind: &str, description: &str) -> (r: Json)
    ensures
        r@ == parameter(kind@, description@),
{
    Json::object().with("type", Json::text(kind)).with("description", Json::text(description))
}

/// What a tool takes: its parameters by their names.
pub open spec fn schema(parameters: Map<Seq<char>, JsonView>) -> Map<Seq<char>, JsonView> {
    Map::empty().insert("type"@, text_json("object"@)).insert(
        "properties"@,
        JsonView::Object(parameters),
    )
}

/// Describes what a tool takes.
fn describe_schema(parameters: Json) -> (r: Json)
    requires
        parameters is Object,
    ensures
        r is Object,
        r@ == JsonView::Object(schema(parameters@->Object_0)),
{
    Json::object().with("type", Json::text("object")).with("properties", parameters)
}

/// A tool as it is listed.
pub open spec fn listed_tool(
    name: Seq<char>,
    description: Seq<char>,
    schema: Map<Seq<char>, JsonView>,
) -> JsonView {
    JsonView::Object(
        Map::empty().insert("name"@, text_json(name)).insert(
            "description"@,
            text_json(description),
        ).insert("inputSchema"@, JsonView::Object(schema)),
    )
}

/// Lists a tool.
fn list_tool(name: &str, description: &str, schema: Json) -> (r: Json)
    requires
        schema is Object,
    ensures
        r@ == listed_tool(name@, description@, schema@->Object_0),
{
    Json::object().with("name", Json::text(name)).with("description", Json::text(description)).with(
        "inputSchema",
        schema,
    )
}

/// The tool that sends a message.
pub open spec fn send_message_tool() -> JsonView {
    listed_tool(
        "send_message"@,
        "Send a Signal message to a contact"@,
        schema(
            Map::empty().insert(
                "recipient"@,
                parameter("string"@, "Phone number (+1234...), contact name, or UUID"@),
            ).insert("message"@, parameter("string"@, "Message text to send"@)),
        ).insert(
            "required"@,
            JsonView::Array(seq![text_json("recipient"@), text_json("message"@)]),
        ),
    )
}

/// The tool that lists the contacts.
pub open spec fn list_contacts_tool() -> JsonView {
    listed_tool(
        "list_contacts"@,
        "List Signal contacts"@,
        schema(
            Map::empty().insert(
                "filter"@,
                parameter("string"@, "Optional search filter for name or phone"@),
            ),
        ),
    )
}

/// The tool that reads the messages of a contact.
pub open spec fn get_messages_tool() -> JsonView {
    listed_tool(
        "get_messages"@,
        "Get message history with a contact"@,
        schema(
            Map::empty().insert(
                "contact"@,
                parameter("string"@, "Phone number, contact name, or UUID"@),
            ).insert("limit"@, parameter("integer"@, "Max messages to return (default 50)"@)),
        ).insert("required"@, JsonView::Array(seq![text_json("contact"@)])),
    )
}

/// The tool that lists the conversations.
pub open spec fn get_conversations_tool() -> JsonView {
    listed_tool(
        "get_conversations"@,
        "List recent conversations"@,
        schema(
            Map::empty().insert(
                "limit"@,
                parameter("integer"@, "Max conversations to return (default 20)"@),
            ),
        ),
    )
}

/// The tool that tells the status of the server.
pub open spec fn get_status_tool() -> JsonView {
    listed_tool("get_status"@, "Get server connection status"@, schema(Map::empty()))
}

/// The tool that has the contacts synchronized.
pub open spec fn sync_contacts_tool() -> JsonView {
    listed_tool(
        "sync_contacts"@,
        "Request contacts sync from the primary device"@,
        schema(Map::empty()),
    )
}

/// The tool that lists the groups.
pub open spec fn list_groups_tool() -> JsonView {
    listed_tool(
        "list_groups"@,
        "List Signal groups"@,
        schema(
            Map::empty().insert(
                "filter"@,
                parameter("string"@, "Optional search filter for group name"@),
            ),
        ),
    )
}

/// The tools, in the order in which they are listed.
pub open spec fn listed_tools() -> Seq<JsonView> {
    seq![
        send_message_tool(),
        list_contacts_tool(),
        get_messages_tool(),
        get_conversations_tool(),
        get_status_tool(),
        sync_contacts_tool(),
        list_groups_tool(),
    ]
}

/// The list of the tools.
pub open spec fn tools_list() -> JsonView {
    JsonView::Object(Map::empty().insert("tools"@, JsonView::Array(listed_tools())))
}

/// Describes the tool that sends a message.
fn describe_send_message() -> (r: Json)
    ensures
        r@ == send_message_tool(),
{
    let mut required: Vec<Json> = Vec::new();
    required.push(Json::text("recipient"));
    required.push(Json::text("message"));
    assert(required@.map_values(|item: Json| item@) =~= seq![
        text_json("recipient"@),
        text_json("message"@),
    ]);
    let parameters = Json::object().with(
        "recipient",
        describe_parameter("string", "Phone number (+1234...), contact name, or UUID"),
    ).with("message", describe_parameter("string", "Message text to send"));
    list_tool(
        "send_message",
        "Send a Signal message to a contact",
        describe_schema(parameters).with("required", Json::array(required)),
    )
}

/// Describes the tool that reads the messages of a contact.
fn describe_get_messages() -> (r: Json)
    ensures
        r@ == get_messages_tool(),
{
    let mut required: Vec<Json> = Vec::new();
    required.push(Json::text("contact"));
    assert(required@.map_values(|item: Json| item@) =~= seq![text_json("contact"@)]);
    let parameters = Json::object().with(
        "contact",
        describe_parameter("string", "Phone number, contact name, or UUID"),
    ).with("limit", describe_parameter("integer", "Max messages to return (default 50)"));
    list_tool(
        "get_messages",
        "Get message history with a contact",
        describe_schema(parameters).with("required", Json::array(required)),
    )
}

/// Lists the tools.
pub fn rpc_tools_list() -> (r: Json)
    ensures
        r@ == tools_list(),
{
    let contact_filter = Json::object().with(
        "filter",
        describe_parameter("string", "Optional search filter for name or phone"),
    );
    let list_contacts = list_tool(
        "list_contacts",
        "List Signal contacts",
        describe_schema(contact_filter),
    );
    let limit = Json::object().with(
        "limit",
        describe_parameter("integer", "Max conversations to return (default 20)"),
    );
    let get_conversations = list_tool(
        "get_conversations",
        "List recent conversations",
        describe_schema(limit),
    );
    let get_status = list_tool(
        "get_status",
        "Get server connection status",
        describe_schema(Json::object()),
    );
    let sync_contacts = list_tool(
        "sync_contacts",
        "Request contacts sync from the primary device",
        describe_schema(Json::object()),
    );
    let group_filter = Json::object().with(
        "filter",
        describe_parameter("string", "Optional search filter for group name"),
    );
    let list_groups = list_tool(
        "list_groups",
        "List Signal groups",
        describe_schema(group_filter),
    );
    let mut tools: Vec<Json> = Vec::new();
    tools.push(describe_send_message());
    tools.push(list_contacts);
    tools.push(describe_get_messages());
    tools.push(get_conversations);
    tools.push(get_status);
    tools.push(sync_contacts);
    tools.push(list_groups);
    assert(tools@.map_values(|item: Json| item@) =~= listed_tools());
    Json::object().with("tools", Json::array(tools))
}

/// Whether a tool is listed under a name.
pub open spec fn is_listed(name: Seq<char>) -> bool {
    exists|i: int|
        0 <= i < listed_tools().len() && #[trigger] member(listed_tools()[i], "name"@) == Some(
            text_json(name),
        )
}

/// The tools that are listed are the tools that can be called.
pub proof fn listed_tools_can_be_called(name: Seq<char>)
    ensures
        is_listed(name) <==> tool_named(name) is Some,
{
    let tools = listed_tools();
    assert forall|n: Seq<char>, description: Seq<char>, s: Map<Seq<char>, JsonView>|
        member(#[trigger] listed_tool(n, description, s), "name"@) == Some(text_json(n)) by {
        reveal_strlit("name");
        reveal_strlit("description");
        reveal_strlit("inputSchema");
        assert("name"@.len() != "description"@.len());
        assert("name"@.len() != "inputSchema"@.len());
    }
    assert(member(tools[0], "name"@) == Some(text_json("send_message"@)));
    assert(member(tools[1], "name"@) == Some(text_json("list_contacts"@)));
    assert(member(tools[2], "name"@) == Some(text_json("get_messages"@)));
    assert(member(tools[3], "name"@) == Some(text_json("get_conversations"@)));
    assert(member(tools[4], "name"@) == Some(text_json("get_status"@)));
    assert(member(tools[5], "name"@) == Some(text_json("sync_contacts"@)));
    assert(member(tools[6], "name"@) == Some(text_json("list_groups"@)));
}

/// Each tool is found under its own name.
pub proof fn tools_have_their_names()
    ensures
        tool_named("send_message"@) == Some(Tool::SendMessage),
        tool_named("list_contacts"@) == Some(Tool::ListContacts),
        tool_named("get_messages"@) == Some(Tool::GetMessages),
        tool_named("get_conversations"@) == Some(Tool::GetConversations),
        tool_named("get_status"@) == Some(Tool::GetStatus),
        tool_named("sync_contacts"@) == Some(Tool::SyncContacts),
        tool_named("list_groups"@) == Some(Tool::ListGroups),
{
    reveal_strlit("send_message");
    reveal_strlit("list_contacts");
    reveal_strlit("get_messages");
    reveal_strlit("get_conversations");
    reveal_strlit("get_status");
    reveal_strlit("sync_contacts");
    reveal_strlit("list_groups");
    assert("send_message"@[0] == 's');
    assert("list_contacts"@[0] == 'l');
    assert("get_messages"@[0] == 'g');
    assert("sync_contacts"@[0] == 's');
    assert("send_message"@.len() == 12);
    assert("list_contacts"@.len() == 13);
    assert("get_messages"@.len() == 12);
    assert("get_conversations"@.len() == 17);
    assert("get_status"@.len() == 10);
    assert("sync_contacts"@.len() == 13);
    assert("list_groups"@.len() == 11);
}

} // verus!
