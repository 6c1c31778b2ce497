//! What becomes of a request, and how it is answered.

use vstd::prelude::*;

use crate::dispatch::{
    action_for, call_plan, call_view, called_arguments, called_name, delivered,
    delivered_directly, direct_plan, needs_manager, request_plan, synced_directly_outcome, Action,
    Arguments, Asker, AskerView, DirectView, PlanView, Shape, ToolCallParams,
};
use crate::json::{member, text_value, Json, JsonView};
use crate::json_text::{compact_json, readable};
use crate::methods::{
    sync_outcome, synced_directly_json, synced_json, GetConversationsParams, GetMessagesParams,
    ListContactsParams, ListGroupsParams, Reply, SendMessageParams, SyncResult,
};
use crate::report_laws::a_text_is_content;
use crate::rpc::{
    failure, outcome_view, success, told, ErrorView, JsonRpcError, JsonRpcRequest, JsonRpcResponse,
    ResponseView, INVALID_PARAMS, INVALID_REQUEST, METHOD_NOT_FOUND, PARSE_ERROR, SERVER_ERROR,
};
use crate::tools::{introduction, tools_list};

verus! {

/// The names of the methods are all different.
proof fn lemma_method_names()
    ensures
        "send_message"@ != "list_contacts"@,
        "send_message"@ != "get_messages"@,
        "send_message"@ != "get_conversations"@,
        "send_message"@ != "get_status"@,
        "send_message"@ != "sync_contacts"@,
        "send_message"@ != "list_groups"@,
        "send_message"@ != "initialize"@,
        "send_message"@ != "notifications/initialized"@,
        "send_message"@ != "tools/list"@,
        "send_message"@ != "tools/call"@,
        "list_contacts"@ != "get_messages"@,
        "list_contacts"@ != "get_conversations"@,
        "list_contacts"@ != "get_status"@,
        "list_contacts"@ != "sync_contacts"@,
        "list_contacts"@ != "list_groups"@,
        "list_contacts"@ != "initialize"@,
        "list_contacts"@ != "notifications/initialized"@,
        "list_contacts"@ != "tools/list"@,
        "list_contacts"@ != "tools/call"@,
        "get_messages"@ != "get_conversations"@,
        "get_messages"@ != "get_status"@,
        "get_messages"@ != "sync_contacts"@,
        "get_messages"@ != "list_groups"@,
        "get_messages"@ != "initialize"@,
        "get_messages"@ != "notifications/initialized"@,
        "get_messages"@ != "tools/list"@,
        "get_messages"@ != "tools/call"@,
        "get_conversations"@ != "get_status"@,
        "get_conversations"@ != "sync_contacts"@,
        "get_conversations"@ != "list_groups"@,
        "get_conversations"@ != "initialize"@,
        "get_conversations"@ != "notifications/initialized"@,
        "get_conversations"@ != "tools/list"@,
        "get_conversations"@ != "tools/call"@,
        "get_status"@ != "sync_contacts"@,
        "get_status"@ != "list_groups"@,
        "get_status"@ != "initialize"@,
        "get_status"@ != "notifications/initialized"@,
        "get_status"@ != "tools/list"@,
        "get_status"@ != "tools/call"@,
        "sync_contacts"@ != "list_groups"@,
        "sync_contacts"@ != "initialize"@,
        "sync_contacts"@ != "notifications/initialized"@,
        "sync_contacts"@ != "tools/list"@,
        "sync_contacts"@ != "tools/call"@,
        "list_groups"@ != "initialize"@,
        "list_groups"@ != "notifications/initialized"@,
        "list_groups"@ != "tools/list"@,
        "list_groups"@ != "tools/call"@,
        "initialize"@ != "notifications/initialized"@,
        "initialize"@ != "tools/list"@,
        "initialize"@ != "tools/call"@,
        "notifications/initialized"@ != "tools/list"@,
        "notifications/initialized"@ != "tools/call"@,
        "tools/list"@ != "tools/call"@,
{
    reveal_strlit("send_message");
    reveal_strlit("list_contacts");
    reveal_strlit("get_messages");
    reveal_strlit("get_conversations");
    reveal_strlit("get_status");
    reveal_strlit("sync_contacts");
    reveal_strlit("list_groups");
    reveal_strlit("initialize");
    reveal_strlit("notifications/initialized");
    reveal_strlit("tools/list");
    reveal_strlit("tools/call");
    assert("send_message"@.len() == 12);
    assert("list_contacts"@.len() == 13);
    assert("get_messages"@.len() == 12);
    assert("get_conversations"@.len() == 17);
    assert("get_status"@.len() == 10);
    assert("sync_contacts"@.len() == 13);
    assert("list_groups"@.len() == 11);
    assert("initialize"@.len() == 10);
    assert("notifications/initialized"@.len() == 25);
    assert("tools/list"@.len() == 10);
    assert("tools/call"@.len() == 10);
    assert("send_message"@[0] != "get_messages"@[0]);
    assert("list_contacts"@[0] != "sync_contacts"@[0]);
    assert("get_status"@[0] != "initialize"@[0]);
    assert("get_status"@[0] != "tools/list"@[0]);
    assert("get_status"@[0] != "tools/call"@[0]);
    assert("initialize"@[0] != "tools/list"@[0]);
    assert("initialize"@[0] != "tools/call"@[0]);
    assert("tools/list"@[6] != "tools/call"@[6]);
}

/// Whether a name is one of the tools'.
pub open spec fn is_tool(name: Seq<char>) -> bool {
    ||| name == "send_message"@
    ||| name == "list_contacts"@
    ||| name == "get_messages"@
    ||| name == "get_conversations"@
    ||| name == "get_status"@
    ||| name == "sync_contacts"@
    ||| name == "list_groups"@
}

/// Whether a name is one of the methods' of the protocol itself.
pub open spec fn is_of_protocol(name: Seq<char>) -> bool {
    ||| name == "initialize"@
    ||| name == "notifications/initialized"@
    ||| name == "tools/list"@
    ||| name == "tools/call"@
}

/// Whether a plan is to answer with an error, under the id, with the code and the message.
pub open spec fn refuses(
    plan: PlanView,
    id: Option<JsonView>,
    code: int,
    message: Seq<char>,
) -> bool {
    &&& plan matches PlanView::Reply(response)
    &&& response.jsonrpc == "2.0"@
    &&& response.id == id
    &&& response.result is None
    &&& response.error matches Some(e) && e.code == code && e.message == message
}

/// Whether a plan is to read a value as parameters, for who has the id.
pub open spec fn reads(
    plan: PlanView,
    id: Option<JsonView>,
    tool: bool,
    shape: Shape,
    value: JsonView,
) -> bool {
    plan == (PlanView::ReadArguments { asker: AskerView { id, tool }, shape, value })
}

/// Whether a plan is to carry out a method at once, for who has the id.
pub open spec fn performs(
    plan: PlanView,
    id: Option<JsonView>,
    tool: bool,
    action: Action,
) -> bool {
    plan == (PlanView::Perform { asker: AskerView { id, tool }, action })
}

/// A request that is not of version 2.0 of the protocol is refused.
pub proof fn other_versions_are_refused(request: JsonRpcRequest)
    requires
        request.jsonrpc@ != "2.0"@,
    ensures
        refuses(
            request_plan(request@),
            request.id.deep_view(),
            -32600,
            "Invalid Request: jsonrpc must be \"2.0\""@,
        ),
{
}

/// The parameters of a method are read as they are, as what the method takes; a method that
/// takes none, or has none, is carried out at once.
pub proof fn methods_get_their_parameters(request: JsonRpcRequest)
    requires
        request.jsonrpc@ == "2.0"@,
    ensures
        request.params matches Some(value) ==> {
            let plan = request_plan(request@);
            let id = request.id.deep_view();
            &&& request.method@ == "send_message"@ ==> reads(
                plan,
                id,
                false,
                Shape::SendMessage,
                value@,
            )
            &&& request.method@ == "list_contacts"@ ==> reads(
                plan,
                id,
                false,
                Shape::ListContacts,
                value@,
            )
            &&& request.method@ == "get_messages"@ ==> reads(
                plan,
                id,
                false,
                Shape::GetMessages,
                value@,
            )
            &&& request.method@ == "get_conversations"@ ==> reads(
                plan,
                id,
                false,
                Shape::GetConversations,
                value@,
            )
            &&& request.method@ == "list_groups"@ ==> reads(
                plan,
                id,
                false,
                Shape::ListGroups,
                value@,
            )
        },
        request.params is None ==> {
            let plan = request_plan(request@);
            let id = request.id.deep_view();
            &&& request.method@ == "send_message"@ ==> performs(
                plan,
                id,
                false,
                Action::SendMessage(None),
            )
            &&& request.method@ == "list_contacts"@ ==> performs(
                plan,
                id,
                false,
                Action::ListContacts(None),
            )
            &&& request.method@ == "list_groups"@ ==> performs(
                plan,
                id,
                false,
                Action::ListGroups(None),
            )
            &&& request.method@ == "get_messages"@ ==> performs(
                plan,
                id,
                false,
                Action::GetMessages(None),
            )
            &&& request.method@ == "get_conversations"@ ==> performs(
                plan,
                id,
                false,
                Action::GetConversations(20),
            )
        },
        request.method@ == "get_status"@ ==> performs(
            request_plan(request@),
            request.id.deep_view(),
            false,
            Action::GetStatus,
        ),
        request.method@ == "sync_contacts"@ ==> performs(
            request_plan(request@),
            request.id.deep_view(),
            false,
            Action::SyncContacts,
        ),
{
    lemma_method_names();
}

/// What the protocol itself asks for is answered at once, a call's parameters are read as
/// they are, and a method of no known name is refused by its name.
pub proof fn the_protocol_is_kept(request: JsonRpcRequest)
    requires
        request.jsonrpc@ == "2.0"@,
    ensures
        request.method@ == "initialize"@ ==> (request_plan(request@) matches PlanView::Reply(
            response,
        ) && response.id == request.id.deep_view() && response.error is None && response.result
            == Some(introduction())),
        request.method@ == "tools/list"@ ==> (request_plan(request@) matches PlanView::Reply(
            response,
        ) && response.id == request.id.deep_view() && response.error is None && response.result
            == Some(tools_list())),
        request.method@ == "notifications/initialized"@ ==> (request_plan(
            request@,
        ) matches PlanView::Reply(response) && response.id == request.id.deep_view()
            && response.error is None && (response.result matches Some(JsonView::Object(members))
            && members =~= Map::empty())),
        request.method@ == "tools/call"@ ==> match request.params {
            Some(value) => request_plan(request@) == (PlanView::ReadCall {
                id: request.id.deep_view(),
                value: value@,
            }),
            None => refuses(
                request_plan(request@),
                request.id.deep_view(),
                -32602,
                "Missing params"@,
            ),
        },
        !is_tool(request.method@) && !is_of_protocol(request.method@) ==> refuses(
            request_plan(request@),
            request.id.deep_view(),
            -32601,
            "Method not found: "@ + request.method@,
        ),
{
    lemma_method_names();
}

/// The arguments of a call are read as they are, as what the tool takes, and an empty object
/// where there are none; a tool of no known name is refused by its name, and parameters that
/// could not be read with the reason.
pub proof fn tools_get_their_arguments(
    id: Option<JsonView>,
    params: ToolCallParams,
    reason: String,
)
    ensures
        ({
            let plan = call_plan(id, call_view(Ok(params)));
            let value = match params.arguments {
                Some(arguments) => arguments@,
                None => JsonView::Object(Map::empty()),
            };
            &&& params.name@ == "send_message"@ ==> reads(plan, id, true, Shape::SendMessage, value)
            &&& params.name@ == "list_contacts"@ ==> reads(
                plan,
                id,
                true,
                Shape::ListContacts,
                value,
            )
            &&& params.name@ == "get_messages"@ ==> reads(plan, id, true, Shape::GetMessages, value)
            &&& params.name@ == "get_conversations"@ ==> reads(
                plan,
                id,
                true,
                Shape::GetConversations,
                value,
            )
            &&& params.name@ == "list_groups"@ ==> reads(plan, id, true, Shape::ListGroups, value)
            &&& params.name@ == "get_status"@ ==> performs(plan, id, true, Action::GetStatus)
            &&& params.name@ == "sync_contacts"@ ==> performs(plan, id, true, Action::SyncContacts)
            &&& !is_tool(params.name@) ==> refuses(
                plan,
                id,
                -32000,
                "Unknown tool: "@ + params.name@,
            )
        }),
        refuses(
            call_plan(id, call_view(Err(reason))),
            id,
            -32602,
            "Invalid params: "@ + reason@,
        ),
{
    lemma_method_names();
}

/// Parameters that were read are those that the method is carried out with. A filter or a
/// limit that was not given is none, or the usual one; where they could not be read, a
/// message and a history say why, a filter is none, and no conversation is listed.
pub proof fn methods_run_with_their_parameters(
    send: Result<SendMessageParams, String>,
    messages: Result<GetMessagesParams, String>,
    contacts: ListContactsParams,
    groups: ListGroupsParams,
    limit: i64,
    reason: String,
)
    ensures
        action_for(Arguments::SendMessage(send)) == Action::SendMessage(Some(send)),
        action_for(Arguments::GetMessages(messages)) == Action::GetMessages(Some(messages)),
        action_for(Arguments::ListContacts(Ok(contacts))) == Action::ListContacts(contacts.filter),
        action_for(Arguments::ListContacts(Err(reason))) == Action::ListContacts(None),
        action_for(Arguments::ListGroups(Ok(groups))) == Action::ListGroups(groups.filter),
        action_for(Arguments::ListGroups(Err(reason))) == Action::ListGroups(None),
        action_for(Arguments::GetConversations(Ok(GetConversationsParams { limit: Some(limit) })))
            == Action::GetConversations(limit),
        action_for(Arguments::GetConversations(Ok(GetConversationsParams { limit: None })))
            == Action::GetConversations(20),
        action_for(Arguments::GetConversations(Err(reason))) == Action::GetConversations(0),
{
}

/// Whether an answer tells a result, under the id.
pub open spec fn answers(response: ResponseView, id: Option<JsonView>, result: JsonView) -> bool {
    &&& response.jsonrpc == "2.0"@
    &&& response.id == id
    &&& response.result == Some(result)
    &&& response.error is None
}

/// Whether an answer tells a text as what a tool came to, under the id.
pub open spec fn answers_with_text(
    response: ResponseView,
    id: Option<JsonView>,
    text: Seq<char>,
) -> bool {
    &&& response.jsonrpc == "2.0"@
    &&& response.id == id
    &&& response.error is None
    &&& response.result matches Some(result)
    &&& member(result, "content"@) matches Some(JsonView::Array(items))
    &&& items.len() == 1
    &&& text_value(member(items[0], "type"@)) == Some("text"@)
    &&& text_value(member(items[0], "text"@)) == Some(text)
}

/// Whether an answer tells an error, under the id.
pub open spec fn complains(
    response: ResponseView,
    id: Option<JsonView>,
    code: int,
    message: Seq<char>,
) -> bool {
    &&& response.jsonrpc == "2.0"@
    &&& response.id == id
    &&& response.result is None
    &&& response.error matches Some(e) && e.code == code && e.message == message
}

/// The codes are those of JSON-RPC, and one of the server's own.
pub proof fn errors_have_their_codes()
    ensures
        PARSE_ERROR == -32700,
        INVALID_REQUEST == -32600,
        METHOD_NOT_FOUND == -32601,
        INVALID_PARAMS == -32602,
        SERVER_ERROR == -32000,
{
}

/// An answer says what it holds.
pub proof fn an_answer_says_what_it_holds(response: JsonRpcResponse)
    ensures
        response@.jsonrpc == response.jsonrpc@,
        response@.id == response.id.deep_view(),
        response.result matches Some(result) ==> response@.result == Some(result@),
        response.result is None ==> response@.result is None,
        response.error matches Some(e) ==> (response@.error matches Some(told) && told.code
            == e.code && told.message == e.message@),
        response.error is None ==> response@.error is None,
{
}

/// What a method came to is told as it is: its result, or its error with code and message.
pub proof fn outcomes_are_told_as_they_are(
    id: Option<JsonView>,
    result: Json,
    error: JsonRpcError,
)
    ensures
        answers(success(id, result@), id, result@),
        answers(told(id, outcome_view(Ok(result))), id, result@),
        complains(failure(id, error.code, error.message@), id, error.code as int, error.message@),
        complains(
            told(id, outcome_view(Err(error))),
            id,
            error.code as int,
            error.message@,
        ),
{
}

/// Who asked for a method is told its result as it is, and who called a tool is told it as a
/// text. An error keeps its message; one of a tool is an error of the server, but for who
/// holds the connection to Signal, who keeps its code.
pub proof fn outcomes_are_delivered_as_they_are(
    asker: Asker,
    result: Json,
    error: JsonRpcError,
)
    ensures
        !asker.tool ==> answers(
            delivered(asker@, outcome_view(Ok(result))),
            asker.id.deep_view(),
            result@,
        ),
        asker.tool ==> answers_with_text(
            delivered(asker@, outcome_view(Ok(result))),
            asker.id.deep_view(),
            readable(result@),
        ),
        complains(
            delivered(asker@, outcome_view(Err(error))),
            asker.id.deep_view(),
            if asker.tool {
                -32000
            } else {
                error.code as int
            },
            error.message@,
        ),
        !asker.tool ==> answers(
            delivered_directly(asker@, outcome_view(Ok(result))),
            asker.id.deep_view(),
            result@,
        ),
        asker.tool ==> answers_with_text(
            delivered_directly(asker@, outcome_view(Ok(result))),
            asker.id.deep_view(),
            compact_json(result@),
        ),
        complains(
            delivered_directly(asker@, outcome_view(Err(error))),
            asker.id.deep_view(),
            error.code as int,
            error.message@,
        ),
{
    a_text_is_content(readable(result@));
    a_text_is_content(compact_json(result@));
}

/// Parameters of a call, as an object or as an array of two, name the tool and hold its
/// arguments.
pub proof fn a_call_names_its_tool(
    name: Seq<char>,
    arguments: JsonView,
    members: Map<Seq<char>, JsonView>,
    items: Seq<JsonView>,
)
    ensures
        called_name(JsonView::Array(seq![JsonView::Text(name), arguments])) == Some(name),
        called_arguments(JsonView::Array(seq![JsonView::Text(name), arguments])) == Some(arguments),
        items.len() != 2 ==> called_name(JsonView::Array(items)) is None,
        items.len() != 2 ==> called_arguments(JsonView::Array(items)) is None,
        !(items[0] is Text) ==> called_name(JsonView::Array(items)) is None,
        !(arguments is Array) && !(arguments is Object) ==> called_name(arguments) is None
            && called_arguments(arguments) is None,
        called_name(JsonView::Object(members)) == Some(name) <==> members.contains_key("name"@)
            && members["name"@] == JsonView::Text(name),
        called_arguments(JsonView::Object(members)) == Some(arguments) <==> members.contains_key(
            "arguments"@,
        ) && members["arguments"@] == arguments,
        called_arguments(JsonView::Object(members)) is None <==> !members.contains_key(
            "arguments"@,
        ),
{
}

/// Only what sends a message or synchronizes needs Signal, asked for as a method or called
/// as a tool.
pub proof fn only_sending_and_syncing_need_signal(request: JsonRpcRequest)
    ensures
        needs_manager(request@) <==> {
            let wanted = if request.method@ == "tools/call"@ {
                match request.params {
                    Some(params) => called_name(params@),
                    None => None,
                }
            } else {
                Some(request.method@)
            };
            wanted == Some("send_message"@) || wanted == Some("sync_contacts"@)
        },
{
    lemma_method_names();
}

/// Who holds the connection to Signal is handed the arguments of a message as they are, and
/// an empty object where there are none; a sync keeps its id; anything else is refused.
pub proof fn requests_reach_signal_as_they_are(request: JsonRpcRequest)
    ensures
        request.method@ != "tools/call"@ ==> {
            let plan = direct_plan(request@);
            let id = request.id.deep_view();
            &&& request.method@ == "send_message"@ ==> plan == (DirectView::Send {
                asker: AskerView { id, tool: false },
                arguments: match request.params {
                    Some(params) => params@,
                    None => JsonView::Object(Map::empty()),
                },
            })
            &&& request.method@ == "sync_contacts"@ ==> plan == (DirectView::Sync { id })
            &&& request.method@ != "send_message"@ && request.method@ != "sync_contacts"@ ==> (
            plan matches DirectView::Reply(response) && complains(
                response,
                id,
                -32601,
                "Unknown manager method: "@ + request.method@,
            ))
        },
        request.method@ == "tools/call"@ ==> {
            let plan = direct_plan(request@);
            let id = request.id.deep_view();
            match request.params {
                None => plan matches DirectView::Reply(response) && complains(
                    response,
                    id,
                    -32602,
                    "Missing params"@,
                ),
                Some(params) => match called_name(params@) {
                    None => plan matches DirectView::Reply(response) && complains(
                        response,
                        id,
                        -32602,
                        "Missing tool name"@,
                    ),
                    Some(name) => {
                        &&& name == "send_message"@ ==> plan == (DirectView::Send {
                            asker: AskerView { id, tool: true },
                            arguments: match called_arguments(params@) {
                                Some(arguments) => arguments,
                                None => JsonView::Object(Map::empty()),
                            },
                        })
                        &&& name == "sync_contacts"@ ==> plan == (DirectView::Sync { id })
                        &&& name != "send_message"@ && name != "sync_contacts"@ ==> (
                        plan matches DirectView::Reply(response) && complains(
                            response,
                            id,
                            -32601,
                            "Unknown manager method: "@ + name,
                        ))
                    },
                },
            }
        },
{
    lemma_method_names();
}

/// A sync is told with the counts of what was stored, or with the reason why it failed.
pub proof fn a_sync_is_reported(counts: SyncResult, reason: String)
    ensures
        sync_outcome(Reply::Answered(Ok(counts))) == Ok::<JsonView, ErrorView>(
            synced_json(counts.contacts_count as nat, counts.groups_count as nat),
        ),
        sync_outcome(Reply::Answered(Err(reason))) matches Err(e) && e.code == -32000 && e.message
            == "Failed to request contacts sync: "@ + reason@,
        sync_outcome(Reply::ShuttingDown) matches Err(e) && e.code == -32000 && e.message
            =~= "Server shutting down"@,
        sync_outcome(Reply::ChannelClosed) matches Err(e) && e.code == -32000 && e.message
            =~= "Server error: channel closed"@,
        synced_directly_outcome(Ok(counts)) == Ok::<JsonView, ErrorView>(
            synced_directly_json(counts.contacts_count as nat, counts.groups_count as nat),
        ),
        synced_directly_outcome(Err(reason)) matches Err(e) && e.code == -32000 && e.message
            == "Failed to sync contacts: "@ + reason@,
{
}

} // verus!
