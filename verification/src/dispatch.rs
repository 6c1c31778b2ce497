//! Which method a request is for, and how its answer comes about.
//!
//! Decoding parameters and talking to Signal happen outside of this library. So a
//! request is served in steps: what to do next is a value, and what came of it is handed
//! to the next step.

use vstd::prelude::*;

use crate::json::{member, text_value, Json, JsonView};
use crate::json_text::{comes_back, compact_json, compact_text, readable, readable_text, reads_as};
use crate::methods::{
    contacts_outcome, content_json, conversations_outcome, finish_send_message,
    finish_send_message_direct, getting_messages_only_reads, groups_outcome, invalid_params,
    keep_ran, lists_come_back, missing_params, params_invalid, params_missing, reports_come_back,
    rpc_get_conversations, rpc_get_messages, rpc_get_messages_ran, rpc_get_status,
    rpc_list_contacts, rpc_list_groups, rpc_send_message, rpc_sync_contacts, send_complaint,
    send_message_ran, send_reply, sending_only_reads, sent_directly_json, sent_json, server_error,
    status_outcome, sync_contacts_direct, sync_outcome, synced_directly_json, text_content,
    GetConversationsParams, GetMessagesParams, ListContactsParams, ListGroupsParams, Outgoing,
    OutgoingView, RecipientView, Reply, SendMessageParams, SyncResult, CONVERSATIONS_LIMIT,
};
use crate::rpc::{
    failure, outcome_view, success, tell, told, ErrorView, JsonRpcRequest, JsonRpcResponse,
    Outcome, RequestView, ResponseView, INVALID_PARAMS, INVALID_REQUEST, METHOD_NOT_FOUND,
    PARSE_ERROR, SERVER_ERROR,
};
use crate::storage::{
    asked_once, contacts_of, conversations_of, get_conversations_statement, groups_of,
    list_contacts_statement, list_groups_statement, messages_of, only_read, reading_once_more,
    recent_first, same_file, within, Exchange, Storage,
};
use crate::text::{join2, same, trim, trimmed};
use crate::tools::{
    find_tool, introduction, rpc_initialize, rpc_tools_list, tool_named, tools_list, Tool,
};

verus! {

/// A method of the server. Each tool is a method of its own too.
#[derive(Debug, Clone, Copy, PartialEq, Eq, Structural)]
pub enum Method {
    Tool(Tool),
    Initialize,
    Initialized,
    ToolsList,
    ToolsCall,
}

/// The method that a name stands for.
pub open spec fn method_named(name: Seq<char>) -> Option<Method> {
    match tool_named(name) {
        Some(tool) => Some(Method::Tool(tool)),
        None => if name == "initialize"@ {
            Some(Method::Initialize)
        } else if name == "notifications/initialized"@ {
            Some(Method::Initialized)
        } else if name == "tools/list"@ {
            Some(Method::ToolsList)
        } else if name == "tools/call"@ {
            Some(Method::ToolsCall)
        } else {
            None
        },
    }
}

/// Finds the method that a name stands for.
pub fn find_method(name: &str) -> (r: Option<Method>)
    ensures
        r == method_named(name@),
{
    match find_tool(name) {
        Some(tool) => Some(Method::Tool(tool)),
        None => if same(name, "initialize") {
            Some(Method::Initialize)
        } else if same(name, "notifications/initialized") {
            Some(Method::Initialized)
        } else if same(name, "tools/list") {
            Some(Method::ToolsList)
        } else if same(name, "tools/call") {
            Some(Method::ToolsCall)
        } else {
            None
        },
    }
}

/// Who is answered: the request with the given id, which asked for a method, or called
/// it as a tool.
#[derive(Debug)]
pub struct Asker {
    pub id: Option<Json>,
    pub tool: bool,
}

/// What is known of who is answered.
pub struct AskerView {
    pub id: Option<JsonView>,
    pub tool: bool,
}

impl View for Asker {
    type V = AskerView;

    open spec fn view(&self) -> AskerView {
        AskerView { id: self.id.deep_view(), tool: self.tool }
    }
}

/// The parameters of `tools/call`.
#[derive(Debug)]
pub struct ToolCallParams {
    pub name: String,
    pub arguments: Option<Json>,
}

/// What the parameters of `tools/call` say.
pub struct ToolCallView {
    pub name: Seq<char>,
    pub arguments: Option<JsonView>,
}

impl View for ToolCallParams {
    type V = ToolCallView;

    open spec fn view(&self) -> ToolCallView {
        ToolCallView { name: self.name@, arguments: self.arguments.deep_view() }
    }
}

/// Which parameters a value is to be read as.
#[derive(Debug, Clone, Copy, PartialEq, Eq, Structural)]
pub enum Shape {
    SendMessage,
    ListContacts,
    ListGroups,
    GetMessages,
    GetConversations,
}

/// Parameters as they were read, or why they could not be.
#[derive(Debug)]
pub enum Arguments {
    SendMessage(Result<SendMessageParams, String>),
    ListContacts(Result<ListContactsParams, String>),
    ListGroups(Result<ListGroupsParams, String>),
    GetMessages(Result<GetMessagesParams, String>),
    GetConversations(Result<GetConversationsParams, String>),
}

/// A method together with its parameters.
#[derive(Debug)]
pub enum Action {
    SendMessage(Option<Result<SendMessageParams, String>>),
    ListContacts(Option<String>),
    ListGroups(Option<String>),
    GetMessages(Option<Result<GetMessagesParams, String>>),
    GetConversations(i64),
    GetStatus,
    SyncContacts,
}

/// How a request is served.
#[derive(Debug)]
pub enum Plan {
    /// Answer it.
    Reply(JsonRpcResponse),
    /// Read the value as the parameters of `tools/call`.
    ReadCall { id: Option<Json>, value: Json },
    /// Read the value as the parameters of a method.
    ReadArguments { asker: Asker, shape: Shape, value: Json },
    /// Carry out the method.
    Perform { asker: Asker, action: Action },
}

/// What a plan says.
pub enum PlanView {
    Reply(ResponseView),
    ReadCall { id: Option<JsonView>, value: JsonView },
    ReadArguments { asker: AskerView, shape: Shape, value: JsonView },
    Perform { asker: AskerView, action: Action },
}

impl View for Plan {
    type V = PlanView;

    open spec fn view(&self) -> PlanView {
        match *self {
            Plan::Reply(response) => PlanView::Reply(response@),
            Plan::ReadCall { id, value } => PlanView::ReadCall {
                id: id.deep_view(),
                value: value@,
            },
            Plan::ReadArguments { asker, shape, value } => PlanView::ReadArguments {
                asker: asker@,
                shape,
                value: value@,
            },
            Plan::Perform { asker, action } => PlanView::Perform { asker: asker@, action },
        }
    }
}

/// Which parameters a tool takes, if any.
pub open spec fn shape_of(tool: Tool) -> Option<Shape> {
    match tool {
        Tool::SendMessage => Some(Shape::SendMessage),
        Tool::ListContacts => Some(Shape::ListContacts),
        Tool::GetMessages => Some(Shape::GetMessages),
        Tool::GetConversations => Some(Shape::GetConversations),
        Tool::GetStatus => None,
        Tool::SyncContacts => None,
        Tool::ListGroups => Some(Shape::ListGroups),
    }
}

/// A tool without parameters.
pub open spec fn bare_action(tool: Tool) -> Action {
    match tool {
        Tool::SendMessage => Action::SendMessage(None),
        Tool::ListContacts => Action::ListContacts(None),
        Tool::GetMessages => Action::GetMessages(None),
        Tool::GetConversations => Action::GetConversations(CONVERSATIONS_LIMIT),
        Tool::GetStatus => Action::GetStatus,
        Tool::SyncContacts => Action::SyncContacts,
        Tool::ListGroups => Action::ListGroups(None),
    }
}

/// How a tool is run: parameters that it takes are read first.
pub open spec fn tool_plan(asker: AskerView, tool: Tool, params: Option<JsonView>) -> PlanView {
    match (shape_of(tool), params) {
        (Some(shape), Some(value)) => PlanView::ReadArguments { asker, shape, value },
        _ => PlanView::Perform { asker, action: bare_action(tool) },
    }
}

/// Plans how a tool is run.
fn plan_tool(asker: Asker, tool: Tool, params: Option<Json>) -> (r: Plan)
    ensures
        r@ == tool_plan(asker@, tool, params.deep_view()),
{
    let (shape, action) = match tool {
        Tool::SendMessage => (Some(Shape::SendMessage), Action::SendMessage(None)),
        Tool::ListContacts => (Some(Shape::ListContacts), Action::ListContacts(None)),
        Tool::GetMessages => (Some(Shape::GetMessages), Action::GetMessages(None)),
        Tool::GetConversations => (
            Some(Shape::GetConversations),
            Action::GetConversations(CONVERSATIONS_LIMIT),
        ),
        Tool::GetStatus => (None, Action::GetStatus),
        Tool::SyncContacts => (None, Action::SyncContacts),
        Tool::ListGroups => (Some(Shape::ListGroups), Action::ListGroups(None)),
    };
    match (shape, params) {
        (Some(shape), Some(value)) => Plan::ReadArguments { asker, shape, value },
        _ => Plan::Perform { asker, action },
    }
}

/// An error as an answer.
pub open spec fn refusal(id: Option<JsonView>, error: ErrorView) -> ResponseView {
    failure(id, error.code, error.message)
}

/// How a request is served.
pub open spec fn request_plan(request: RequestView) -> PlanView {
    if request.jsonrpc != "2.0"@ {
        PlanView::Reply(
            failure(
                request.id,
                INVALID_REQUEST,
                "Invalid Request: jsonrpc must be \"2.0\""@,
            ),
        )
    } else {
        match method_named(request.method) {
            Some(Method::Tool(tool)) => tool_plan(
                AskerView { id: request.id, tool: false },
                tool,
                request.params,
            ),
            Some(Method::Initialize) => PlanView::Reply(success(request.id, introduction())),
            Some(Method::Initialized) => PlanView::Reply(
                success(request.id, JsonView::Object(Map::empty())),
            ),
            Some(Method::ToolsList) => PlanView::Reply(success(request.id, tools_list())),
            Some(Method::ToolsCall) => match request.params {
                Some(value) => PlanView::ReadCall { id: request.id, value },
                None => PlanView::Reply(refusal(request.id, missing_params())),
            },
            None => PlanView::Reply(
                failure(request.id, METHOD_NOT_FOUND, "Method not found: "@ + request.method),
            ),
        }
    }
}

/// Plans how a request is served.
pub fn handle_request(request: JsonRpcRequest) -> (r: Plan)
    ensures
        r@ == request_plan(request@),
{
    if !same(request.jsonrpc.as_str(), "2.0") {
        return Plan::Reply(
            JsonRpcResponse::error(
                request.id,
                INVALID_REQUEST,
                "Invalid Request: jsonrpc must be \"2.0\"".to_owned(),
            ),
        );
    }
    match find_method(request.method.as_str()) {
        Some(Method::Tool(tool)) => plan_tool(
            Asker { id: request.id, tool: false },
            tool,
            request.params,
        ),
        Some(Method::Initialize) => Plan::Reply(
            JsonRpcResponse::success(request.id, rpc_initialize()),
        ),
        Some(Method::Initialized) => Plan::Reply(
            JsonRpcResponse::success(request.id, Json::object()),
        ),
        Some(Method::ToolsList) => Plan::Reply(
            JsonRpcResponse::success(request.id, rpc_tools_list()),
        ),
        Some(Method::ToolsCall) => match request.params {
            Some(value) => Plan::ReadCall { id: request.id, value },
            None => Plan::Reply(tell(request.id, Err(params_missing()))),
        },
        None => Plan::Reply(
            JsonRpcResponse::error(
                request.id,
                METHOD_NOT_FOUND,
                join2("Method not found: ", request.method.as_str()),
            ),
        ),
    }
}

/// What the parameters of `tools/call` say, or why they could not be read.
pub open spec fn call_view(call: Result<ToolCallParams, String>) -> Result<
    ToolCallView,
    Seq<char>,
> {
    match call {
        Ok(params) => Ok(params@),
        Err(reason) => Err(reason@),
    }
}

/// How the call of a tool is served.
pub open spec fn call_plan(
    id: Option<JsonView>,
    call: Result<ToolCallView, Seq<char>>,
) -> PlanView {
    match call {
        Ok(params) => match tool_named(params.name) {
            Some(tool) => tool_plan(
                AskerView { id, tool: true },
                tool,
                Some(
                    match params.arguments {
                        Some(arguments) => arguments,
                        None => JsonView::Object(Map::empty()),
                    },
                ),
            ),
            None => PlanView::Reply(
                failure(id, SERVER_ERROR, "Unknown tool: "@ + params.name),
            ),
        },
        Err(reason) => PlanView::Reply(refusal(id, invalid_params(reason))),
    }
}

/// Plans how the call of a tool is served.
pub fn rpc_tools_call(id: Option<Json>, call: Result<ToolCallParams, String>) -> (r: Plan)
    ensures
        r@ == call_plan(id.deep_view(), call_view(call)),
{
    match call {
        Ok(params) => match find_tool(params.name.as_str()) {
            Some(tool) => {
                let arguments = match params.arguments {
                    Some(arguments) => arguments,
                    None => Json::object(),
                };
                plan_tool(Asker { id, tool: true }, tool, Some(arguments))
            },
            None => Plan::Reply(
                JsonRpcResponse::error(
                    id,
                    SERVER_ERROR,
                    join2("Unknown tool: ", params.name.as_str()),
                ),
            ),
        },
        Err(reason) => Plan::Reply(tell(id, Err(params_invalid(reason.as_str())))),
    }
}

/// The method that parameters are for. A filter that is not given or could not be read lets
/// everything through. A number of conversations that is not given is the usual one; where
/// the parameters could not be read, none is listed.
pub open spec fn action_for(arguments: Arguments) -> Action {
    match arguments {
        Arguments::SendMessage(params) => Action::SendMessage(Some(params)),
        Arguments::ListContacts(Ok(params)) => Action::ListContacts(params.filter),
        Arguments::ListContacts(Err(_)) => Action::ListContacts(None),
        Arguments::ListGroups(Ok(params)) => Action::ListGroups(params.filter),
        Arguments::ListGroups(Err(_)) => Action::ListGroups(None),
        Arguments::GetMessages(params) => Action::GetMessages(Some(params)),
        Arguments::GetConversations(Ok(GetConversationsParams { limit: Some(limit) })) =>
            Action::GetConversations(limit),
        Arguments::GetConversations(Ok(GetConversationsParams { limit: None })) =>
            Action::GetConversations(CONVERSATIONS_LIMIT),
        Arguments::GetConversations(Err(_)) => Action::GetConversations(0),
    }
}

/// The method that parameters are for.
pub fn arguments_read(arguments: Arguments) -> (r: Action)
    ensures
        r == action_for(arguments),
{
    match arguments {
        Arguments::SendMessage(params) => Action::SendMessage(Some(params)),
        Arguments::ListContacts(Ok(params)) => Action::ListContacts(params.filter),
        Arguments::ListContacts(Err(_)) => Action::ListContacts(None),
        Arguments::ListGroups(Ok(params)) => Action::ListGroups(params.filter),
        Arguments::ListGroups(Err(_)) => Action::ListGroups(None),
        Arguments::GetMessages(params) => Action::GetMessages(Some(params)),
        Arguments::GetConversations(Ok(GetConversationsParams { limit: Some(limit) })) =>
            Action::GetConversations(limit),
        Arguments::GetConversations(Ok(GetConversationsParams { limit: None })) =>
            Action::GetConversations(CONVERSATIONS_LIMIT),
        Arguments::GetConversations(Err(_)) => Action::GetConversations(0),
    }
}

/// How far a method came without Signal.
#[derive(Debug)]
pub enum Step {
    /// It is done.
    Done(Outcome),
    /// The message is to be sent.
    Send(Outgoing),
    /// The contacts are to be synchronized.
    Sync,
}

/// What a step says.
pub enum StepView {
    Done(Result<JsonView, ErrorView>),
    Send(OutgoingView),
    Sync,
}

impl View for Step {
    type V = StepView;

    open spec fn view(&self) -> StepView {
        match *self {
            Step::Done(outcome) => StepView::Done(outcome_view(outcome)),
            Step::Send(outgoing) => StepView::Send(outgoing@),
            Step::Sync => StepView::Sync,
        }
    }
}

/// Whether a method was carried out between two states of the store, as far as it comes
/// without Signal.
pub open spec fn performed(
    before: Seq<Exchange>,
    after: Seq<Exchange>,
    action: Action,
    account_uuid: Seq<char>,
    step: StepView,
) -> bool {
    match action {
        Action::SendMessage(params) => exists|ready: Result<OutgoingView, ErrorView>| #[trigger]
            send_message_ran(before, after, params, ready) && step == (match ready {
                Ok(outgoing) => StepView::Send(outgoing),
                Err(e) => StepView::Done(Err::<JsonView, ErrorView>(e)),
            }),
        Action::ListContacts(filter) => {
            &&& asked_once(before, after, list_contacts_statement(filter.deep_view()))
            &&& step == StepView::Done(contacts_outcome(contacts_of(after.last().answer)))
        },
        Action::ListGroups(filter) => {
            &&& asked_once(before, after, list_groups_statement(filter.deep_view()))
            &&& step == StepView::Done(groups_outcome(groups_of(after.last().answer)))
        },
        Action::GetMessages(params) => exists|outcome: Result<JsonView, ErrorView>| #[trigger]
            rpc_get_messages_ran(before, after, params, outcome) && step == StepView::Done(outcome),
        Action::GetConversations(limit) => {
            &&& asked_once(before, after, get_conversations_statement(limit))
            &&& step == StepView::Done(
                conversations_outcome(conversations_of(after.last().answer)),
            )
            &&& conversations_of(after.last().answer) matches Ok(conversations) ==> recent_first(
                conversations,
            ) && within(conversations.len(), limit)
        },
        Action::GetStatus => {
            &&& asked_once(before, after, list_contacts_statement(None))
            &&& step == StepView::Done(
                status_outcome(account_uuid, contacts_of(after.last().answer)),
            )
            &&& contacts_of(after.last().answer) matches Ok(contacts) ==> contacts.len()
                <= usize::MAX
        },
        Action::SyncContacts => after == before && step == StepView::Sync,
    }
}

/// Carries out a method, as far as it comes without Signal.
pub fn perform(action: Action, account_uuid: &str, storage: &mut Storage) -> (r: Step)
    ensures
        same_file(*old(storage), *final(storage)),
        performed(
            old(storage).exchanges(),
            final(storage).exchanges(),
            action,
            account_uuid@,
            r@,
        ),
        r matches Step::Done(Ok(result)) ==> comes_back(result@),
{
    let step = match action {
        Action::SendMessage(params) => {
            let ready = rpc_send_message(params, storage);
            match ready {
                Ok(outgoing) => {
                    assert(send_message_ran(
                        old(storage).exchanges(),
                        storage.exchanges(),
                        params,
                        Ok::<OutgoingView, ErrorView>(outgoing@),
                    ));
                    Step::Send(outgoing)
                },
                Err(e) => {
                    assert(send_message_ran(
                        old(storage).exchanges(),
                        storage.exchanges(),
                        params,
                        Err::<OutgoingView, ErrorView>(e@),
                    ));
                    Step::Done(Err(e))
                },
            }
        },
        Action::ListContacts(filter) => Step::Done(rpc_list_contacts(filter, storage)),
        Action::ListGroups(filter) => Step::Done(rpc_list_groups(filter, storage)),
        Action::GetMessages(params) => Step::Done(rpc_get_messages(params, storage)),
        Action::GetConversations(limit) => Step::Done(rpc_get_conversations(limit, storage)),
        Action::GetStatus => Step::Done(rpc_get_status(account_uuid, storage)),
        Action::SyncContacts => Step::Sync,
    };
    proof {
        results_come_back(
            old(storage).exchanges(),
            storage.exchanges(),
            action,
            account_uuid@,
            step@,
        );
    }
    step
}

/// The answer to who asked for a method or called it as a tool. A tool answers with a
/// text for its reader, and every error of a tool is one of the server.
pub open spec fn delivered(asker: AskerView, outcome: Result<JsonView, ErrorView>) -> ResponseView {
    if asker.tool {
        match outcome {
            Ok(result) => success(asker.id, content_json(readable(result))),
            Err(e) => failure(asker.id, SERVER_ERROR, e.message),
        }
    } else {
        told(asker.id, outcome)
    }
}

/// Answers who asked for a method or called it as a tool.
pub fn deliver(asker: Asker, outcome: Outcome) -> (r: JsonRpcResponse)
    ensures
        r@ == delivered(asker@, outcome_view(outcome)),
        outcome matches Ok(result) ==> asker.tool && comes_back(result@) ==> reads_as(
            readable(result@),
            result@,
        ),
{
    if asker.tool {
        match outcome {
            Ok(result) => JsonRpcResponse::success(
                asker.id,
                text_content(readable_text(&result).as_str()),
            ),
            Err(e) => JsonRpcResponse::error(asker.id, SERVER_ERROR, e.message),
        }
    } else {
        tell(asker.id, outcome)
    }
}

/// What came of a message, once the manager replied.
pub open spec fn sent_outcome(outgoing: OutgoingView, reply: Reply<u64>) -> Result<
    JsonView,
    ErrorView,
> {
    match send_reply(reply) {
        Ok(timestamp) => Ok(sent_json(outgoing.recipient, timestamp)),
        Err(e) => Err(e),
    }
}

/// Answers who had a message sent, once the manager replied.
pub fn message_replied(
    asker: Asker,
    outgoing: Outgoing,
    reply: Reply<u64>,
    storage: &mut Storage,
) -> (r: JsonRpcResponse)
    ensures
        same_file(*old(storage), *final(storage)),
        r@ == delivered(asker@, sent_outcome(outgoing@, reply)),
        sent_outcome(outgoing@, reply) matches Ok(result) ==> asker.tool ==> reads_as(
            readable(result),
            result,
        ),
        match send_reply(reply) {
            Ok(timestamp) => keep_ran(
                old(storage).exchanges(),
                final(storage).exchanges(),
                outgoing@,
                timestamp,
            ),
            Err(_) => final(storage).exchanges() == old(storage).exchanges(),
        },
{
    proof {
        if let Ok(timestamp) = send_reply(reply) {
            reports_come_back(Seq::empty(), 0, 0, outgoing@.recipient, timestamp);
        }
    }
    let outcome = finish_send_message(outgoing, reply, storage);
    deliver(asker, outcome)
}

/// Answers who had the contacts synchronized, once the manager replied.
pub fn sync_replied(asker: Asker, reply: Reply<SyncResult>) -> (r: JsonRpcResponse)
    ensures
        r@ == delivered(asker@, sync_outcome(reply)),
        sync_outcome(reply) matches Ok(result) ==> asker.tool ==> reads_as(
            readable(result),
            result,
        ),
{
    proof {
        if let Reply::Answered(Ok(synced)) = &reply {
            let contacts = synced.contacts_count as nat;
            let groups = synced.groups_count as nat;
            reports_come_back(
                Seq::empty(),
                contacts,
                groups,
                RecipientView::Contact(Seq::empty()),
                0,
            );
        }
    }
    let outcome = rpc_sync_contacts(reply);
    deliver(asker, outcome)
}

/// The tool that the parameters of `tools/call` name. They are an object or, in the order
/// of its members, an array.
pub open spec fn called_name(params: JsonView) -> Option<Seq<char>> {
    match params {
        JsonView::Array(items) => if items.len() == 2 {
            text_value(Some(items[0]))
        } else {
            None
        },
        _ => text_value(member(params, "name"@)),
    }
}

/// The arguments that the parameters of `tools/call` hold, if any.
pub open spec fn called_arguments(params: JsonView) -> Option<JsonView> {
    match params {
        JsonView::Array(items) => if items.len() == 2 {
            Some(items[1])
        } else {
            None
        },
        _ => member(params, "arguments"@),
    }
}

/// The tool that the parameters of `tools/call` name.
fn name_called(params: &Json) -> (r: Option<&str>)
    ensures
        r.deep_view() == called_name(params@),
{
    let name = match params.as_array() {
        Some(items) => if items.len() == 2 {
            Some(&items[0])
        } else {
            None
        },
        None => params.get("name"),
    };
    match name {
        Some(value) => value.as_str(),
        None => None,
    }
}

/// The arguments that the parameters of `tools/call` hold, if any.
fn arguments_called(params: &Json) -> (r: Option<&Json>)
    ensures
        r.deep_view() == called_arguments(params@),
{
    match params.as_array() {
        Some(items) => if items.len() == 2 {
            Some(&items[1])
        } else {
            None
        },
        None => params.get("arguments"),
    }
}

/// Whether a request cannot be served without Signal.
pub open spec fn needs_manager(request: RequestView) -> bool {
    ||| request.method == "send_message"@
    ||| request.method == "sync_contacts"@
    ||| {
        &&& request.method == "tools/call"@
        &&& request.params matches Some(params)
        &&& called_name(params) matches Some(name)
        &&& name == "send_message"@ || name == "sync_contacts"@
    }
}

/// Tells whether a request cannot be served without Signal.
pub fn request_needs_manager(request: &JsonRpcRequest) -> (r: bool)
    ensures
        r == needs_manager(request@),
{
    let method = request.method.as_str();
    if same(method, "send_message") || same(method, "sync_contacts") {
        return true;
    }
    if same(method, "tools/call") {
        if let Some(params) = &request.params {
            if let Some(name) = name_called(params) {
                return same(name, "send_message") || same(name, "sync_contacts");
            }
        }
    }
    false
}

/// How a request that needs Signal is served by who holds the connection to it.
#[derive(Debug)]
pub enum DirectPlan {
    /// Answer it.
    Reply(JsonRpcResponse),
    /// Read the arguments as those of `send_message`, and send the message.
    Send { asker: Asker, arguments: Json },
    /// Synchronize the contacts.
    Sync { id: Option<Json> },
}

/// What such a plan says.
pub enum DirectView {
    Reply(ResponseView),
    Send { asker: AskerView, arguments: JsonView },
    Sync { id: Option<JsonView> },
}

impl View for DirectPlan {
    type V = DirectView;

    open spec fn view(&self) -> DirectView {
        match *self {
            DirectPlan::Reply(response) => DirectView::Reply(response@),
            DirectPlan::Send { asker, arguments } => DirectView::Send {
                asker: asker@,
                arguments: arguments@,
            },
            DirectPlan::Sync { id } => DirectView::Sync { id: id.deep_view() },
        }
    }
}

/// A value, or an empty object for none.
pub open spec fn or_empty(value: Option<JsonView>) -> JsonView {
    match value {
        Some(v) => v,
        None => JsonView::Object(Map::empty()),
    }
}

/// How a method that needs Signal is served by who holds the connection to it.
pub open spec fn direct_method(
    asker: AskerView,
    name: Seq<char>,
    arguments: JsonView,
) -> DirectView {
    if name == "send_message"@ {
        DirectView::Send { asker, arguments }
    } else if name == "sync_contacts"@ {
        DirectView::Sync { id: asker.id }
    } else {
        DirectView::Reply(
            failure(asker.id, METHOD_NOT_FOUND, "Unknown manager method: "@ + name),
        )
    }
}

/// How a request is served by who holds the connection to Signal.
pub open spec fn direct_plan(request: RequestView) -> DirectView {
    if request.method == "tools/call"@ {
        match request.params {
            Some(params) => match called_name(params) {
                Some(name) => direct_method(
                    AskerView { id: request.id, tool: true },
                    name,
                    or_empty(called_arguments(params)),
                ),
                None => DirectView::Reply(
                    failure(request.id, INVALID_PARAMS, "Missing tool name"@),
                ),
            },
            None => DirectView::Reply(refusal(request.id, missing_params())),
        }
    } else {
        direct_method(
            AskerView { id: request.id, tool: false },
            request.method,
            or_empty(request.params),
        )
    }
}

/// Plans how a method that needs Signal is served by who holds the connection to it.
fn plan_direct(asker: Asker, name: &str, arguments: Json) -> (r: DirectPlan)
    ensures
        r@ == direct_method(asker@, name@, arguments@),
{
    if same(name, "send_message") {
        DirectPlan::Send { asker, arguments }
    } else if same(name, "sync_contacts") {
        DirectPlan::Sync { id: asker.id }
    } else {
        DirectPlan::Reply(
            JsonRpcResponse::error(
                asker.id,
                METHOD_NOT_FOUND,
                join2("Unknown manager method: ", name),
            ),
        )
    }
}

/// Plans how a request is served by who holds the connection to Signal.
pub fn handle_manager_request_direct(request: JsonRpcRequest) -> (r: DirectPlan)
    ensures
        r@ == direct_plan(request@),
{
    if same(request.method.as_str(), "tools/call") {
        let params = match request.params {
            Some(params) => params,
            None => return DirectPlan::Reply(tell(request.id, Err(params_missing()))),
        };
        match name_called(&params) {
            Some(name) => {
                let arguments = match arguments_called(&params) {
                    Some(arguments) => arguments.duplicate(),
                    None => Json::object(),
                };
                plan_direct(Asker { id: request.id, tool: true }, name, arguments)
            },
            None => DirectPlan::Reply(
                JsonRpcResponse::error(request.id, INVALID_PARAMS, "Missing tool name".to_owned()),
            ),
        }
    } else {
        let arguments = match request.params {
            Some(params) => params,
            None => Json::object(),
        };
        plan_direct(
            Asker { id: request.id, tool: false },
            request.method.as_str(),
            arguments,
        )
    }
}

/// The answer of who holds the connection to Signal. One who called a tool is answered
/// with a text; an error is told as it is.
pub open spec fn delivered_directly(
    asker: AskerView,
    outcome: Result<JsonView, ErrorView>,
) -> ResponseView {
    match outcome {
        Ok(result) => success(
            asker.id,
            if asker.tool {
                content_json(compact_json(result))
            } else {
                result
            },
        ),
        Err(e) => refusal(asker.id, e),
    }
}

/// Answers for who holds the connection to Signal.
pub fn deliver_directly(asker: Asker, outcome: Outcome) -> (r: JsonRpcResponse)
    ensures
        r@ == delivered_directly(asker@, outcome_view(outcome)),
        outcome matches Ok(result) ==> asker.tool && comes_back(result@) ==> reads_as(
            compact_json(result@),
            result@,
        ),
{
    match outcome {
        Ok(result) => if asker.tool {
            let text = compact_text(&result);
            JsonRpcResponse::success(asker.id, text_content(text.as_str()))
        } else {
            JsonRpcResponse::success(asker.id, result)
        },
        Err(e) => tell(asker.id, Err(e)),
    }
}

/// What came of a message that was sent without a detour over the command channel.
pub open spec fn sent_directly_outcome(
    outgoing: OutgoingView,
    sent: Result<u64, String>,
) -> Result<JsonView, ErrorView> {
    match sent {
        Ok(timestamp) => Ok(sent_directly_json(outgoing.recipient, timestamp)),
        Err(reason) => Err(server_error(send_complaint(outgoing.recipient), reason@)),
    }
}

/// Answers who had a message sent, once it was sent without a detour over the command
/// channel.
pub fn message_sent_directly(
    asker: Asker,
    outgoing: Outgoing,
    sent: Result<u64, String>,
    storage: &mut Storage,
) -> (r: JsonRpcResponse)
    ensures
        same_file(*old(storage), *final(storage)),
        r@ == delivered_directly(asker@, sent_directly_outcome(outgoing@, sent)),
        sent_directly_outcome(outgoing@, sent) matches Ok(result) ==> asker.tool ==> reads_as(
            compact_json(result),
            result,
        ),
        match sent {
            Ok(timestamp) => keep_ran(
                old(storage).exchanges(),
                final(storage).exchanges(),
                outgoing@,
                timestamp,
            ),
            Err(_) => final(storage).exchanges() == old(storage).exchanges(),
        },
{
    proof {
        if let Ok(timestamp) = sent {
            reports_come_back(Seq::empty(), 0, 0, outgoing@.recipient, timestamp);
        }
    }
    let outcome = finish_send_message_direct(outgoing, sent, storage);
    deliver_directly(asker, outcome)
}

/// What came of synchronizing without a detour over the command channel.
pub open spec fn synced_directly_outcome(synced: Result<SyncResult, String>) -> Result<
    JsonView,
    ErrorView,
> {
    match synced {
        Ok(counts) => Ok(
            synced_directly_json(counts.contacts_count as nat, counts.groups_count as nat),
        ),
        Err(reason) => Err(server_error("Failed to sync contacts: "@, reason@)),
    }
}

/// Answers who had the contacts synchronized without a detour over the command channel:
/// with a text, whether the tool was called or the method was asked for.
pub fn contacts_synced_directly(id: Option<Json>, synced: Result<SyncResult, String>) -> (r:
    JsonRpcResponse)
    ensures
        r@ == delivered_directly(
            AskerView { id: id.deep_view(), tool: true },
            synced_directly_outcome(synced),
        ),
        synced_directly_outcome(synced) matches Ok(result) ==> reads_as(
            compact_json(result),
            result,
        ),
{
    proof {
        if let Ok(counts) = &synced {
            reports_come_back(
                Seq::empty(),
                counts.contacts_count as nat,
                counts.groups_count as nat,
                RecipientView::Contact(Seq::empty()),
                0,
            );
        }
    }
    let outcome = sync_contacts_direct(synced);
    deliver_directly(Asker { id, tool: true }, outcome)
}

/// How a request that came over standard input is served.
#[derive(Debug)]
pub enum Route {
    Usual(Plan),
    Direct(DirectPlan),
}

/// A request that came over standard input: how it is served, and whether its answer is
/// written.
#[derive(Debug)]
pub struct StdioPlan {
    pub respond: bool,
    pub route: Route,
}

/// Plans how a request that came over standard input is served. One loop reads the
/// requests and carries out what needs Signal, so what needs Signal must not wait for
/// another turn of the loop. A notification is not answered.
pub fn stdio_request(request: JsonRpcRequest) -> (r: StdioPlan)
    ensures
        r.respond == (request@.id is Some),
        match r.route {
            Route::Usual(plan) => !needs_manager(request@) && plan@ == request_plan(request@),
            Route::Direct(plan) => needs_manager(request@) && plan@ == direct_plan(request@),
        },
{
    let respond = request.id.is_some();
    if request_needs_manager(&request) {
        StdioPlan { respond, route: Route::Direct(handle_manager_request_direct(request)) }
    } else {
        StdioPlan { respond, route: Route::Usual(handle_request(request)) }
    }
}

/// The request that a line holds, without the blanks around it. A blank line holds none.
pub fn request_line(line: &str) -> (r: Option<String>)
    ensures
        match r {
            Some(text) => text@ == trimmed(line@) && trimmed(line@).len() > 0,
            None => trimmed(line@).len() == 0,
        },
{
    let text = trim(line);
    if text.as_str().unicode_len() == 0 {
        None
    } else {
        Some(text)
    }
}

/// The answer to a line that holds no request.
pub fn parse_failure(reason: &str) -> (r: JsonRpcResponse)
    ensures
        r@ == failure(None, PARSE_ERROR, "Parse error: "@ + reason@),
{
    JsonRpcResponse::error(None, PARSE_ERROR, join2("Parse error: ", reason))
}

/// The id that the answer to a request will carry.
pub open spec fn plan_id(plan: PlanView) -> Option<JsonView> {
    match plan {
        PlanView::Reply(response) => response.id,
        PlanView::ReadCall { id, .. } => id,
        PlanView::ReadArguments { asker, .. } => asker.id,
        PlanView::Perform { asker, .. } => asker.id,
    }
}

/// The id that the answer to a request will carry.
pub open spec fn direct_id(plan: DirectView) -> Option<JsonView> {
    match plan {
        DirectView::Reply(response) => response.id,
        DirectView::Send { asker, .. } => asker.id,
        DirectView::Sync { id } => id,
    }
}

/// Whichever way a request is served, its answer carries its id.
pub proof fn answers_carry_the_id(
    request: RequestView,
    id: Option<JsonView>,
    call: Result<ToolCallView, Seq<char>>,
    asker: AskerView,
    outcome: Result<JsonView, ErrorView>,
)
    ensures
        plan_id(request_plan(request)) == request.id,
        plan_id(call_plan(id, call)) == id,
        direct_id(direct_plan(request)) == request.id,
        delivered(asker, outcome).id == asker.id,
        delivered_directly(asker, outcome).id == asker.id,
{
}

/// Whether an answer is of version 2.0 of the protocol and holds a result or an error,
/// not both.
pub open spec fn well_formed(response: ResponseView) -> bool {
    &&& response.jsonrpc == "2.0"@
    &&& response.result is Some <==> response.error is None
}

/// Whichever way a request is served, its answer is well formed.
pub proof fn answers_are_well_formed(
    request: RequestView,
    id: Option<JsonView>,
    call: Result<ToolCallView, Seq<char>>,
    asker: AskerView,
    outcome: Result<JsonView, ErrorView>,
)
    ensures
        request_plan(request) matches PlanView::Reply(response) ==> well_formed(response),
        call_plan(id, call) matches PlanView::Reply(response) ==> well_formed(response),
        direct_plan(request) matches DirectView::Reply(response) ==> well_formed(response),
        well_formed(delivered(asker, outcome)),
        well_formed(delivered_directly(asker, outcome)),
{
}

/// Whether a method waits for who holds the connection to Signal.
pub open spec fn waits(action: Action) -> bool {
    action is SendMessage || action is SyncContacts
}

/// Whether a plan leads to a method that waits for who holds the connection to Signal.
pub open spec fn plan_waits(plan: PlanView) -> bool {
    match plan {
        PlanView::Reply(_) => false,
        PlanView::ReadCall { .. } => false,
        PlanView::ReadArguments { shape, .. } => shape == Shape::SendMessage,
        PlanView::Perform { action, .. } => waits(action),
    }
}

/// A request that is said to do without Signal never waits for it: neither does the
/// method that it asks for, nor the tool that it calls, whose name is read from the
/// parameters, be they an object or an array.
pub proof fn other_requests_do_not_wait(
    request: RequestView,
    call: Result<ToolCallView, Seq<char>>,
)
    requires
        !needs_manager(request),
    ensures
        !plan_waits(request_plan(request)),
        request_plan(request) matches PlanView::ReadCall { id, value } ==> (call matches Ok(params)
            ==> called_name(value) == Some(params.name)) ==> !plan_waits(call_plan(id, call)),
{
}

/// A method that does not wait for Signal is done at once.
pub proof fn other_methods_are_done_at_once(
    before: Seq<Exchange>,
    after: Seq<Exchange>,
    action: Action,
    account_uuid: Seq<char>,
    step: StepView,
)
    requires
        performed(before, after, action, account_uuid, step),
        !waits(action),
    ensures
        step is Done,
{
}

/// As far as a method comes without Signal, it only reads from the store.
pub proof fn methods_only_read(
    before: Seq<Exchange>,
    after: Seq<Exchange>,
    action: Action,
    account_uuid: Seq<char>,
    step: StepView,
)
    requires
        performed(before, after, action, account_uuid, step),
    ensures
        only_read(before, after),
{
    assert(before.take(before.len() as int) == before);
    assert(only_read(before, before));
    match action {
        Action::SendMessage(params) => {
            let ready = choose|ready: Result<OutgoingView, ErrorView>| #[trigger]
                send_message_ran(before, after, params, ready) && step == (match ready {
                    Ok(outgoing) => StepView::Send(outgoing),
                    Err(e) => StepView::Done(Err::<JsonView, ErrorView>(e)),
                });
            sending_only_reads(before, after, params, ready);
        },
        Action::ListContacts(filter) => {
            let asked = list_contacts_statement(filter.deep_view());
            reading_once_more(before, before, after, asked);
        },
        Action::ListGroups(filter) => {
            let asked = list_groups_statement(filter.deep_view());
            reading_once_more(before, before, after, asked);
        },
        Action::GetMessages(params) => {
            let outcome = choose|outcome: Result<JsonView, ErrorView>| #[trigger]
                rpc_get_messages_ran(before, after, params, outcome) && step == StepView::Done(
                    outcome,
                );
            getting_messages_only_reads(before, after, params, outcome);
        },
        Action::GetConversations(limit) => {
            reading_once_more(before, before, after, get_conversations_statement(limit));
        },
        Action::GetStatus => {
            reading_once_more(before, before, after, list_contacts_statement(None));
        },
        Action::SyncContacts => {},
    }
}

/// What a method comes to without Signal can be told as a text that comes back: a tool's
/// answer holds nothing less than the method's.
pub proof fn results_come_back(
    before: Seq<Exchange>,
    after: Seq<Exchange>,
    action: Action,
    account_uuid: Seq<char>,
    step: StepView,
)
    requires
        performed(before, after, action, account_uuid, step),
    ensures
        step matches StepView::Done(Ok(result)) ==> comes_back(result),
{
    let answer = after.last().answer;
    let contacts = match contacts_of(answer) {
        Ok(contacts) => contacts,
        Err(_) => Seq::empty(),
    };
    let groups = match groups_of(answer) {
        Ok(groups) => groups,
        Err(_) => Seq::empty(),
    };
    let messages = match messages_of(answer) {
        Ok(messages) => messages,
        Err(_) => Seq::empty(),
    };
    let conversations = match conversations_of(answer) {
        Ok(conversations) => conversations,
        Err(_) => Seq::empty(),
    };
    lists_come_back(contacts, groups, messages, conversations);
    if action is GetStatus {
        if let Ok(contacts) = contacts_of(answer) {
            let recipient = RecipientView::Contact(Seq::empty());
            reports_come_back(account_uuid, contacts.len(), 0, recipient, 0);
        }
    }
}

/// Of who sends a message, only who calls the tool is answered with a text: who asks for
/// the method gets its result as it is.
pub proof fn only_tools_answer_with_a_text(
    request: RequestView,
    asker: AskerView,
    result: JsonView,
)
    ensures
        direct_plan(request) matches DirectView::Send { asker: a, .. } ==> a.tool == (request.method
            == "tools/call"@),
        !asker.tool ==> delivered(asker, Ok(result)).result == Some(result),
        !asker.tool ==> delivered_directly(asker, Ok(result)).result == Some(result),
{
}

/// Whether parameters were read as what they were to be read as.
pub open spec fn fits(shape: Shape, arguments: Arguments) -> bool {
    match shape {
        Shape::SendMessage => arguments is SendMessage,
        Shape::ListContacts => arguments is ListContacts,
        Shape::ListGroups => arguments is ListGroups,
        Shape::GetMessages => arguments is GetMessages,
        Shape::GetConversations => arguments is GetConversations,
    }
}

/// The tool that carries out a method.
pub open spec fn tool_of(action: Action) -> Tool {
    match action {
        Action::SendMessage(_) => Tool::SendMessage,
        Action::ListContacts(_) => Tool::ListContacts,
        Action::ListGroups(_) => Tool::ListGroups,
        Action::GetMessages(_) => Tool::GetMessages,
        Action::GetConversations(_) => Tool::GetConversations,
        Action::GetStatus => Tool::GetStatus,
        Action::SyncContacts => Tool::SyncContacts,
    }
}

/// The method that is carried out is the one that was asked for, at once or after its
/// parameters were read.
pub proof fn the_method_asked_for_is_carried_out(
    asker: AskerView,
    tool: Tool,
    params: Option<JsonView>,
    arguments: Arguments,
)
    ensures
        tool_plan(asker, tool, params) matches PlanView::Perform { action, .. } ==> tool_of(action)
            == tool,
        tool_plan(asker, tool, params) matches PlanView::ReadArguments { shape, .. } ==> fits(
            shape,
            arguments,
        ) ==> tool_of(action_for(arguments)) == tool,
        tool_plan(asker, tool, params) is Perform || tool_plan(asker, tool, params)
            is ReadArguments,
{
}

/// A request that needs Signal is served by who holds the connection to it: it is not
/// turned away.
pub proof fn manager_requests_are_served(request: RequestView)
    requires
        needs_manager(request),
    ensures
        direct_plan(request) !is Reply,
{
    reveal_strlit("tools/call");
    reveal_strlit("send_message");
    reveal_strlit("sync_contacts");
    assert("tools/call"@.len() != "send_message"@.len());
    assert("tools/call"@.len() != "sync_contacts"@.len());
}

/// Whether two plans do the same work, though who asked is answered differently.
pub open spec fn same_work(a: PlanView, b: PlanView) -> bool {
    match (a, b) {
        (
            PlanView::ReadArguments { shape: s, value: v, .. },
            PlanView::ReadArguments { shape: t, value: w, .. },
        ) => s == t && v == w,
        (PlanView::Perform { action: x, .. }, PlanView::Perform { action: y, .. }) => x == y,
        _ => false,
    }
}

/// Calling a tool does what asking for the method of its name with the same parameters
/// does.
pub proof fn tool_call_is_the_method(
    id: Option<JsonView>,
    name: Seq<char>,
    arguments: JsonView,
)
    requires
        tool_named(name) is Some,
    ensures
        same_work(
            call_plan(id, Ok(ToolCallView { name, arguments: Some(arguments) })),
            request_plan(
                (RequestView { jsonrpc: "2.0"@, id, method: name, params: Some(arguments) }),
            ),
        ),
{
}

} // verus!
