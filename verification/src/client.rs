//! The command line client: what it asks the server, and what it prints.

use vstd::prelude::*;

use crate::dispatch::{request_plan, Action, AskerView, PlanView, Shape};
use crate::json::{integer_json, member, text_json, text_value, unsigned_value, Json, JsonView};
use crate::json_text::{compact_json, compact_text};
use crate::paths::{joined, socket};
use crate::rpc::{told, ErrorView, RequestView};
use crate::text::{decimal, decimal_text, join2, join3, pad_right, padded};
use crate::tools::tools_have_their_names;

verus! {

/// How long connecting to the server may take.
pub const CONNECT_TIMEOUT_SECS: u64 = 5;

/// How long the server may take to answer.
pub const CALL_TIMEOUT_SECS: u64 = 30;

/// How long the server may take to send a message: other devices are told too.
pub const SEND_TIMEOUT_SECS: u64 = 120;

/// A request to the server, and how long to wait for its answer.
#[derive(Debug)]
pub struct Call {
    pub jsonrpc: String,
    pub id: u32,
    pub method: String,
    pub params: Json,
    pub timeout_secs: u64,
}

/// What a call says.
pub struct CallView {
    pub jsonrpc: Seq<char>,
    pub id: u32,
    pub method: Seq<char>,
    pub params: JsonView,
    pub timeout_secs: u64,
}

impl View for Call {
    type V = CallView;

    open spec fn view(&self) -> CallView {
        CallView {
            jsonrpc: self.jsonrpc@,
            id: self.id,
            method: self.method@,
            params: self.params@,
            timeout_secs: self.timeout_secs,
        }
    }
}

/// A call of a method.
pub open spec fn call_of(method: Seq<char>, params: JsonView, timeout_secs: u64) -> CallView {
    CallView { jsonrpc: "2.0"@, id: 1, method, params, timeout_secs }
}

/// A client of the server.
pub struct Client {
    socket_path: std::path::PathBuf,
}

impl Client {
    /// The socket that the server listens on.
    pub closed spec fn socket(self) -> std::path::PathBuf {
        self.socket_path
    }

    /// A client of the server with the given configuration directory.
    pub fn new(config_dir: &std::path::Path) -> (r: Client)
        ensures
            r.socket() == joined(config_dir, "signal-mcp.sock"@),
    {
        Client { socket_path: socket(config_dir) }
    }

    /// The socket that the server listens on.
    pub fn socket_path(&self) -> (r: &std::path::PathBuf)
        ensures
            *r == self.socket(),
    {
        &self.socket_path
    }

    /// The call of a method that is answered soon.
    fn call(&self, method: &str, params: Json) -> (r: Call)
        ensures
            r@ == call_of(method@, params@, CALL_TIMEOUT_SECS),
    {
        self.call_with_timeout(method, params, CALL_TIMEOUT_SECS)
    }

    /// The call of a method.
    fn call_with_timeout(&self, method: &str, params: Json, timeout_secs: u64) -> (r: Call)
        ensures
            r@ == call_of(method@, params@, timeout_secs),
    {
        Call {
            jsonrpc: "2.0".to_owned(),
            id: 1,
            method: method.to_owned(),
            params,
            timeout_secs,
        }
    }

    /// The call that sends a message.
    pub fn send_message(&self, recipient: &str, message: &str) -> (r: Call)
        ensures
            r@ == call_of(
                "send_message"@,
                send_params(recipient@, message@),
                SEND_TIMEOUT_SECS,
            ),
    {
        let params = Json::object().with("recipient", Json::text(recipient)).with(
            "message",
            Json::text(message),
        );
        self.call_with_timeout("send_message", params, SEND_TIMEOUT_SECS)
    }

    /// The call that asks for the status of the server.
    pub fn status(&self) -> (r: Call)
        ensures
            r@ == call_of("get_status"@, JsonView::Object(Map::empty()), CALL_TIMEOUT_SECS),
    {
        self.call("get_status", Json::object())
    }

    /// The call that asks for the contacts.
    pub fn list_contacts(&self, filter: Option<&str>) -> (r: Call)
        ensures
            r@ == call_of(
                "list_contacts"@,
                filter_params(filter.deep_view()),
                CALL_TIMEOUT_SECS,
            ),
    {
        self.call("list_contacts", filter_argument(filter))
    }

    /// The call that asks for the groups.
    pub fn list_groups(&self, filter: Option<&str>) -> (r: Call)
        ensures
            r@ == call_of("list_groups"@, filter_params(filter.deep_view()), CALL_TIMEOUT_SECS),
    {
        self.call("list_groups", filter_argument(filter))
    }

    /// The call that has the contacts and groups synchronized.
    pub fn sync_contacts(&self) -> (r: Call)
        ensures
            r@ == call_of("sync_contacts"@, JsonView::Object(Map::empty()), CALL_TIMEOUT_SECS),
    {
        self.call("sync_contacts", Json::object())
    }
}

/// The parameters that hold a message and who it is for.
pub open spec fn send_params(recipient: Seq<char>, message: Seq<char>) -> JsonView {
    JsonView::Object(
        Map::empty().insert("recipient"@, text_json(recipient)).insert(
            "message"@,
            text_json(message),
        ),
    )
}

/// The parameters that hold a filter.
pub open spec fn filter_params(filter: Option<Seq<char>>) -> JsonView {
    JsonView::Object(
        Map::empty().insert(
            "filter"@,
            match filter {
                Some(f) => text_json(f),
                None => JsonView::Null,
            },
        ),
    )
}

/// The parameters that hold a filter.
fn filter_argument(filter: Option<&str>) -> (r: Json)
    ensures
        r@ == filter_params(filter.deep_view()),
{
    let value = match filter {
        Some(f) => Json::text(f),
        None => Json::Null,
    };
    Json::object().with("filter", value)
}

/// How a call went.
#[derive(Debug)]
pub enum CallEvent {
    ConnectTimedOut,
    ConnectRefused,
    /// Writing the request, or reading or decoding the answer, failed.
    Failed(String),
    ReadTimedOut,
    /// The server answered: with a result, an error message, both or neither.
    Answered { result: Option<Json>, error: Option<String> },
}

/// What a call came to.
pub open spec fn call_outcome(event: CallEvent) -> Result<JsonView, Seq<char>> {
    match event {
        CallEvent::ConnectTimedOut => Err("Connection timeout. Server may be unresponsive."@),
        CallEvent::ConnectRefused => Err("Server not running. Start with: signal-mcp server"@),
        CallEvent::Failed(message) => Err(message@),
        CallEvent::ReadTimedOut => Err(
            "Server response timeout. Try 'signal-mcp stop' and restart the server."@,
        ),
        CallEvent::Answered { result, error } => match (result, error) {
            (_, Some(message)) => Err(message@),
            (Some(result), None) => Ok(result@),
            (None, None) => Err("Empty response"@),
        },
    }
}

/// What a call came to: the result that the server gave, or what to complain of.
pub fn finish_call(event: CallEvent) -> (r: Result<Json, String>)
    ensures
        match r {
            Ok(result) => call_outcome(event) == Ok::<JsonView, Seq<char>>(result@),
            Err(message) => call_outcome(event) == Err::<JsonView, Seq<char>>(message@),
        },
{
    match event {
        CallEvent::ConnectTimedOut => Err(
            "Connection timeout. Server may be unresponsive.".to_owned(),
        ),
        CallEvent::ConnectRefused => Err(
            "Server not running. Start with: signal-mcp server".to_owned(),
        ),
        CallEvent::Failed(message) => Err(message),
        CallEvent::ReadTimedOut => Err(
            "Server response timeout. Try 'signal-mcp stop' and restart the server.".to_owned(),
        ),
        CallEvent::Answered { result, error } => match error {
            Some(message) => Err(message),
            None => match result {
                Some(result) => Ok(result),
                None => Err("Empty response".to_owned()),
            },
        },
    }
}

/// A text, or what stands for none.
pub open spec fn text_or(value: Option<JsonView>, otherwise: Seq<char>) -> Seq<char> {
    match text_value(value) {
        Some(s) => s,
        None => otherwise,
    }
}

/// A number, or zero.
pub open spec fn number_or_zero(value: Option<JsonView>) -> nat {
    match unsigned_value(value) {
        Some(n) => n as nat,
        None => 0,
    }
}

/// The text of a member, or what stands for none.
fn member_text(value: &Json, key: &str, otherwise: &str) -> (r: String)
    ensures
        r@ == text_or(member(value@, key@), otherwise@),
{
    match value.get(key) {
        Some(found) => match found.as_str() {
            Some(s) => s.to_owned(),
            None => otherwise.to_owned(),
        },
        None => otherwise.to_owned(),
    }
}

/// The number of a member in decimal, zero for none.
fn member_number(value: &Json, key: &str) -> (r: String)
    ensures
        r@ == decimal(number_or_zero(member(value@, key@))),
{
    let n: u64 = match value.get(key) {
        Some(found) => match found.as_u64() {
            Some(n) => n,
            None => 0,
        },
        None => 0,
    };
    decimal_text(n)
}

/// What is printed of a message that was sent.
pub open spec fn sent_line(result: JsonView) -> Seq<char> {
    let timestamp = match member(result, "timestamp"@) {
        Some(t) => t,
        None => JsonView::Null,
    };
    "Sent! Timestamp: "@ + compact_json(timestamp)
}

/// What to print of a message that was sent.
pub fn sent_report(result: &Json) -> (r: String)
    ensures
        r@ == sent_line(result@),
{
    let timestamp = match result.get("timestamp") {
        Some(t) => compact_text(t),
        None => compact_text(&Json::Null),
    };
    join2("Sent! Timestamp: ", timestamp.as_str())
}

/// What is printed of the connection of the server.
pub open spec fn connection_line(result: JsonView) -> Seq<char> {
    let account = text_or(member(result, "account"@), "unknown"@);
    if member(result, "connected"@) == Some(JsonView::Bool(true)) {
        "Connected as "@ + account
    } else {
        "Not connected (account: "@ + account + ")"@
    }
}

/// The lines that tell the status of the server.
pub open spec fn status_lines(result: JsonView) -> Seq<Seq<char>> {
    let contacts = match member(result, "contacts_count"@) {
        Some(n) => n,
        None => JsonView::Null,
    };
    seq![connection_line(result), "Contacts: "@ + compact_json(contacts)]
}

/// What to print of the status of the server, line by line.
pub fn status_report(result: &Json) -> (r: Vec<String>)
    ensures
        r.deep_view() == status_lines(result@),
{
    let account = member_text(result, "account", "unknown");
    let connected = match result.get("connected") {
        Some(value) => match value.as_bool() {
            Some(b) => b,
            None => false,
        },
        None => false,
    };
    let contacts = match result.get("contacts_count") {
        Some(n) => compact_text(n),
        None => compact_text(&Json::Null),
    };
    let mut lines: Vec<String> = Vec::new();
    lines.push(
        if connected {
            join2("Connected as ", account.as_str())
        } else {
            join3("Not connected (account: ", account.as_str(), ")")
        },
    );
    lines.push(join2("Contacts: ", contacts.as_str()));
    assert(lines.deep_view() =~= status_lines(result@));
    lines
}

/// A line of a table: two columns filled up with spaces, and a last one.
pub open spec fn table_line(
    first: Seq<char>,
    first_width: nat,
    second: Seq<char>,
    second_width: nat,
    last: Seq<char>,
) -> Seq<char> {
    padded(first, first_width) + " "@ + (padded(second, second_width) + " "@ + last)
}

/// Writes a line of a table.
fn table_row(
    first: &str,
    first_width: usize,
    second: &str,
    second_width: usize,
    last: &str,
) -> (r: String)
    ensures
        r@ == table_line(first@, first_width as nat, second@, second_width as nat, last@),
{
    let left = pad_right(first, first_width);
    let middle = pad_right(second, second_width);
    let right = join3(middle.as_str(), " ", last);
    join3(left.as_str(), " ", right.as_str())
}

/// The line under the head of a table.
pub open spec fn rule() -> Seq<char> {
    "----------------------------------------------------------------------"@
}

/// The line of a contact.
pub open spec fn contact_line(contact: JsonView) -> Seq<char> {
    table_line(
        text_or(member(contact, "name"@), "-"@),
        20,
        text_or(member(contact, "phone"@), "-"@),
        15,
        text_or(member(contact, "uuid"@), "-"@),
    )
}

/// The line of a group.
pub open spec fn group_line(group: JsonView) -> Seq<char> {
    table_line(
        text_or(member(group, "name"@), "-"@),
        30,
        decimal(number_or_zero(member(group, "members_count"@))),
        10,
        text_or(member(group, "id"@), "-"@),
    )
}

/// The lines that list contacts.
pub open spec fn contact_lines(result: JsonView) -> Seq<Seq<char>> {
    match result {
        JsonView::Array(contacts) => if contacts.len() == 0 {
            seq!["No contacts found."@]
        } else {
            seq![table_line("NAME"@, 20, "PHONE"@, 15, "UUID"@), rule()] + contacts.map_values(
                |c: JsonView| contact_line(c),
            ) + seq![""@, "Total: "@ + decimal(contacts.len()) + " contact(s)"@]
        },
        _ => Seq::empty(),
    }
}

/// The lines that list groups.
pub open spec fn group_lines(result: JsonView) -> Seq<Seq<char>> {
    match result {
        JsonView::Array(groups) => if groups.len() == 0 {
            seq!["No groups found."@]
        } else {
            seq![table_line("NAME"@, 30, "MEMBERS"@, 10, "ID"@), rule()] + groups.map_values(
                |g: JsonView| group_line(g),
            ) + seq![""@, "Total: "@ + decimal(groups.len()) + " group(s)"@]
        },
        _ => Seq::empty(),
    }
}

/// What to print of the contacts, line by line.
pub fn contacts_report(result: &Json) -> (r: Vec<String>)
    ensures
        r.deep_view() == contact_lines(result@),
{
    let mut lines: Vec<String> = Vec::new();
    if let Some(contacts) = result.as_array() {
        let ghost views = contacts@.map_values(|item: Json| item@);
        if contacts.len() == 0 {
            lines.push("No contacts found.".to_owned());
        } else {
            lines.push(table_row("NAME", 20, "PHONE", 15, "UUID"));
            lines.push(
                "----------------------------------------------------------------------".to_owned(),
            );
            let ghost head = lines.deep_view();
            let mut i: usize = 0;
            assert(lines.deep_view() == head + views.take(0).map_values(
                |c: JsonView| contact_line(c),
            ));
            while i < contacts.len()
                invariant
                    i <= contacts.len(),
                    views == contacts@.map_values(|item: Json| item@),
                    lines.deep_view() == head + views.take(i as int).map_values(
                        |c: JsonView| contact_line(c),
                    ),
                decreases contacts.len() - i,
            {
                let contact = &contacts[i];
                let name = member_text(contact, "name", "-");
                let phone = member_text(contact, "phone", "-");
                let uuid = member_text(contact, "uuid", "-");
                let ghost before = lines.deep_view();
                lines.push(table_row(name.as_str(), 20, phone.as_str(), 15, uuid.as_str()));
                proof {
                    let f = |c: JsonView| contact_line(c);
                    assert(lines.deep_view() =~= before.push(contact_line(contact@)));
                    assert(views.take(i + 1).map_values(f) =~= views.take(i as int).map_values(
                        f,
                    ).push(contact_line(contact@)));
                    assert(head + views.take(i as int).map_values(f).push(contact_line(contact@))
                        =~= before.push(contact_line(contact@)));
                }
                i = i + 1;
            }
            assert(views.take(i as int) == views);
            let ghost body = lines.deep_view();
            lines.push(String::new());
            let total = decimal_text(contacts.len() as u64);
            lines.push(join3("Total: ", total.as_str(), " contact(s)"));
            proof {
                reveal_strlit("");
                assert(""@ =~= Seq::<char>::empty());
                assert(lines.deep_view() =~= body + seq![
                    ""@,
                    "Total: "@ + decimal(views.len()) + " contact(s)"@,
                ]);
            }
        }
    }
    assert(lines.deep_view() =~= contact_lines(result@));
    lines
}

/// What to print of the groups, line by line.
pub fn groups_report(result: &Json) -> (r: Vec<String>)
    ensures
        r.deep_view() == group_lines(result@),
{
    let mut lines: Vec<String> = Vec::new();
    if let Some(groups) = result.as_array() {
        let ghost views = groups@.map_values(|item: Json| item@);
        if groups.len() == 0 {
            lines.push("No groups found.".to_owned());
        } else {
            lines.push(table_row("NAME", 30, "MEMBERS", 10, "ID"));
            lines.push(
                "----------------------------------------------------------------------".to_owned(),
            );
            let ghost head = lines.deep_view();
            let mut i: usize = 0;
            assert(lines.deep_view() == head + views.take(0).map_values(
                |g: JsonView| group_line(g),
            ));
            while i < groups.len()
                invariant
                    i <= groups.len(),
                    views == groups@.map_values(|item: Json| item@),
                    lines.deep_view() == head + views.take(i as int).map_values(
                        |g: JsonView| group_line(g),
                    ),
                decreases groups.len() - i,
            {
                let group = &groups[i];
                let name = member_text(group, "name", "-");
                let members = member_number(group, "members_count");
                let id = member_text(group, "id", "-");
                let ghost before = lines.deep_view();
                lines.push(table_row(name.as_str(), 30, members.as_str(), 10, id.as_str()));
                proof {
                    let f = |g: JsonView| group_line(g);
                    assert(lines.deep_view() =~= before.push(group_line(group@)));
                    assert(views.take(i + 1).map_values(f) =~= views.take(i as int).map_values(
                        f,
                    ).push(group_line(group@)));
                    assert(head + views.take(i as int).map_values(f).push(group_line(group@))
                        =~= before.push(group_line(group@)));
                }
                i = i + 1;
            }
            assert(views.take(i as int) == views);
            let ghost body = lines.deep_view();
            lines.push(String::new());
            let total = decimal_text(groups.len() as u64);
            lines.push(join3("Total: ", total.as_str(), " group(s)"));
            proof {
                reveal_strlit("");
                assert(""@ =~= Seq::<char>::empty());
                assert(lines.deep_view() =~= body + seq![
                    ""@,
                    "Total: "@ + decimal(views.len()) + " group(s)"@,
                ]);
            }
        }
    }
    assert(lines.deep_view() =~= group_lines(result@));
    lines
}

/// What is printed before the contacts are synchronized.
pub fn sync_notice() -> (r: String)
    ensures
        r@ == "Requesting contacts sync from primary device..."@,
{
    "Requesting contacts sync from primary device...".to_owned()
}

/// What is printed once the contacts are synchronized.
pub open spec fn synced_line(result: JsonView) -> Seq<char> {
    "Synced "@ + decimal(number_or_zero(member(result, "contacts_count"@))) + " contacts and "@ + (
    decimal(number_or_zero(member(result, "groups_count"@))) + " groups"@)
}

/// What to print once the contacts are synchronized.
pub fn sync_report(result: &Json) -> (r: String)
    ensures
        r@ == synced_line(result@),
{
    let contacts = member_number(result, "contacts_count");
    let groups = member_number(result, "groups_count");
    let left = join3("Synced ", contacts.as_str(), " contacts and ");
    let right = join2(groups.as_str(), " groups");
    join2(left.as_str(), right.as_str())
}

/// The request that a call makes.
pub open spec fn call_request(call: CallView) -> RequestView {
    RequestView {
        jsonrpc: call.jsonrpc,
        id: Some(integer_json(call.id as int)),
        method: call.method,
        params: Some(call.params),
    }
}

/// How a request of the client is served that has its parameters read.
pub open spec fn client_plan(shape: Shape, params: JsonView) -> PlanView {
    PlanView::ReadArguments {
        asker: AskerView { id: Some(integer_json(1)), tool: false },
        shape,
        value: params,
    }
}

/// The server knows the methods that the client asks for, and reads the parameters that
/// the client sends as those of the method.
pub proof fn calls_reach_their_methods(params: JsonView, timeout_secs: u64)
    ensures
        request_plan(call_request(call_of("send_message"@, params, timeout_secs))) == client_plan(
            Shape::SendMessage,
            params,
        ),
        request_plan(call_request(call_of("list_contacts"@, params, timeout_secs))) == client_plan(
            Shape::ListContacts,
            params,
        ),
        request_plan(call_request(call_of("list_groups"@, params, timeout_secs))) == client_plan(
            Shape::ListGroups,
            params,
        ),
        request_plan(call_request(call_of("get_status"@, params, timeout_secs))) == (
        PlanView::Perform {
            asker: AskerView { id: Some(integer_json(1)), tool: false },
            action: Action::GetStatus,
        }),
        request_plan(call_request(call_of("sync_contacts"@, params, timeout_secs))) == (
        PlanView::Perform {
            asker: AskerView { id: Some(integer_json(1)), tool: false },
            action: Action::SyncContacts,
        }),
{
    tools_have_their_names();
}

/// The client takes from an answer what the method came to on the server: its result, or
/// the message of its error.
pub proof fn client_hears_the_outcome(
    id: Option<JsonView>,
    outcome: Result<JsonView, ErrorView>,
    result: Option<Json>,
    error: Option<String>,
)
    requires
        result.deep_view() == told(id, outcome).result,
        error.deep_view() == (match told(id, outcome).error {
            Some(e) => Some(e.message),
            None => None::<Seq<char>>,
        }),
    ensures
        call_outcome(CallEvent::Answered { result, error }) == (match outcome {
            Ok(value) => Ok::<JsonView, Seq<char>>(value),
            Err(e) => Err::<JsonView, Seq<char>>(e.message),
        }),
{
}

} // verus!
