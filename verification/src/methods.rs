//! The methods that the server offers, and what each of them comes to.

use vstd::prelude::*;

use crate::json::{integer_json, integer_number, member, text_json, unsigned_value, Json, JsonView};
use crate::json_text::{comes_back, is_integer, plain};
use crate::rpc::{outcome_view, ErrorView, JsonRpcError, Outcome, INVALID_PARAMS, SERVER_ERROR};
use crate::storage::{
    all_before, asked_once, contacts_of, conversations_of, get_conversations_statement,
    get_messages_before_statement, get_messages_statement, groups_of, in_time_order,
    insert_message_statement, list_contacts_statement, list_groups_statement, lookup_of,
    lookup_statement, messages_of, only_read, reading_once_more, recent_first, resolve_ran,
    resolving_only_reads, rows_view, same_file, search_view, within, Contact, ContactView,
    Conversation, ConversationView, Exchange, Group, GroupView, LookupView, Message, MessageView,
    Search, Statement, Storage, StorageError, SELECT_GROUP,
};
use crate::text::{decimal, decimal_text, join2, join3};

verus! {

/// An optional text in JSON.
pub open spec fn optional_json(s: Option<Seq<char>>) -> JsonView {
    match s {
        Some(t) => text_json(t),
        None => JsonView::Null,
    }
}

/// A contact in JSON.
pub open spec fn contact_json(contact: ContactView) -> JsonView {
    JsonView::Object(
        Map::empty().insert("uuid"@, text_json(contact.uuid)).insert(
            "phone"@,
            optional_json(contact.phone),
        ).insert("name"@, optional_json(contact.name)),
    )
}

/// A group in JSON.
pub open spec fn group_json(group: GroupView) -> JsonView {
    JsonView::Object(
        Map::empty().insert("id"@, text_json(group.id)).insert(
            "name"@,
            optional_json(group.name),
        ).insert("members_count"@, integer_json(group.members_count as int)),
    )
}

/// A message in JSON.
pub open spec fn message_json(message: MessageView) -> JsonView {
    JsonView::Object(
        Map::empty().insert("id"@, integer_json(message.id as int)).insert(
            "contact_uuid"@,
            text_json(message.contact_uuid),
        ).insert("direction"@, text_json(message.direction)).insert(
            "body"@,
            text_json(message.body),
        ).insert("timestamp"@, integer_json(message.timestamp as int)),
    )
}

/// A conversation in JSON.
pub open spec fn conversation_json(conversation: ConversationView) -> JsonView {
    JsonView::Object(
        Map::empty().insert("contact"@, contact_json(conversation.contact)).insert(
            "last_message"@,
            text_json(conversation.last_message),
        ).insert("last_timestamp"@, integer_json(conversation.last_timestamp as int)).insert(
            "unread_count"@,
            integer_json(conversation.unread_count as int),
        ),
    )
}

/// Writes a contact in JSON.
fn contact_to_json(contact: &Contact) -> (r: Json)
    ensures
        r@ == contact_json(contact@),
{
    Json::object().with("uuid", Json::text(contact.uuid.as_str())).with(
        "phone",
        Json::optional_text(&contact.phone),
    ).with("name", Json::optional_text(&contact.name))
}

/// Writes a group in JSON.
fn group_to_json(group: &Group) -> (r: Json)
    ensures
        r@ == group_json(group@),
{
    Json::object().with("id", Json::text(group.id.as_str())).with(
        "name",
        Json::optional_text(&group.name),
    ).with("members_count", Json::unsigned(group.members_count as u64))
}

/// Writes a message in JSON.
fn message_to_json(message: &Message) -> (r: Json)
    ensures
        r@ == message_json(message@),
{
    Json::object().with("id", Json::signed(message.id)).with(
        "contact_uuid",
        Json::text(message.contact_uuid.as_str()),
    ).with("direction", Json::text(message.direction.as_str())).with(
        "body",
        Json::text(message.body.as_str()),
    ).with("timestamp", Json::signed(message.timestamp))
}

/// Writes a conversation in JSON.
fn conversation_to_json(conversation: &Conversation) -> (r: Json)
    ensures
        r@ == conversation_json(conversation@),
{
    Json::object().with("contact", contact_to_json(&conversation.contact)).with(
        "last_message",
        Json::text(conversation.last_message.as_str()),
    ).with("last_timestamp", Json::signed(conversation.last_timestamp)).with(
        "unread_count",
        Json::signed(conversation.unread_count),
    )
}

/// An error of the server, with its reason.
pub open spec fn server_error(complaint: Seq<char>, reason: Seq<char>) -> ErrorView {
    ErrorView { code: SERVER_ERROR, message: complaint + reason }
}

/// Reports an error of the server, with its reason.
fn server_failure(complaint: &str, reason: &str) -> (r: JsonRpcError)
    ensures
        r@ == server_error(complaint@, reason@),
{
    JsonRpcError { code: SERVER_ERROR, message: join2(complaint, reason) }
}

/// What listing the contacts comes to, once the store answered.
pub open spec fn contacts_outcome(found: Result<Seq<ContactView>, Seq<char>>) -> Result<
    JsonView,
    ErrorView,
> {
    match found {
        Ok(contacts) => Ok(
            JsonView::Array(contacts.map_values(|c: ContactView| contact_json(c))),
        ),
        Err(reason) => Err(server_error("Failed to list contacts: "@, reason)),
    }
}

/// What listing the contacts comes to, once the store answered.
pub fn contacts_found(found: Result<Vec<Contact>, StorageError>) -> (r: Outcome)
    ensures
        outcome_view(r) == contacts_outcome(rows_view(found)),
{
    match found {
        Ok(contacts) => {
            let mut items: Vec<Json> = Vec::new();
            let mut i: usize = 0;
            while i < contacts.len()
                invariant
                    i <= contacts.len(),
                    items.len() == i,
                    forall|k: int|
                        0 <= k < i ==> (#[trigger] items@[k])@ == contact_json(contacts@[k]@),
                decreases contacts.len() - i,
            {
                items.push(contact_to_json(&contacts[i]));
                i = i + 1;
            }
            assert(items@.map_values(|item: Json| item@) =~= contacts.deep_view().map_values(
                |c: ContactView| contact_json(c),
            ));
            Ok(Json::array(items))
        },
        Err(e) => Err(server_failure("Failed to list contacts: ", e.message.as_str())),
    }
}

/// Lists the contacts that a filter lets through.
pub fn rpc_list_contacts(filter: Option<String>, storage: &mut Storage) -> (r: Outcome)
    ensures
        same_file(*old(storage), *final(storage)),
        asked_once(
            old(storage).exchanges(),
            final(storage).exchanges(),
            list_contacts_statement(filter.deep_view()),
        ),
        outcome_view(r) == contacts_outcome(
            contacts_of(final(storage).exchanges().last().answer),
        ),
{
    let found = match &filter {
        Some(f) => storage.list_contacts(Some(f.as_str())),
        None => storage.list_contacts(None),
    };
    contacts_found(found)
}

/// What listing the groups comes to, once the store answered.
pub open spec fn groups_outcome(found: Result<Seq<GroupView>, Seq<char>>) -> Result<
    JsonView,
    ErrorView,
> {
    match found {
        Ok(groups) => Ok(
            JsonView::Array(groups.map_values(|x: GroupView| group_json(x))),
        ),
        Err(reason) => Err(server_error("Failed to list groups: "@, reason)),
    }
}

/// What listing the groups comes to, once the store answered.
pub fn groups_found(found: Result<Vec<Group>, StorageError>) -> (r: Outcome)
    ensures
        outcome_view(r) == groups_outcome(rows_view(found)),
{
    match found {
        Ok(groups) => {
            let mut items: Vec<Json> = Vec::new();
            let mut i: usize = 0;
            while i < groups.len()
                invariant
                    i <= groups.len(),
                    items.len() == i,
                    forall|k: int|
                        0 <= k < i ==> (#[trigger] items@[k])@ == group_json(groups@[k]@),
                decreases groups.len() - i,
            {
                items.push(group_to_json(&groups[i]));
                i = i + 1;
            }
            assert(items@.map_values(|item: Json| item@) =~= groups.deep_view().map_values(
                |x: GroupView| group_json(x),
            ));
            Ok(Json::array(items))
        },
        Err(e) => Err(server_failure("Failed to list groups: ", e.message.as_str())),
    }
}

/// Lists the groups that a filter lets through.
pub fn rpc_list_groups(filter: Option<String>, storage: &mut Storage) -> (r: Outcome)
    ensures
        same_file(*old(storage), *final(storage)),
        asked_once(
            old(storage).exchanges(),
            final(storage).exchanges(),
            list_groups_statement(filter.deep_view()),
        ),
        outcome_view(r) == groups_outcome(groups_of(final(storage).exchanges().last().answer)),
{
    let found = match &filter {
        Some(f) => storage.list_groups(Some(f.as_str())),
        None => storage.list_groups(None),
    };
    groups_found(found)
}

/// What listing the conversations comes to, once the store answered.
pub open spec fn conversations_outcome(found: Result<Seq<ConversationView>, Seq<char>>) -> Result<
    JsonView,
    ErrorView,
> {
    match found {
        Ok(conversations) => Ok(
            JsonView::Array(conversations.map_values(|x: ConversationView| conversation_json(x))),
        ),
        Err(reason) => Err(server_error("Failed to get conversations: "@, reason)),
    }
}

/// What listing the conversations comes to, once the store answered.
pub fn conversations_found(found: Result<Vec<Conversation>, StorageError>) -> (r: Outcome)
    ensures
        outcome_view(r) == conversations_outcome(rows_view(found)),
{
    match found {
        Ok(conversations) => {
            let mut items: Vec<Json> = Vec::new();
            let mut i: usize = 0;
            while i < conversations.len()
                invariant
                    i <= conversations.len(),
                    items.len() == i,
                    forall|k: int|
                        0 <= k < i ==> (#[trigger] items@[k])@ == conversation_json(
                            conversations@[k]@,
                        ),
                decreases conversations.len() - i,
            {
                items.push(conversation_to_json(&conversations[i]));
                i = i + 1;
            }
            assert(items@.map_values(|item: Json| item@) =~= conversations.deep_view().map_values(
                |x: ConversationView| conversation_json(x),
            ));
            Ok(Json::array(items))
        },
        Err(e) => Err(server_failure("Failed to get conversations: ", e.message.as_str())),
    }
}

/// Lists the latest conversations.
pub fn rpc_get_conversations(limit: i64, storage: &mut Storage) -> (r: Outcome)
    ensures
        same_file(*old(storage), *final(storage)),
        asked_once(
            old(storage).exchanges(),
            final(storage).exchanges(),
            get_conversations_statement(limit),
        ),
        outcome_view(r) == conversations_outcome(
            conversations_of(final(storage).exchanges().last().answer),
        ),
        conversations_of(final(storage).exchanges().last().answer) matches Ok(conversations)
            ==> recent_first(conversations) && within(conversations.len(), limit),
{
    conversations_found(storage.get_conversations(limit))
}

/// What reading the messages of a contact comes to, once the store answered.
pub open spec fn messages_outcome(found: Result<Seq<MessageView>, Seq<char>>) -> Result<
    JsonView,
    ErrorView,
> {
    match found {
        Ok(messages) => Ok(
            JsonView::Array(messages.map_values(|x: MessageView| message_json(x))),
        ),
        Err(reason) => Err(server_error("Failed to get messages: "@, reason)),
    }
}

/// What reading the messages of a contact comes to, once the store answered.
pub fn messages_found(found: Result<Vec<Message>, StorageError>) -> (r: Outcome)
    ensures
        outcome_view(r) == messages_outcome(rows_view(found)),
{
    match found {
        Ok(messages) => {
            let mut items: Vec<Json> = Vec::new();
            let mut i: usize = 0;
            while i < messages.len()
                invariant
                    i <= messages.len(),
                    items.len() == i,
                    forall|k: int|
                        0 <= k < i ==> (#[trigger] items@[k])@ == message_json(messages@[k]@),
                decreases messages.len() - i,
            {
                items.push(message_to_json(&messages[i]));
                i = i + 1;
            }
            assert(items@.map_values(|item: Json| item@) =~= messages.deep_view().map_values(
                |x: MessageView| message_json(x),
            ));
            Ok(Json::array(items))
        },
        Err(e) => Err(server_failure("Failed to get messages: ", e.message.as_str())),
    }
}

/// The parameters of `send_message`.
#[derive(Debug)]
pub struct SendMessageParams {
    pub recipient: String,
    pub message: String,
}

/// The parameters of `list_contacts`.
#[derive(Debug)]
pub struct ListContactsParams {
    pub filter: Option<String>,
}

/// The parameters of `list_groups`.
#[derive(Debug)]
pub struct ListGroupsParams {
    pub filter: Option<String>,
}

/// The parameters of `get_messages`.
#[derive(Debug)]
pub struct GetMessagesParams {
    pub contact: String,
    pub limit: Option<i64>,
    /// Only messages from before this time count.
    pub before: Option<i64>,
}

/// The parameters of `get_conversations`.
#[derive(Debug)]
pub struct GetConversationsParams {
    pub limit: Option<i64>,
}

/// How many messages are read where no limit is given.
pub const MESSAGES_LIMIT: i64 = 50;

/// How many conversations are listed where no limit is given.
pub const CONVERSATIONS_LIMIT: i64 = 20;

/// What is missing where a method needs parameters and has none.
pub open spec fn missing_params() -> ErrorView {
    ErrorView { code: INVALID_PARAMS, message: "Missing params"@ }
}

/// What is wrong with parameters that do not fit a method.
pub open spec fn invalid_params(reason: Seq<char>) -> ErrorView {
    ErrorView { code: INVALID_PARAMS, message: "Invalid params: "@ + reason }
}

/// Reports that the parameters are missing.
pub fn params_missing() -> (r: JsonRpcError)
    ensures
        r@ == missing_params(),
{
    JsonRpcError { code: INVALID_PARAMS, message: "Missing params".to_owned() }
}

/// Reports that the parameters do not fit.
pub fn params_invalid(reason: &str) -> (r: JsonRpcError)
    ensures
        r@ == invalid_params(reason@),
{
    JsonRpcError { code: INVALID_PARAMS, message: join2("Invalid params: ", reason) }
}

/// The contact whose messages are asked for, once the store was searched for it.
pub open spec fn contact_outcome(contact: Seq<char>, found: LookupView) -> Result<
    Seq<char>,
    ErrorView,
> {
    match found {
        LookupView::Found(uuid) => Ok(uuid),
        LookupView::NotFound => Err(server_error("Could not resolve contact: "@, contact)),
        LookupView::Failed(reason) => Err(server_error("Error resolving contact: "@, reason)),
    }
}

/// The contact whose messages are asked for, once the store was searched for it.
pub fn contact_found(contact: &str, found: Search) -> (r: Result<String, JsonRpcError>)
    ensures
        match r {
            Ok(uuid) => contact_outcome(contact@, search_view(found)) == Ok::<Seq<char>, ErrorView>(
                uuid@,
            ),
            Err(e) => contact_outcome(contact@, search_view(found)) == Err::<Seq<char>, ErrorView>(
                e@,
            ),
        },
{
    match found {
        Ok(Some(uuid)) => Ok(uuid),
        Ok(None) => Err(server_failure("Could not resolve contact: ", contact)),
        Err(e) => Err(server_failure("Error resolving contact: ", e.message.as_str())),
    }
}

/// The query for the latest messages of a contact, all of them or those from before a
/// time.
pub open spec fn history_statement(uuid: Seq<char>, until: Option<i64>, limit: i64) -> Statement {
    match until {
        Some(time) => get_messages_before_statement(uuid, time, limit),
        None => get_messages_statement(uuid, limit),
    }
}

/// Whether messages come in the order of their times, no more than the limit and, where a
/// time is given, all from before it.
pub open spec fn history(messages: Seq<MessageView>, until: Option<i64>, limit: i64) -> bool {
    &&& in_time_order(messages)
    &&& within(messages.len(), limit)
    &&& until matches Some(time) ==> all_before(messages, time)
}

/// Whether the messages of a contact were read between two states of the store, with
/// the given outcome: the contact is searched for first, and its messages are asked for
/// only if it is found.
pub open spec fn get_messages_ran(
    before: Seq<Exchange>,
    after: Seq<Exchange>,
    contact: Seq<char>,
    until: Option<i64>,
    limit: i64,
    outcome: Result<JsonView, ErrorView>,
) -> bool {
    exists|middle: Seq<Exchange>, found: LookupView| #[trigger]
        resolve_ran(before, middle, contact, found) && match contact_outcome(contact, found) {
            Ok(uuid) => {
                &&& asked_once(middle, after, history_statement(uuid, until, limit))
                &&& outcome == messages_outcome(messages_of(after.last().answer))
                &&& messages_of(after.last().answer) matches Ok(messages) ==> history(
                    messages,
                    until,
                    limit,
                )
            },
            Err(e) => after == middle && outcome == Err::<JsonView, ErrorView>(e),
        }
}

/// Whether the messages of a contact were read as the parameters say.
pub open spec fn rpc_get_messages_ran(
    before: Seq<Exchange>,
    after: Seq<Exchange>,
    params: Option<Result<GetMessagesParams, String>>,
    outcome: Result<JsonView, ErrorView>,
) -> bool {
    match params {
        Some(Ok(p)) => get_messages_ran(
            before,
            after,
            p.contact@,
            p.before,
            match p.limit {
                Some(limit) => limit,
                None => MESSAGES_LIMIT,
            },
            outcome,
        ),
        Some(Err(reason)) => after == before && outcome == Err::<JsonView, ErrorView>(
            invalid_params(reason@),
        ),
        None => after == before && outcome == Err::<JsonView, ErrorView>(missing_params()),
    }
}

/// Reads the latest messages exchanged with a contact.
pub fn rpc_get_messages(
    params: Option<Result<GetMessagesParams, String>>,
    storage: &mut Storage,
) -> (r: Outcome)
    ensures
        same_file(*old(storage), *final(storage)),
        rpc_get_messages_ran(
            old(storage).exchanges(),
            final(storage).exchanges(),
            params,
            outcome_view(r),
        ),
{
    let params = match params {
        Some(Ok(params)) => params,
        Some(Err(reason)) => return Err(params_invalid(reason.as_str())),
        None => return Err(params_missing()),
    };
    let limit: i64 = match params.limit {
        Some(limit) => limit,
        None => MESSAGES_LIMIT,
    };
    let found = storage.resolve_recipient(params.contact.as_str());
    match contact_found(params.contact.as_str(), found) {
        Ok(uuid) => match params.before {
            Some(time) => messages_found(
                storage.get_messages_before(uuid.as_str(), time, limit),
            ),
            None => messages_found(storage.get_messages(uuid.as_str(), limit)),
        },
        Err(e) => Err(e),
    }
}

/// The status of the server in JSON.
pub open spec fn status_json(account: Seq<char>, contacts_count: nat) -> JsonView {
    JsonView::Object(
        Map::empty().insert("connected"@, JsonView::Bool(true)).insert(
            "account"@,
            text_json(account),
        ).insert("contacts_count"@, integer_json(contacts_count as int)),
    )
}

/// What telling the status comes to, once the store answered with the contacts.
pub open spec fn status_outcome(
    account: Seq<char>,
    found: Result<Seq<ContactView>, Seq<char>>,
) -> Result<JsonView, ErrorView> {
    match found {
        Ok(contacts) => Ok(status_json(account, contacts.len())),
        Err(reason) => Err(ErrorView { code: SERVER_ERROR, message: reason }),
    }
}

/// What telling the status comes to, once the store answered with the contacts.
pub fn status_found(account: &str, found: Result<Vec<Contact>, StorageError>) -> (r: Outcome)
    ensures
        outcome_view(r) == status_outcome(account@, rows_view(found)),
{
    match found {
        Ok(contacts) => {
            assert(contacts.deep_view().len() == contacts@.len());
            Ok(
                Json::object().with("connected", Json::Bool(true)).with(
                    "account",
                    Json::text(account),
                ).with("contacts_count", Json::unsigned(contacts.len() as u64)),
            )
        },
        Err(e) => Err(JsonRpcError { code: SERVER_ERROR, message: e.message }),
    }
}

/// Tells the status of the server: the account, and how many contacts are stored.
pub fn rpc_get_status(account: &str, storage: &mut Storage) -> (r: Outcome)
    ensures
        same_file(*old(storage), *final(storage)),
        asked_once(
            old(storage).exchanges(),
            final(storage).exchanges(),
            list_contacts_statement(None),
        ),
        outcome_view(r) == status_outcome(
            account@,
            contacts_of(final(storage).exchanges().last().answer),
        ),
        contacts_of(final(storage).exchanges().last().answer) matches Ok(contacts)
            ==> contacts.len() <= usize::MAX,
{
    let found = storage.list_contacts(None);
    proof {
        if let Ok(contacts) = &found {
            assert(contacts.deep_view().len() == contacts@.len());
            assert(contacts.len() <= usize::MAX);
        }
    }
    status_found(account, found)
}

/// Who a message is sent to: a contact by its UUID, or a group by its id.
#[derive(Debug)]
pub enum ResolvedRecipient {
    Contact(String),
    Group(String),
}

/// What a recipient says.
pub enum RecipientView {
    Contact(Seq<char>),
    Group(Seq<char>),
}

impl View for ResolvedRecipient {
    type V = RecipientView;

    open spec fn view(&self) -> RecipientView {
        match self {
            ResolvedRecipient::Contact(uuid) => RecipientView::Contact(uuid@),
            ResolvedRecipient::Group(id) => RecipientView::Group(id@),
        }
    }
}

/// Who a message is sent to, once the store was searched for a contact and, where there
/// is none, for a group.
pub open spec fn recipient_outcome(
    recipient: Seq<char>,
    contact: LookupView,
    group: LookupView,
) -> Result<RecipientView, ErrorView> {
    match (contact, group) {
        (LookupView::Found(uuid), _) => Ok(RecipientView::Contact(uuid)),
        (LookupView::Failed(reason), _) => Err(
            server_error("Error resolving recipient: "@, reason),
        ),
        (LookupView::NotFound, LookupView::Found(id)) => Ok(RecipientView::Group(id)),
        (LookupView::NotFound, LookupView::NotFound) => Err(
            server_error("Could not resolve recipient: "@, recipient),
        ),
        (LookupView::NotFound, LookupView::Failed(reason)) => Err(
            server_error("Error resolving recipient: "@, reason),
        ),
    }
}

/// What a result of a search for a recipient says.
pub open spec fn recipient_view(r: Result<ResolvedRecipient, JsonRpcError>) -> Result<
    RecipientView,
    ErrorView,
> {
    match r {
        Ok(recipient) => Ok(recipient@),
        Err(e) => Err(e@),
    }
}

/// Who a message is sent to, once the store was searched.
pub fn recipient_found(recipient: &str, contact: Search, group: Search) -> (r: Result<
    ResolvedRecipient,
    JsonRpcError,
>)
    ensures
        recipient_view(r) == recipient_outcome(
            recipient@,
            search_view(contact),
            search_view(group),
        ),
{
    match contact {
        Ok(Some(uuid)) => Ok(ResolvedRecipient::Contact(uuid)),
        Ok(None) => match group {
            Ok(Some(id)) => Ok(ResolvedRecipient::Group(id)),
            Ok(None) => Err(server_failure("Could not resolve recipient: ", recipient)),
            Err(e) => Err(server_failure("Error resolving recipient: ", e.message.as_str())),
        },
        Err(e) => Err(server_failure("Error resolving recipient: ", e.message.as_str())),
    }
}

/// Whether a recipient was searched for between two states of the store, with the given
/// outcome: first among the contacts and, if it is none of them, among the groups.
pub open spec fn recipient_ran(
    before: Seq<Exchange>,
    after: Seq<Exchange>,
    recipient: Seq<char>,
    outcome: Result<RecipientView, ErrorView>,
) -> bool {
    exists|middle: Seq<Exchange>, contact: LookupView| #[trigger]
        resolve_ran(before, middle, recipient, contact) && if contact is NotFound {
            &&& asked_once(middle, after, lookup_statement(SELECT_GROUP@, recipient))
            &&& outcome == recipient_outcome(recipient, contact, lookup_of(after.last().answer))
        } else {
            &&& after == middle
            &&& outcome == recipient_outcome(recipient, contact, LookupView::NotFound)
        }
}

/// Searches for the recipient of a message.
pub fn find_recipient(recipient: &str, storage: &mut Storage) -> (r: Result<
    ResolvedRecipient,
    JsonRpcError,
>)
    ensures
        same_file(*old(storage), *final(storage)),
        recipient_ran(
            old(storage).exchanges(),
            final(storage).exchanges(),
            recipient@,
            recipient_view(r),
        ),
{
    let contact = storage.resolve_recipient(recipient);
    let group = match &contact {
        Ok(None) => storage.find_group(recipient),
        _ => Ok(None),
    };
    recipient_found(recipient, contact, group)
}

/// A message that is ready to be sent.
#[derive(Debug)]
pub struct Outgoing {
    pub recipient: ResolvedRecipient,
    pub message: String,
}

/// What a message that is ready says.
pub struct OutgoingView {
    pub recipient: RecipientView,
    pub message: Seq<char>,
}

impl View for Outgoing {
    type V = OutgoingView;

    open spec fn view(&self) -> OutgoingView {
        OutgoingView { recipient: self.recipient@, message: self.message@ }
    }
}

/// Whether a message was made ready between two states of the store.
pub open spec fn send_message_ran(
    before: Seq<Exchange>,
    after: Seq<Exchange>,
    params: Option<Result<SendMessageParams, String>>,
    outcome: Result<OutgoingView, ErrorView>,
) -> bool {
    match params {
        Some(Ok(p)) => exists|recipient: Result<RecipientView, ErrorView>| #[trigger]
            recipient_ran(before, after, p.recipient@, recipient) && outcome == (match recipient {
                Ok(recipient) => Ok::<OutgoingView, ErrorView>(
                    OutgoingView { recipient, message: p.message@ },
                ),
                Err(e) => Err::<OutgoingView, ErrorView>(e),
            }),
        Some(Err(reason)) => after == before && outcome == Err::<OutgoingView, ErrorView>(
            invalid_params(reason@),
        ),
        None => after == before && outcome == Err::<OutgoingView, ErrorView>(missing_params()),
    }
}

/// What a message that was to be made ready says.
pub open spec fn outgoing_view(r: Result<Outgoing, JsonRpcError>) -> Result<
    OutgoingView,
    ErrorView,
> {
    match r {
        Ok(outgoing) => Ok(outgoing@),
        Err(e) => Err(e@),
    }
}

/// Makes a message ready to be sent: finds out who it is for.
pub fn rpc_send_message(
    params: Option<Result<SendMessageParams, String>>,
    storage: &mut Storage,
) -> (r: Result<Outgoing, JsonRpcError>)
    ensures
        same_file(*old(storage), *final(storage)),
        send_message_ran(
            old(storage).exchanges(),
            final(storage).exchanges(),
            params,
            outgoing_view(r),
        ),
{
    let params = match params {
        Some(Ok(params)) => params,
        Some(Err(reason)) => return Err(params_invalid(reason.as_str())),
        None => return Err(params_missing()),
    };
    let found = find_recipient(params.recipient.as_str(), storage);
    let ghost recipient = recipient_view(found);
    let r = match found {
        Ok(recipient) => Ok(Outgoing { recipient, message: params.message }),
        Err(e) => Err(e),
    };
    assert(recipient_ran(
        old(storage).exchanges(),
        storage.exchanges(),
        params.recipient@,
        recipient,
    ));
    r
}

/// What the Signal manager is asked to do to have a message sent.
#[derive(Debug)]
pub enum ManagerCommand {
    SendMessage { recipient_uuid: String, message: String },
    SendGroupMessage { group_id: String, message: String },
}

/// Whether a command has a message sent: its own text, to its own recipient.
pub open spec fn commands(command: ManagerCommand, outgoing: OutgoingView) -> bool {
    match outgoing.recipient {
        RecipientView::Contact(uuid) => command matches ManagerCommand::SendMessage {
            recipient_uuid,
            message,
        } && recipient_uuid@ == uuid && message@ == outgoing.message,
        RecipientView::Group(id) => command matches ManagerCommand::SendGroupMessage {
            group_id,
            message,
        } && group_id@ == id && message@ == outgoing.message,
    }
}

impl Outgoing {
    /// The command that has the message sent.
    pub fn command(&self) -> (r: ManagerCommand)
        ensures
            commands(r, self@),
    {
        match &self.recipient {
            ResolvedRecipient::Contact(uuid) => ManagerCommand::SendMessage {
                recipient_uuid: uuid.clone(),
                message: self.message.clone(),
            },
            ResolvedRecipient::Group(id) => ManagerCommand::SendGroupMessage {
                group_id: id.clone(),
                message: self.message.clone(),
            },
        }
    }
}

/// The message that is stored once it was sent.
pub open spec fn sent_message(uuid: Seq<char>, message: Seq<char>, timestamp: u64) -> MessageView {
    MessageView {
        id: 0,
        contact_uuid: uuid,
        direction: "out"@,
        body: message,
        timestamp: timestamp as i64,
    }
}

/// Whether a message that was sent was stored between two states of the store: one to a
/// contact is, one to a group is not.
pub open spec fn keep_ran(
    before: Seq<Exchange>,
    after: Seq<Exchange>,
    outgoing: OutgoingView,
    timestamp: u64,
) -> bool {
    match outgoing.recipient {
        RecipientView::Contact(uuid) => asked_once(
            before,
            after,
            insert_message_statement(sent_message(uuid, outgoing.message, timestamp)),
        ),
        RecipientView::Group(_) => after == before,
    }
}

/// Stores a message that was sent to a contact. That the store refuses it changes nothing.
fn keep_sent(outgoing: &Outgoing, timestamp: u64, storage: &mut Storage)
    ensures
        same_file(*old(storage), *final(storage)),
        keep_ran(old(storage).exchanges(), final(storage).exchanges(), outgoing@, timestamp),
{
    match &outgoing.recipient {
        ResolvedRecipient::Contact(uuid) => {
            let message = Message {
                id: 0,
                contact_uuid: uuid.clone(),
                direction: "out".to_owned(),
                body: outgoing.message.clone(),
                timestamp: timestamp as i64,
            };
            let _ = storage.insert_message(&message);
        },
        ResolvedRecipient::Group(_) => {},
    }
}

/// How the Signal manager replied to a command.
#[derive(Debug)]
pub enum Reply<T> {
    /// The command was not taken: the server is about to end.
    ShuttingDown,
    /// The command was carried out, or why it was not.
    Answered(Result<T, String>),
    /// The command was taken, and no reply will come.
    ChannelClosed,
}

/// What the manager's reply to a message comes to: the time that the message carries.
pub open spec fn send_reply(reply: Reply<u64>) -> Result<u64, ErrorView> {
    match reply {
        Reply::ShuttingDown => Err(server_error("Server shutting down"@, Seq::empty())),
        Reply::Answered(Ok(timestamp)) => Ok(timestamp),
        Reply::Answered(Err(reason)) => Err(server_error("Failed to send message: "@, reason@)),
        Reply::ChannelClosed => Err(server_error("Server error: channel closed"@, Seq::empty())),
    }
}

/// What is told of a message that was sent.
pub open spec fn sent_json(recipient: RecipientView, timestamp: u64) -> JsonView {
    let sent = Map::empty().insert("success"@, JsonView::Bool(true)).insert(
        "timestamp"@,
        integer_json(timestamp as int),
    );
    match recipient {
        RecipientView::Contact(uuid) => JsonView::Object(
            sent.insert("recipient_uuid"@, text_json(uuid)),
        ),
        RecipientView::Group(id) => JsonView::Object(sent.insert("group_id"@, text_json(id))),
    }
}

/// Stores a message that was sent, and tells of it.
pub fn finish_send_message(outgoing: Outgoing, reply: Reply<u64>, storage: &mut Storage) -> (r:
    Outcome)
    ensures
        same_file(*old(storage), *final(storage)),
        match send_reply(reply) {
            Ok(timestamp) => keep_ran(
                old(storage).exchanges(),
                final(storage).exchanges(),
                outgoing@,
                timestamp,
            ) && outcome_view(r) == Ok::<JsonView, ErrorView>(
                sent_json(outgoing@.recipient, timestamp),
            ),
            Err(e) => final(storage).exchanges() == old(storage).exchanges() && outcome_view(r)
                == Err::<JsonView, ErrorView>(e),
        },
        reply matches Reply::Answered(Ok(t)) ==> (r matches Ok(result) && unsigned_value(
            member(result@, "timestamp"@),
        ) == Some(t)),
{
    proof {
        reveal_strlit("timestamp");
        reveal_strlit("recipient_uuid");
        reveal_strlit("group_id");
        assert("timestamp"@.len() != "recipient_uuid"@.len());
        assert("timestamp"@.len() != "group_id"@.len());
    }
    let timestamp: u64 = match reply {
        Reply::Answered(Ok(timestamp)) => timestamp,
        Reply::Answered(Err(reason)) => {
            return Err(server_failure("Failed to send message: ", reason.as_str()));
        },
        Reply::ShuttingDown => return Err(plain_failure("Server shutting down")),
        Reply::ChannelClosed => return Err(plain_failure("Server error: channel closed")),
    };
    keep_sent(&outgoing, timestamp, storage);
    let sent = Json::object().with("success", Json::Bool(true)).with(
        "timestamp",
        Json::unsigned(timestamp),
    );
    match &outgoing.recipient {
        ResolvedRecipient::Contact(uuid) => Ok(
            sent.with("recipient_uuid", Json::text(uuid.as_str())),
        ),
        ResolvedRecipient::Group(id) => Ok(sent.with("group_id", Json::text(id.as_str()))),
    }
}

/// Reports an error of the server that needs no reason.
fn plain_failure(complaint: &str) -> (r: JsonRpcError)
    ensures
        r@ == server_error(complaint@, Seq::empty()),
{
    assert(complaint@ + Seq::<char>::empty() =~= complaint@);
    JsonRpcError { code: SERVER_ERROR, message: complaint.to_owned() }
}

/// How many contacts and groups were synchronized.
#[derive(Debug, Clone)]
pub struct SyncResult {
    pub contacts_count: usize,
    pub groups_count: usize,
}

/// What is told of contacts and groups that were synchronized.
pub open spec fn synced_json(contacts: nat, groups: nat) -> JsonView {
    JsonView::Object(
        Map::empty().insert("success"@, JsonView::Bool(true)).insert(
            "contacts_count"@,
            integer_json(contacts as int),
        ).insert("groups_count"@, integer_json(groups as int)).insert(
            "message"@,
            text_json(
                "Synced "@ + decimal(contacts) + " contacts and "@ + (decimal(groups)
                    + " groups"@),
            ),
        ),
    )
}

/// What the manager's reply to a synchronization comes to.
pub open spec fn sync_outcome(reply: Reply<SyncResult>) -> Result<JsonView, ErrorView> {
    match reply {
        Reply::ShuttingDown => Err(server_error("Server shutting down"@, Seq::empty())),
        Reply::Answered(Ok(synced)) => Ok(
            synced_json(synced.contacts_count as nat, synced.groups_count as nat),
        ),
        Reply::Answered(Err(reason)) => Err(
            server_error("Failed to request contacts sync: "@, reason@),
        ),
        Reply::ChannelClosed => Err(server_error("Server error: channel closed"@, Seq::empty())),
    }
}

/// Tells how synchronizing the contacts went.
pub fn rpc_sync_contacts(reply: Reply<SyncResult>) -> (r: Outcome)
    ensures
        outcome_view(r) == sync_outcome(reply),
{
    match reply {
        Reply::ShuttingDown => Err(plain_failure("Server shutting down")),
        Reply::ChannelClosed => Err(plain_failure("Server error: channel closed")),
        Reply::Answered(Err(reason)) => Err(
            server_failure("Failed to request contacts sync: ", reason.as_str()),
        ),
        Reply::Answered(Ok(synced)) => {
            let contacts = decimal_text(synced.contacts_count as u64);
            let groups = decimal_text(synced.groups_count as u64);
            let left = join3("Synced ", contacts.as_str(), " contacts and ");
            let right = join2(groups.as_str(), " groups");
            let message = join2(left.as_str(), right.as_str());
            Ok(
                Json::object().with("success", Json::Bool(true)).with(
                    "contacts_count",
                    Json::unsigned(synced.contacts_count as u64),
                ).with("groups_count", Json::unsigned(synced.groups_count as u64)).with(
                    "message",
                    Json::text(message.as_str()),
                ),
            )
        },
    }
}

/// A text as the content of what a tool came to.
pub open spec fn content_json(text: Seq<char>) -> JsonView {
    JsonView::Object(
        Map::empty().insert(
            "content"@,
            JsonView::Array(
                seq![
                    JsonView::Object(
                        Map::empty().insert("type"@, text_json("text"@)).insert(
                            "text"@,
                            text_json(text),
                        ),
                    ),
                ],
            ),
        ),
    )
}

/// Makes a text the content of what a tool came to.
pub fn text_content(text: &str) -> (r: Json)
    ensures
        r@ == content_json(text@),
{
    let item = Json::object().with("type", Json::text("text")).with("text", Json::text(text));
    let mut items: Vec<Json> = Vec::new();
    items.push(item);
    assert(items@.map_values(|item: Json| item@) =~= seq![item@]);
    Json::object().with("content", Json::array(items))
}

/// What is told of a message that was sent without a detour over the command channel.
pub open spec fn sent_directly_json(recipient: RecipientView, timestamp: u64) -> JsonView {
    let id = match recipient {
        RecipientView::Contact(uuid) => uuid,
        RecipientView::Group(id) => id,
    };
    JsonView::Object(
        Map::empty().insert("success"@, JsonView::Bool(true)).insert(
            "timestamp"@,
            integer_json(timestamp as int),
        ).insert("recipient"@, text_json(id)),
    )
}

/// What is complained of where a message could not be sent.
pub open spec fn send_complaint(recipient: RecipientView) -> Seq<char> {
    match recipient {
        RecipientView::Contact(_) => "Failed to send message: "@,
        RecipientView::Group(_) => "Failed to send group message: "@,
    }
}

/// Stores a message that was sent without a detour over the command channel, and tells
/// of it.
pub fn finish_send_message_direct(
    outgoing: Outgoing,
    sent: Result<u64, String>,
    storage: &mut Storage,
) -> (r: Outcome)
    ensures
        same_file(*old(storage), *final(storage)),
        match sent {
            Ok(timestamp) => keep_ran(
                old(storage).exchanges(),
                final(storage).exchanges(),
                outgoing@,
                timestamp,
            ) && outcome_view(r) == Ok::<JsonView, ErrorView>(
                sent_directly_json(outgoing@.recipient, timestamp),
            ),
            Err(reason) => final(storage).exchanges() == old(storage).exchanges() && outcome_view(r)
                == Err::<JsonView, ErrorView>(
                server_error(send_complaint(outgoing@.recipient), reason@),
            ),
        },
        sent matches Ok(t) ==> (r matches Ok(result) && unsigned_value(
            member(result@, "timestamp"@),
        ) == Some(t)),
{
    proof {
        reveal_strlit("timestamp");
        reveal_strlit("recipient");
        assert("timestamp"@[0] != "recipient"@[0]);
    }
    let timestamp: u64 = match sent {
        Ok(timestamp) => timestamp,
        Err(reason) => {
            return Err(match &outgoing.recipient {
                ResolvedRecipient::Contact(_) => server_failure(
                    "Failed to send message: ",
                    reason.as_str(),
                ),
                ResolvedRecipient::Group(_) => server_failure(
                    "Failed to send group message: ",
                    reason.as_str(),
                ),
            });
        },
    };
    keep_sent(&outgoing, timestamp, storage);
    let id = match &outgoing.recipient {
        ResolvedRecipient::Contact(uuid) => uuid.as_str(),
        ResolvedRecipient::Group(id) => id.as_str(),
    };
    Ok(
        Json::object().with("success", Json::Bool(true)).with(
            "timestamp",
            Json::unsigned(timestamp),
        ).with("recipient", Json::text(id)),
    )
}

/// What is told of contacts and groups that were synchronized without a detour over the
/// command channel.
pub open spec fn synced_directly_json(contacts: nat, groups: nat) -> JsonView {
    JsonView::Object(
        Map::empty().insert("success"@, JsonView::Bool(true)).insert(
            "contacts_synced"@,
            integer_json(contacts as int),
        ).insert("groups_synced"@, integer_json(groups as int)),
    )
}

/// Tells how synchronizing the contacts went without a detour over the command channel.
pub fn sync_contacts_direct(synced: Result<SyncResult, String>) -> (r: Outcome)
    ensures
        outcome_view(r) == (match synced {
            Ok(synced) => Ok::<JsonView, ErrorView>(
                synced_directly_json(synced.contacts_count as nat, synced.groups_count as nat),
            ),
            Err(reason) => Err::<JsonView, ErrorView>(
                server_error("Failed to sync contacts: "@, reason@),
            ),
        }),
{
    match synced {
        Ok(synced) => Ok(
            Json::object().with("success", Json::Bool(true)).with(
                "contacts_synced",
                Json::unsigned(synced.contacts_count as u64),
            ).with("groups_synced", Json::unsigned(synced.groups_count as u64)),
        ),
        Err(reason) => Err(server_failure("Failed to sync contacts: ", reason.as_str())),
    }
}

/// Making a message ready only reads from the store.
pub proof fn sending_only_reads(
    before: Seq<Exchange>,
    after: Seq<Exchange>,
    params: Option<Result<SendMessageParams, String>>,
    outcome: Result<OutgoingView, ErrorView>,
)
    requires
        send_message_ran(before, after, params, outcome),
    ensures
        only_read(before, after),
{
    assert(before.take(before.len() as int) == before);
    if let Some(Ok(p)) = params {
        let recipient = choose|recipient: Result<RecipientView, ErrorView>| #[trigger]
            recipient_ran(before, after, p.recipient@, recipient) && outcome == (match recipient {
                Ok(recipient) => Ok::<OutgoingView, ErrorView>(
                    OutgoingView { recipient, message: p.message@ },
                ),
                Err(e) => Err::<OutgoingView, ErrorView>(e),
            });
        let (middle, contact) = choose|middle: Seq<Exchange>, contact: LookupView| #[trigger]
            resolve_ran(before, middle, p.recipient@, contact) && if contact is NotFound {
                &&& asked_once(middle, after, lookup_statement(SELECT_GROUP@, p.recipient@))
                &&& recipient == recipient_outcome(
                    p.recipient@,
                    contact,
                    lookup_of(after.last().answer),
                )
            } else {
                &&& after == middle
                &&& recipient == recipient_outcome(p.recipient@, contact, LookupView::NotFound)
            };
        resolving_only_reads(before, middle, p.recipient@, contact);
        if contact is NotFound {
            let asked = lookup_statement(SELECT_GROUP@, p.recipient@);
            reading_once_more(before, middle, after, asked);
        }
    }
}

/// Reading the messages of a contact only reads from the store.
pub proof fn getting_messages_only_reads(
    before: Seq<Exchange>,
    after: Seq<Exchange>,
    params: Option<Result<GetMessagesParams, String>>,
    outcome: Result<JsonView, ErrorView>,
)
    requires
        rpc_get_messages_ran(before, after, params, outcome),
    ensures
        only_read(before, after),
{
    assert(before.take(before.len() as int) == before);
    if let Some(Ok(p)) = params {
        let limit = match p.limit {
            Some(limit) => limit,
            None => MESSAGES_LIMIT,
        };
        let (middle, found) = choose|middle: Seq<Exchange>, found: LookupView| #[trigger]
            resolve_ran(before, middle, p.contact@, found) && match contact_outcome(
                p.contact@,
                found,
            ) {
                Ok(uuid) => {
                    &&& asked_once(middle, after, history_statement(uuid, p.before, limit))
                    &&& outcome == messages_outcome(messages_of(after.last().answer))
                    &&& messages_of(after.last().answer) matches Ok(messages) ==> history(
                        messages,
                        p.before,
                        limit,
                    )
                },
                Err(e) => after == middle && outcome == Err::<JsonView, ErrorView>(e),
            };
        resolving_only_reads(before, middle, p.contact@, found);
        if let Ok(uuid) = contact_outcome(p.contact@, found) {
            reading_once_more(before, middle, after, history_statement(uuid, p.before, limit));
        }
    }
}

/// An integer comes back from its text.
proof fn lemma_integer_comes_back(n: int, levels: nat)
    requires
        i64::MIN <= n <= u64::MAX,
    ensures
        plain(integer_json(n), levels),
{
    assert(is_integer(integer_number(n)));
}

/// An object whose members come back from their texts comes back from its own.
proof fn lemma_object_comes_back(members: Map<Seq<char>, JsonView>, levels: nat)
    requires
        levels > 0,
        forall|key: Seq<char>|
            members.contains_key(key) ==> plain(#[trigger] members[key], (levels - 1) as nat),
    ensures
        plain(JsonView::Object(members), levels),
{
}

/// A contact comes back from its text.
proof fn lemma_contact_comes_back(contact: ContactView, levels: nat)
    requires
        levels > 0,
    ensures
        plain(contact_json(contact), levels),
{
    lemma_object_comes_back(contact_json(contact)->Object_0, levels);
}

/// The contacts, groups, messages and conversations that are told come back from the
/// text that shows them.
pub proof fn lists_come_back(
    contacts: Seq<ContactView>,
    groups: Seq<GroupView>,
    messages: Seq<MessageView>,
    conversations: Seq<ConversationView>,
)
    ensures
        contacts_outcome(Ok(contacts)) matches Ok(value) && comes_back(value),
        groups_outcome(Ok(groups)) matches Ok(value) && comes_back(value),
        messages_outcome(Ok(messages)) matches Ok(value) && comes_back(value),
        conversations_outcome(Ok(conversations)) matches Ok(value) && comes_back(value),
{
    let told = contacts.map_values(|x: ContactView| contact_json(x));
    assert forall|i: int| 0 <= i < told.len() implies plain(#[trigger] told[i], 126) by {
        lemma_contact_comes_back(contacts[i], 126);
    }
    let told = groups.map_values(|x: GroupView| group_json(x));
    assert forall|i: int| 0 <= i < told.len() implies plain(#[trigger] told[i], 126) by {
        lemma_integer_comes_back(groups[i].members_count as int, 125);
        lemma_object_comes_back(group_json(groups[i])->Object_0, 126);
    }
    let told = messages.map_values(|x: MessageView| message_json(x));
    assert forall|i: int| 0 <= i < told.len() implies plain(#[trigger] told[i], 126) by {
        lemma_integer_comes_back(messages[i].id as int, 125);
        lemma_integer_comes_back(messages[i].timestamp as int, 125);
        lemma_object_comes_back(message_json(messages[i])->Object_0, 126);
    }
    let told = conversations.map_values(|x: ConversationView| conversation_json(x));
    assert forall|i: int| 0 <= i < told.len() implies plain(#[trigger] told[i], 126) by {
        lemma_contact_comes_back(conversations[i].contact, 125);
        lemma_integer_comes_back(conversations[i].last_timestamp as int, 125);
        lemma_integer_comes_back(conversations[i].unread_count as int, 125);
        lemma_object_comes_back(conversation_json(conversations[i])->Object_0, 126);
    }
}

/// The status, what is told of a message and what is told of a synchronization come back
/// from the text that shows them.
pub proof fn reports_come_back(
    account: Seq<char>,
    contacts_count: nat,
    groups_count: nat,
    recipient: RecipientView,
    timestamp: u64,
)
    requires
        contacts_count <= u64::MAX,
        groups_count <= u64::MAX,
    ensures
        comes_back(status_json(account, contacts_count)),
        comes_back(sent_json(recipient, timestamp)),
        comes_back(sent_directly_json(recipient, timestamp)),
        comes_back(synced_json(contacts_count, groups_count)),
        comes_back(synced_directly_json(contacts_count, groups_count)),
{
    lemma_integer_comes_back(contacts_count as int, 126);
    lemma_integer_comes_back(groups_count as int, 126);
    lemma_integer_comes_back(timestamp as int, 126);
    lemma_object_comes_back(status_json(account, contacts_count)->Object_0, 127);
    lemma_object_comes_back(sent_json(recipient, timestamp)->Object_0, 127);
    lemma_object_comes_back(sent_directly_json(recipient, timestamp)->Object_0, 127);
    lemma_object_comes_back(synced_json(contacts_count, groups_count)->Object_0, 127);
    lemma_object_comes_back(synced_directly_json(contacts_count, groups_count)->Object_0, 127);
}

} // verus!
