//! How what is told and printed relates to what it tells of.

use vstd::prelude::*;

use crate::client::{
    call_of, call_outcome, call_request, connection_line, contact_line, contact_lines,
    filter_params, group_line, group_lines, rule, send_params, sent_line, status_lines, synced_line,
    CallEvent,
};
use crate::json::{integer_json, member, text_value, unsigned_value, Json, JsonView};
use crate::json_text::compact_json;
use crate::methods::{
    contact_json, contacts_outcome, content_json, conversation_json, conversations_outcome,
    group_json, groups_outcome, message_json, messages_outcome, sent_directly_json, sent_json,
    status_json, synced_directly_json, synced_json, RecipientView,
};
use crate::storage::{Contact, Conversation, Group, Message};
use crate::text::{decimal, padded};

verus! {

/// The names of the members of what is told of contacts and groups differ.
proof fn lemma_contact_keys()
    ensures
        "uuid"@ != "phone"@,
        "uuid"@ != "name"@,
        "phone"@ != "name"@,
        "id"@ != "name"@,
        "id"@ != "members_count"@,
        "name"@ != "members_count"@,
{
    reveal_strlit("uuid");
    reveal_strlit("phone");
    reveal_strlit("name");
    reveal_strlit("id");
    reveal_strlit("members_count");
    assert("uuid"@[0] == 'u' && "phone"@[0] == 'p' && "name"@[0] == 'n');
    assert("id"@[0] == 'i' && "members_count"@[0] == 'm');
}

/// The names of the members of what is told of messages and conversations differ.
proof fn lemma_message_keys()
    ensures
        "id"@ != "contact_uuid"@,
        "id"@ != "direction"@,
        "id"@ != "body"@,
        "id"@ != "timestamp"@,
        "contact_uuid"@ != "direction"@,
        "contact_uuid"@ != "body"@,
        "contact_uuid"@ != "timestamp"@,
        "direction"@ != "body"@,
        "direction"@ != "timestamp"@,
        "body"@ != "timestamp"@,
        "contact"@ != "last_message"@,
        "contact"@ != "last_timestamp"@,
        "contact"@ != "unread_count"@,
        "last_message"@ != "last_timestamp"@,
        "last_message"@ != "unread_count"@,
        "last_timestamp"@ != "unread_count"@,
{
    reveal_strlit("id");
    reveal_strlit("contact_uuid");
    reveal_strlit("direction");
    reveal_strlit("body");
    reveal_strlit("timestamp");
    reveal_strlit("contact");
    reveal_strlit("last_message");
    reveal_strlit("last_timestamp");
    reveal_strlit("unread_count");
    assert("id"@[0] == 'i' && "contact_uuid"@[0] == 'c' && "direction"@[0] == 'd');
    assert("body"@[0] == 'b' && "timestamp"@[0] == 't');
    assert("contact"@[0] == 'c' && "last_message"@[0] == 'l' && "last_timestamp"@[0] == 'l');
    assert("unread_count"@[0] == 'u');
    assert("last_message"@.len() == 12 && "last_timestamp"@.len() == 14);
}

/// The names of the members of the other things that are told differ.
proof fn lemma_report_keys()
    ensures
        "success"@ != "timestamp"@,
        "success"@ != "recipient_uuid"@,
        "success"@ != "group_id"@,
        "success"@ != "recipient"@,
        "timestamp"@ != "recipient_uuid"@,
        "timestamp"@ != "group_id"@,
        "timestamp"@ != "recipient"@,
        "recipient_uuid"@ != "group_id"@,
        "success"@ != "contacts_count"@,
        "success"@ != "groups_count"@,
        "success"@ != "message"@,
        "contacts_count"@ != "groups_count"@,
        "contacts_count"@ != "message"@,
        "groups_count"@ != "message"@,
        "success"@ != "contacts_synced"@,
        "success"@ != "groups_synced"@,
        "contacts_synced"@ != "groups_synced"@,
        "connected"@ != "account"@,
        "connected"@ != "contacts_count"@,
        "account"@ != "contacts_count"@,
        "type"@ != "text"@,
{
    reveal_strlit("success");
    reveal_strlit("timestamp");
    reveal_strlit("recipient_uuid");
    reveal_strlit("group_id");
    reveal_strlit("recipient");
    reveal_strlit("contacts_count");
    reveal_strlit("groups_count");
    reveal_strlit("message");
    reveal_strlit("contacts_synced");
    reveal_strlit("groups_synced");
    reveal_strlit("connected");
    reveal_strlit("account");
    reveal_strlit("type");
    reveal_strlit("text");
    assert("success"@[0] == 's' && "timestamp"@[0] == 't' && "recipient_uuid"@[0] == 'r');
    assert("group_id"@[0] == 'g' && "recipient"@[0] == 'r' && "contacts_count"@[0] == 'c');
    assert("groups_count"@[0] == 'g' && "message"@[0] == 'm' && "contacts_synced"@[0] == 'c');
    assert("groups_synced"@[0] == 'g' && "connected"@[0] == 'c' && "account"@[0] == 'a');
    assert("connected"@.len() == 9 && "contacts_count"@.len() == 14);
    assert("type"@[1] == 'y' && "text"@[1] == 'e');
}

/// The text of a member, or nothing for `null`.
pub open spec fn optional_text(value: Option<JsonView>) -> Option<Option<Seq<char>>> {
    match value {
        Some(JsonView::Text(s)) => Some(Some(s)),
        Some(JsonView::Null) => Some(None),
        _ => None,
    }
}

/// A contact can be read off what is told of it: its UUID, its phone number and its name,
/// the last two as `null` if and only if there are none.
pub proof fn a_contact_is_told_as_it_is(contact: Contact)
    ensures
        text_value(member(contact_json(contact@), "uuid"@)) == Some(contact.uuid@),
        optional_text(member(contact_json(contact@), "phone"@)) == Some(
            match contact.phone {
                Some(phone) => Some(phone@),
                None => None::<Seq<char>>,
            },
        ),
        optional_text(member(contact_json(contact@), "name"@)) == Some(
            match contact.name {
                Some(name) => Some(name@),
                None => None::<Seq<char>>,
            },
        ),
{
    lemma_contact_keys();
}

/// A group can be read off what is told of it: its id, its name and how many members it
/// has.
pub proof fn a_group_is_told_as_it_is(group: Group)
    ensures
        text_value(member(group_json(group@), "id"@)) == Some(group.id@),
        optional_text(member(group_json(group@), "name"@)) == Some(
            match group.name {
                Some(name) => Some(name@),
                None => None::<Seq<char>>,
            },
        ),
        member(group_json(group@), "members_count"@) == Some(
            integer_json(group.members_count as int),
        ),
{
    lemma_contact_keys();
}

/// A message can be read off what is told of it: who it is from or to, which way it went,
/// what it says, and when.
pub proof fn a_message_is_told_as_it_is(message: Message)
    ensures
        member(message_json(message@), "id"@) == Some(integer_json(message.id as int)),
        text_value(member(message_json(message@), "contact_uuid"@)) == Some(
            message.contact_uuid@,
        ),
        text_value(member(message_json(message@), "direction"@)) == Some(message.direction@),
        text_value(member(message_json(message@), "body"@)) == Some(message.body@),
        member(message_json(message@), "timestamp"@) == Some(
            integer_json(message.timestamp as int),
        ),
{
    lemma_message_keys();
}

/// A conversation can be read off what is told of it: with whom it is, the last message and
/// its time, and how many messages are unread.
pub proof fn a_conversation_is_told_as_it_is(conversation: Conversation)
    ensures
        member(conversation_json(conversation@), "contact"@) == Some(
            contact_json(conversation.contact@),
        ),
        text_value(member(conversation_json(conversation@), "last_message"@)) == Some(
            conversation.last_message@,
        ),
        member(conversation_json(conversation@), "last_timestamp"@) == Some(
            integer_json(conversation.last_timestamp as int),
        ),
        member(conversation_json(conversation@), "unread_count"@) == Some(
            integer_json(conversation.unread_count as int),
        ),
{
    lemma_message_keys();
}

/// Two messages that are told alike are alike in all that is text, and their numbers are
/// told alike.
pub proof fn different_messages_are_told_differently(a: Message, b: Message)
    requires
        message_json(a@) == message_json(b@),
    ensures
        a.contact_uuid@ == b.contact_uuid@,
        a.direction@ == b.direction@,
        a.body@ == b.body@,
        integer_json(a.id as int) == integer_json(b.id as int),
        integer_json(a.timestamp as int) == integer_json(b.timestamp as int),
{
    a_message_is_told_as_it_is(a);
    a_message_is_told_as_it_is(b);
}

/// Two contacts that are told alike are alike.
pub proof fn different_contacts_are_told_differently(a: Contact, b: Contact)
    requires
        contact_json(a@) == contact_json(b@),
    ensures
        a.uuid@ == b.uuid@,
        a.phone.deep_view() == b.phone.deep_view(),
        a.name.deep_view() == b.name.deep_view(),
{
    a_contact_is_told_as_it_is(a);
    a_contact_is_told_as_it_is(b);
}

/// Messages are told one by one, in their order, each as it is; and a store that fails is
/// told with its reason.
pub proof fn messages_are_told_one_by_one(messages: Vec<Message>, reason: Seq<char>)
    ensures
        messages_outcome(Ok(messages.deep_view())) matches Ok(JsonView::Array(items))
            && items.len() == messages@.len() && forall|i: int|
            0 <= i < items.len() ==> {
                &&& text_value(member(#[trigger] items[i], "contact_uuid"@)) == Some(
                    messages@[i].contact_uuid@,
                )
                &&& text_value(member(items[i], "direction"@)) == Some(messages@[i].direction@)
                &&& text_value(member(items[i], "body"@)) == Some(messages@[i].body@)
                &&& member(items[i], "id"@) == Some(integer_json(messages@[i].id as int))
                &&& member(items[i], "timestamp"@) == Some(
                    integer_json(messages@[i].timestamp as int),
                )
            },
        messages_outcome(Err(reason)) matches Err(e) && e.code == -32000 && e.message
            == "Failed to get messages: "@ + reason,
{
    if let Ok(JsonView::Array(items)) = messages_outcome(Ok(messages.deep_view())) {
        assert forall|i: int| 0 <= i < items.len() implies #[trigger] items[i] == message_json(
            messages@[i]@,
        ) by {}
        assert forall|i: int| 0 <= i < items.len() implies {
            &&& text_value(member(#[trigger] items[i], "contact_uuid"@)) == Some(
                messages@[i].contact_uuid@,
            )
            &&& text_value(member(items[i], "direction"@)) == Some(messages@[i].direction@)
            &&& text_value(member(items[i], "body"@)) == Some(messages@[i].body@)
            &&& member(items[i], "id"@) == Some(integer_json(messages@[i].id as int))
            &&& member(items[i], "timestamp"@) == Some(
                integer_json(messages@[i].timestamp as int),
            )
        } by {
            a_message_is_told_as_it_is(messages@[i]);
        }
    }
}

/// Contacts are told one by one, in their order, each as it is; and a store that fails is
/// told with its reason.
pub proof fn contacts_are_told_one_by_one(contacts: Vec<Contact>, reason: Seq<char>)
    ensures
        contacts_outcome(Ok(contacts.deep_view())) matches Ok(JsonView::Array(items))
            && items.len() == contacts@.len() && forall|i: int|
            0 <= i < items.len() ==> {
                &&& text_value(member(#[trigger] items[i], "uuid"@)) == Some(contacts@[i].uuid@)
                &&& optional_text(member(items[i], "phone"@)) == Some(
                    contacts@[i].phone.deep_view(),
                )
                &&& optional_text(member(items[i], "name"@)) == Some(
                    contacts@[i].name.deep_view(),
                )
            },
        contacts_outcome(Err(reason)) matches Err(e) && e.code == -32000 && e.message
            == "Failed to list contacts: "@ + reason,
{
    if let Ok(JsonView::Array(items)) = contacts_outcome(Ok(contacts.deep_view())) {
        assert forall|i: int| 0 <= i < items.len() implies {
            &&& text_value(member(#[trigger] items[i], "uuid"@)) == Some(contacts@[i].uuid@)
            &&& optional_text(member(items[i], "phone"@)) == Some(
                contacts@[i].phone.deep_view(),
            )
            &&& optional_text(member(items[i], "name"@)) == Some(contacts@[i].name.deep_view())
        } by {
            assert(items[i] == contact_json(contacts@[i]@));
            a_contact_is_told_as_it_is(contacts@[i]);
        }
    }
}

/// Groups are told one by one, in their order, each as it is; and a store that fails is
/// told with its reason.
pub proof fn groups_are_told_one_by_one(groups: Vec<Group>, reason: Seq<char>)
    ensures
        groups_outcome(Ok(groups.deep_view())) matches Ok(JsonView::Array(items)) && items.len()
            == groups@.len() && forall|i: int|
            0 <= i < items.len() ==> {
                &&& text_value(member(#[trigger] items[i], "id"@)) == Some(groups@[i].id@)
                &&& optional_text(member(items[i], "name"@)) == Some(groups@[i].name.deep_view())
                &&& member(items[i], "members_count"@) == Some(
                    integer_json(groups@[i].members_count as int),
                )
            },
        groups_outcome(Err(reason)) matches Err(e) && e.code == -32000 && e.message
            == "Failed to list groups: "@ + reason,
{
    if let Ok(JsonView::Array(items)) = groups_outcome(Ok(groups.deep_view())) {
        assert forall|i: int| 0 <= i < items.len() implies {
            &&& text_value(member(#[trigger] items[i], "id"@)) == Some(groups@[i].id@)
            &&& optional_text(member(items[i], "name"@)) == Some(groups@[i].name.deep_view())
            &&& member(items[i], "members_count"@) == Some(
                integer_json(groups@[i].members_count as int),
            )
        } by {
            assert(items[i] == group_json(groups@[i]@));
            a_group_is_told_as_it_is(groups@[i]);
        }
    }
}

/// Conversations are told one by one, in their order, each as it is; and a store that fails
/// is told with its reason.
pub proof fn conversations_are_told_one_by_one(
    conversations: Vec<Conversation>,
    reason: Seq<char>,
)
    ensures
        conversations_outcome(Ok(conversations.deep_view())) matches Ok(JsonView::Array(items))
            && items.len() == conversations@.len() && forall|i: int|
            0 <= i < items.len() ==> {
                &&& member(#[trigger] items[i], "contact"@) == Some(
                    contact_json(conversations@[i].contact@),
                )
                &&& text_value(member(items[i], "last_message"@)) == Some(
                    conversations@[i].last_message@,
                )
                &&& member(items[i], "last_timestamp"@) == Some(
                    integer_json(conversations@[i].last_timestamp as int),
                )
                &&& member(items[i], "unread_count"@) == Some(
                    integer_json(conversations@[i].unread_count as int),
                )
            },
        conversations_outcome(Err(reason)) matches Err(e) && e.code == -32000 && e.message
            == "Failed to get conversations: "@ + reason,
{
    if let Ok(JsonView::Array(items)) = conversations_outcome(Ok(conversations.deep_view())) {
        assert forall|i: int| 0 <= i < items.len() implies {
            &&& member(#[trigger] items[i], "contact"@) == Some(
                contact_json(conversations@[i].contact@),
            )
            &&& text_value(member(items[i], "last_message"@)) == Some(
                conversations@[i].last_message@,
            )
            &&& member(items[i], "last_timestamp"@) == Some(
                integer_json(conversations@[i].last_timestamp as int),
            )
            &&& member(items[i], "unread_count"@) == Some(
                integer_json(conversations@[i].unread_count as int),
            )
        } by {
            assert(items[i] == conversation_json(conversations@[i]@));
            a_conversation_is_told_as_it_is(conversations@[i]);
        }
    }
}

/// What is told of a message that was sent is that it succeeded, its own time and to whom
/// it went.
pub proof fn a_sent_message_is_told_with_its_time(
    uuid: Seq<char>,
    group_id: Seq<char>,
    timestamp: u64,
)
    ensures
        member(sent_json(RecipientView::Contact(uuid), timestamp), "success"@) == Some(
            JsonView::Bool(true),
        ),
        member(sent_json(RecipientView::Contact(uuid), timestamp), "timestamp"@) == Some(
            integer_json(timestamp as int),
        ),
        text_value(
            member(sent_json(RecipientView::Contact(uuid), timestamp), "recipient_uuid"@),
        ) == Some(uuid),
        member(sent_json(RecipientView::Contact(uuid), timestamp), "group_id"@) is None,
        member(sent_json(RecipientView::Group(group_id), timestamp), "success"@) == Some(
            JsonView::Bool(true),
        ),
        member(sent_json(RecipientView::Group(group_id), timestamp), "timestamp"@) == Some(
            integer_json(timestamp as int),
        ),
        text_value(
            member(sent_json(RecipientView::Group(group_id), timestamp), "group_id"@),
        ) == Some(group_id),
        member(sent_json(RecipientView::Group(group_id), timestamp), "recipient_uuid"@) is None,
        member(sent_directly_json(RecipientView::Contact(uuid), timestamp), "success"@) == Some(
            JsonView::Bool(true),
        ),
        member(sent_directly_json(RecipientView::Contact(uuid), timestamp), "timestamp"@) == Some(
            integer_json(timestamp as int),
        ),
        text_value(
            member(sent_directly_json(RecipientView::Contact(uuid), timestamp), "recipient"@),
        ) == Some(uuid),
        member(sent_directly_json(RecipientView::Group(group_id), timestamp), "success"@) == Some(
            JsonView::Bool(true),
        ),
        member(sent_directly_json(RecipientView::Group(group_id), timestamp), "timestamp"@)
            == Some(integer_json(timestamp as int)),
        text_value(
            member(sent_directly_json(RecipientView::Group(group_id), timestamp), "recipient"@),
        ) == Some(group_id),
{
    lemma_report_keys();
}

/// What is told of a synchronization is how many contacts and how many groups were stored.
pub proof fn a_sync_is_told_with_its_counts(contacts: nat, groups: nat)
    ensures
        member(synced_json(contacts, groups), "success"@) == Some(JsonView::Bool(true)),
        member(synced_json(contacts, groups), "contacts_count"@) == Some(
            integer_json(contacts as int),
        ),
        member(synced_json(contacts, groups), "groups_count"@) == Some(
            integer_json(groups as int),
        ),
        text_value(member(synced_json(contacts, groups), "message"@)) == Some(
            "Synced "@ + decimal(contacts) + " contacts and "@ + decimal(groups) + " groups"@,
        ),
        member(synced_directly_json(contacts, groups), "success"@) == Some(JsonView::Bool(true)),
        member(synced_directly_json(contacts, groups), "contacts_synced"@) == Some(
            integer_json(contacts as int),
        ),
        member(synced_directly_json(contacts, groups), "groups_synced"@) == Some(
            integer_json(groups as int),
        ),
{
    lemma_report_keys();
    assert("Synced "@ + decimal(contacts) + " contacts and "@ + (decimal(groups) + " groups"@)
        =~= "Synced "@ + decimal(contacts) + " contacts and "@ + decimal(groups) + " groups"@);
}

/// The status names the account and counts the contacts.
pub proof fn the_status_is_told(account: Seq<char>, contacts: nat)
    ensures
        member(status_json(account, contacts), "connected"@) == Some(JsonView::Bool(true)),
        text_value(member(status_json(account, contacts), "account"@)) == Some(account),
        member(status_json(account, contacts), "contacts_count"@) == Some(
            integer_json(contacts as int),
        ),
{
    lemma_report_keys();
}

/// The content of a tool's answer is one item, of type text, that holds the text.
pub proof fn a_text_is_content(text: Seq<char>)
    ensures
        member(content_json(text), "content"@) matches Some(JsonView::Array(items)) && items.len()
            == 1 && text_value(member(items[0], "type"@)) == Some("text"@) && text_value(
            member(items[0], "text"@),
        ) == Some(text),
{
    lemma_report_keys();
}

/// A text, or a dash for none.
pub open spec fn or_dash(s: Option<Seq<char>>) -> Seq<char> {
    match s {
        Some(t) => t,
        None => "-"@,
    }
}

/// The rule under the head of a table is a line of dashes.
proof fn lemma_rule()
    ensures
        rule().len() == 70,
        forall|k: int| 0 <= k < 70 ==> #[trigger] rule()[k] == '-',
{
    reveal_strlit("----------------------------------------------------------------------");
}

/// A row is its three columns with a space between them.
proof fn lemma_row(first: Seq<char>, second: Seq<char>, last: Seq<char>, gap: Seq<char>)
    ensures
        first + gap + (second + gap + last) == first + gap + second + gap + last,
{
    assert(first + gap + (second + gap + last) =~= first + gap + second + gap + last);
}

/// The table of contacts that the server told has a row for each, in their order: its name
/// in 20 columns and its phone number in 15, with a dash only where there is none, and its
/// UUID. Above are a head and a rule, below a blank line and how many there are.
pub proof fn the_table_shows_each_contact(contacts: Vec<Contact>)
    ensures
        contacts_outcome(Ok(contacts.deep_view())) matches Ok(told) && {
            let lines = contact_lines(told);
            let n = contacts@.len() as int;
            &&& n == 0 ==> lines =~= seq!["No contacts found."@]
            &&& n > 0 ==> lines.len() == n + 4
            &&& n > 0 ==> lines[0] == padded("NAME"@, 20) + " "@ + padded("PHONE"@, 15) + " "@
                + "UUID"@
            &&& n > 0 ==> lines[1].len() == 70 && forall|k: int|
                0 <= k < 70 ==> #[trigger] lines[1][k] == '-'
            &&& forall|i: int|
                0 <= i < n ==> #[trigger] lines[i + 2] == padded(
                    or_dash(contacts@[i].name.deep_view()),
                    20,
                ) + " "@ + padded(or_dash(contacts@[i].phone.deep_view()), 15) + " "@
                    + contacts@[i].uuid@
            &&& n > 0 ==> lines[n + 2].len() == 0
            &&& n > 0 ==> lines[n + 3] =~= "Total: "@ + decimal(n as nat) + " contact(s)"@
        },
{
    let told = contacts_outcome(Ok(contacts.deep_view()))->Ok_0;
    let items = told->Array_0;
    let lines = contact_lines(told);
    let n = contacts@.len() as int;
    reveal_strlit("");
    if n > 0 {
        lemma_rule();
        assert(lines[1] == rule());
        lemma_row(padded("NAME"@, 20), padded("PHONE"@, 15), "UUID"@, " "@);
    }
    assert forall|i: int| 0 <= i < n implies #[trigger] lines[i + 2] == padded(
        or_dash(contacts@[i].name.deep_view()),
        20,
    ) + " "@ + padded(or_dash(contacts@[i].phone.deep_view()), 15) + " "@ + contacts@[i].uuid@ by {
        assert(items[i] == contact_json(contacts@[i]@));
        a_contact_is_told_as_it_is(contacts@[i]);
        assert(lines[i + 2] == contact_line(items[i]));
        let name = padded(or_dash(contacts@[i].name.deep_view()), 20);
        let phone = padded(or_dash(contacts@[i].phone.deep_view()), 15);
        assert(contact_line(items[i]) == name + " "@ + (phone + " "@ + contacts@[i].uuid@));
        lemma_row(name, phone, contacts@[i].uuid@, " "@);
    }
}

/// The table of groups that the server told has a row for each, in their order: its name
/// in 30 columns, with a dash where there is none, how many members it has in 10, and its
/// id. That numbers are told apart is what `Json::unsigned` promises.
pub proof fn the_table_shows_each_group(groups: Vec<Group>)
    requires
        forall|i: int|
            0 <= i < groups@.len() ==> unsigned_value(
                Some(integer_json((#[trigger] groups@[i]).members_count as int)),
            ) == Some(groups@[i].members_count as u64),
    ensures
        groups_outcome(Ok(groups.deep_view())) matches Ok(told) && {
            let lines = group_lines(told);
            let n = groups@.len() as int;
            &&& n == 0 ==> lines =~= seq!["No groups found."@]
            &&& n > 0 ==> lines.len() == n + 4
            &&& n > 0 ==> lines[0] == padded("NAME"@, 30) + " "@ + padded("MEMBERS"@, 10) + " "@
                + "ID"@
            &&& n > 0 ==> lines[1].len() == 70 && forall|k: int|
                0 <= k < 70 ==> #[trigger] lines[1][k] == '-'
            &&& forall|i: int|
                0 <= i < n ==> #[trigger] lines[i + 2] == padded(
                    or_dash(groups@[i].name.deep_view()),
                    30,
                ) + " "@ + padded(decimal(groups@[i].members_count as nat), 10) + " "@
                    + groups@[i].id@
            &&& n > 0 ==> lines[n + 2].len() == 0
            &&& n > 0 ==> lines[n + 3] =~= "Total: "@ + decimal(n as nat) + " group(s)"@
        },
{
    let told = groups_outcome(Ok(groups.deep_view()))->Ok_0;
    let items = told->Array_0;
    let lines = group_lines(told);
    let n = groups@.len() as int;
    reveal_strlit("");
    if n > 0 {
        lemma_rule();
        assert(lines[1] == rule());
        lemma_row(padded("NAME"@, 30), padded("MEMBERS"@, 10), "ID"@, " "@);
    }
    assert forall|i: int| 0 <= i < n implies #[trigger] lines[i + 2] == padded(
        or_dash(groups@[i].name.deep_view()),
        30,
    ) + " "@ + padded(decimal(groups@[i].members_count as nat), 10) + " "@ + groups@[i].id@ by {
        assert(items[i] == group_json(groups@[i]@));
        a_group_is_told_as_it_is(groups@[i]);
        assert(lines[i + 2] == group_line(items[i]));
        let name = padded(or_dash(groups@[i].name.deep_view()), 30);
        let members = padded(decimal(groups@[i].members_count as nat), 10);
        assert(group_line(items[i]) == name + " "@ + (members + " "@ + groups@[i].id@));
        lemma_row(name, members, groups@[i].id@, " "@);
    }
}

/// A row shows the texts of the members that it is about, whatever else an answer holds,
/// and a dash for each that is missing or no text.
pub proof fn a_row_shows_what_is_there(value: JsonView)
    ensures
        contact_line(value) == padded(or_dash(text_value(member(value, "name"@))), 20) + " "@
            + padded(or_dash(text_value(member(value, "phone"@))), 15) + " "@ + or_dash(
            text_value(member(value, "uuid"@)),
        ),
        unsigned_value(member(value, "members_count"@)) matches Some(n) ==> group_line(value)
            == padded(or_dash(text_value(member(value, "name"@))), 30) + " "@ + padded(
            decimal(n as nat),
            10,
        ) + " "@ + or_dash(text_value(member(value, "id"@))),
        unsigned_value(member(value, "members_count"@)) is None ==> group_line(value) == padded(
            or_dash(text_value(member(value, "name"@))),
            30,
        ) + " "@ + padded(decimal(0), 10) + " "@ + or_dash(text_value(member(value, "id"@))),
        !(value is Array) ==> contact_lines(value).len() == 0 && group_lines(value).len() == 0,
{
    let name = or_dash(text_value(member(value, "name"@)));
    let phone = or_dash(text_value(member(value, "phone"@)));
    let uuid = or_dash(text_value(member(value, "uuid"@)));
    let id = or_dash(text_value(member(value, "id"@)));
    lemma_row(padded(name, 20), padded(phone, 15), uuid, " "@);
    let count: nat = match unsigned_value(member(value, "members_count"@)) {
        Some(n) => n as nat,
        None => 0,
    };
    lemma_row(padded(name, 30), padded(decimal(count), 10), id, " "@);
}

/// What an answer does not tell is printed as `null` or unknown.
pub proof fn what_is_not_told_is_printed_so(value: JsonView)
    ensures
        member(value, "timestamp"@) is None ==> sent_line(value) == "Sent! Timestamp: "@
            + compact_json(JsonView::Null),
        member(value, "timestamp"@) matches Some(time) ==> sent_line(value)
            == "Sent! Timestamp: "@ + compact_json(time),
        status_lines(value).len() == 2,
        member(value, "contacts_count"@) is None ==> status_lines(value)[1] == "Contacts: "@
            + compact_json(JsonView::Null),
        member(value, "contacts_count"@) matches Some(count) ==> status_lines(value)[1]
            == "Contacts: "@ + compact_json(count),
        text_value(member(value, "account"@)) is None ==> status_lines(value)[0] == if member(
            value,
            "connected"@,
        ) == Some(JsonView::Bool(true)) {
            "Connected as "@ + "unknown"@
        } else {
            "Not connected (account: "@ + "unknown"@ + ")"@
        },
{
}

/// What is printed of a message that was sent is the time that it carries.
pub proof fn the_time_of_a_sent_message_is_printed(recipient: RecipientView, timestamp: u64)
    ensures
        sent_line(sent_json(recipient, timestamp)) == "Sent! Timestamp: "@ + compact_json(
            integer_json(timestamp as int),
        ),
{
    lemma_report_keys();
}

/// What is printed of the status is the account and how many contacts there are.
pub proof fn the_status_is_printed(account: Seq<char>, contacts: nat)
    ensures
        status_lines(status_json(account, contacts)) =~= seq![
            "Connected as "@ + account,
            "Contacts: "@ + compact_json(integer_json(contacts as int)),
        ],
{
    lemma_report_keys();
}

/// A server that does not say that it is connected is printed as not connected.
pub proof fn no_connection_is_printed(result: JsonView, account: Seq<char>)
    requires
        member(result, "connected"@) != Some(JsonView::Bool(true)),
        member(result, "account"@) == Some(JsonView::Text(account)),
    ensures
        connection_line(result) == "Not connected (account: "@ + account + ")"@,
{
}

/// A call that fails is complained of with its own message, and an error that the server
/// tells with the server's.
pub proof fn calls_fail_with_their_own_message(
    message: String,
    result: Option<Json>,
    value: Json,
)
    ensures
        call_outcome(CallEvent::Failed(message)) == Err::<JsonView, Seq<char>>(message@),
        call_outcome(CallEvent::Answered { result, error: Some(message) }) == Err::<
            JsonView,
            Seq<char>,
        >(message@),
        call_outcome(CallEvent::Answered { result: Some(value), error: None }) == Ok::<
            JsonView,
            Seq<char>,
        >(value@),
        call_outcome(CallEvent::Answered { result: None, error: None }) matches Err(said) && said
            == "Empty response"@,
        call_outcome(CallEvent::ConnectTimedOut) matches Err(said) && said
            == "Connection timeout. Server may be unresponsive."@,
        call_outcome(CallEvent::ConnectRefused) matches Err(said) && said
            == "Server not running. Start with: signal-mcp server"@,
        call_outcome(CallEvent::ReadTimedOut) matches Err(said) && said
            == "Server response timeout. Try 'signal-mcp stop' and restart the server."@,
{
}

/// A call is a request of version 2.0 for the method, with its parameters and the time to
/// wait for.
pub proof fn a_call_asks_for_its_method(method: Seq<char>, params: JsonView, timeout_secs: u64)
    ensures
        call_of(method, params, timeout_secs).jsonrpc == "2.0"@,
        call_of(method, params, timeout_secs).id == 1,
        call_of(method, params, timeout_secs).method == method,
        call_of(method, params, timeout_secs).params == params,
        call_of(method, params, timeout_secs).timeout_secs == timeout_secs,
        call_request(call_of(method, params, timeout_secs)).params == Some(params),
        call_request(call_of(method, params, timeout_secs)).method == method,
        call_request(call_of(method, params, timeout_secs)).jsonrpc == "2.0"@,
{
}

/// A filter is sent as it is, and none as `null`.
pub proof fn a_filter_is_sent_as_it_is(filter: Seq<char>)
    ensures
        text_value(member(filter_params(Some(filter)), "filter"@)) == Some(filter),
        member(filter_params(None), "filter"@) == Some(JsonView::Null),
{
}

/// A message is sent with its own text, to the recipient that was given.
pub proof fn a_message_is_sent_as_it_is(recipient: Seq<char>, message: Seq<char>)
    ensures
        text_value(member(send_params(recipient, message), "recipient"@)) == Some(recipient),
        text_value(member(send_params(recipient, message), "message"@)) == Some(message),
{
    reveal_strlit("recipient");
    reveal_strlit("message");
    assert("recipient"@.len() != "message"@.len());
}

/// The counts of a sync are printed as the server told them.
pub proof fn the_counts_of_a_sync_are_printed(contacts: u64, groups: u64)
    requires
        unsigned_value(Some(integer_json(contacts as int))) == Some(contacts),
        unsigned_value(Some(integer_json(groups as int))) == Some(groups),
    ensures
        synced_line(synced_json(contacts as nat, groups as nat)) =~= "Synced "@ + decimal(
            contacts as nat,
        ) + " contacts and "@ + decimal(groups as nat) + " groups"@,
{
    lemma_report_keys();
}

/// Whether a value is an object with the given members and no others.
pub open spec fn has_just(value: JsonView, keys: Set<Seq<char>>) -> bool {
    value matches JsonView::Object(members) && members.dom() =~= keys
}

/// Nothing is told but what belongs there.
pub proof fn nothing_else_is_told(
    contact: Contact,
    group: Group,
    message: Message,
    conversation: Conversation,
    text: Seq<char>,
    n: nat,
    timestamp: u64,
)
    ensures
        has_just(contact_json(contact@), set!["uuid"@, "phone"@, "name"@]),
        has_just(group_json(group@), set!["id"@, "name"@, "members_count"@]),
        has_just(
            message_json(message@),
            set!["id"@, "contact_uuid"@, "direction"@, "body"@, "timestamp"@],
        ),
        has_just(
            conversation_json(conversation@),
            set!["contact"@, "last_message"@, "last_timestamp"@, "unread_count"@],
        ),
        has_just(status_json(text, n), set!["connected"@, "account"@, "contacts_count"@]),
        has_just(
            sent_json(RecipientView::Contact(text), timestamp),
            set!["success"@, "timestamp"@, "recipient_uuid"@],
        ),
        has_just(
            sent_json(RecipientView::Group(text), timestamp),
            set!["success"@, "timestamp"@, "group_id"@],
        ),
        has_just(
            sent_directly_json(RecipientView::Contact(text), timestamp),
            set!["success"@, "timestamp"@, "recipient"@],
        ),
        has_just(
            synced_json(n, n),
            set!["success"@, "contacts_count"@, "groups_count"@, "message"@],
        ),
        has_just(
            synced_directly_json(n, n),
            set!["success"@, "contacts_synced"@, "groups_synced"@],
        ),
        has_just(content_json(text), set!["content"@]),
        has_just(send_params(text, text), set!["recipient"@, "message"@]),
        has_just(filter_params(None), set!["filter"@]),
        has_just(filter_params(Some(text)), set!["filter"@]),
{
}

} // verus!
