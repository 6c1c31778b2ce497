//! What is asked of the store, and what is made of its answers.

use vstd::prelude::*;

use crate::base64::{decode_inverts_encode, decoded};
use crate::dispatch::{performed, sent_directly_outcome, sent_outcome, Action, StepView};
use crate::json::JsonView;
use crate::methods::{
    contact_json, contact_outcome, conversation_json, group_json, history, history_statement,
    keep_ran, message_json, messages_outcome, recipient_outcome, recipient_ran,
    rpc_get_messages_ran, send_message_ran, sent_directly_json, sent_json,
    status_json, GetMessagesParams, Outgoing, OutgoingView, RecipientView, Reply,
    ResolvedRecipient, SendMessageParams,
};
use crate::rpc::ErrorView;
use crate::server::{event_stored, received_message, unnamed_contact};
use crate::signal::{
    asked, contact_statements, done_count, event_of, group_statements, stored, stored_contact,
    stored_group, Content, ContentBody, DataMessage, EventView, Sent, SignalEvent, SyncedContact,
    SyncedGroup,
};
use crate::storage::{
    asked_once, contacts_of, conversations_of, done_of, done_view, error_message,
    get_conversations_statement, get_messages_before_statement, get_messages_statement,
    groups_of, has_phone_form, has_uuid_form, insert_message_statement, list_contacts_statement,
    list_groups_statement, lookup_of, lookup_statement, messages_of, occurrences,
    resolve_exchanges, resolve_ran, resolved, rows_view, schema_made, schema_refused,
    search_view, upsert_contact_statement, upsert_group_statement, Answer, Contact, ContactView,
    ConversationView, Exchange, Group, GroupView, LookupView, Message, MessageView, Statement,
    StorageError, INSERT_MESSAGE, SCHEMA, SELECT_BY_NAME, SELECT_BY_PHONE, SELECT_CONTACTS,
    SELECT_CONVERSATIONS, SELECT_GROUP, SELECT_GROUPS, SELECT_MATCHING_CONTACTS,
    SELECT_MATCHING_GROUPS, SELECT_MESSAGES, SELECT_MESSAGES_BEFORE, UPSERT_CONTACT,
    UPSERT_GROUP,
};

verus! {

/// A time as the store keeps it: itself, as long as 63 bits hold it, and from there on the
/// number that its 64 bits are with a sign.
pub open spec fn kept_time(timestamp: u64) -> int {
    if timestamp <= i64::MAX {
        timestamp as int
    } else {
        timestamp - 0x1_0000_0000_0000_0000
    }
}

/// A cast keeps the bits of a time.
proof fn lemma_cast(timestamp: u64)
    ensures
        timestamp as i64 as int == kept_time(timestamp),
{
    assert(timestamp > 0x7fff_ffff_ffff_ffff ==> (timestamp as i64) as int == timestamp
        - 0x1_0000_0000_0000_0000) by (bit_vector);
}

/// A message is stored with its contact, its direction, its text and its time.
pub proof fn a_message_is_stored_as_it_is(message: Message)
    ensures
        insert_message_statement(message@).sql == INSERT_MESSAGE@,
        insert_message_statement(message@).texts =~= seq![
            Some(message.contact_uuid@),
            Some(message.direction@),
            Some(message.body@),
        ],
        insert_message_statement(message@).numbers =~= seq![message.timestamp],
{
}

/// A contact is stored with its UUID, its phone number and its name.
pub proof fn a_contact_is_stored_as_it_is(contact: Contact)
    ensures
        upsert_contact_statement(contact@).sql == UPSERT_CONTACT@,
        upsert_contact_statement(contact@).texts =~= seq![
            Some(contact.uuid@),
            contact.phone.deep_view(),
            contact.name.deep_view(),
        ],
        upsert_contact_statement(contact@).numbers.len() == 0,
{
}

/// A group is stored with its id, its name and how many members it has.
pub proof fn a_group_is_stored_as_it_is(group: Group)
    ensures
        upsert_group_statement(group@).sql == UPSERT_GROUP@,
        upsert_group_statement(group@).texts =~= seq![Some(group.id@), group.name.deep_view()],
        upsert_group_statement(group@).numbers.len() == 1,
        group.members_count <= i64::MAX ==> upsert_group_statement(group@).numbers[0]
            == group.members_count,
        group.members_count > i64::MAX ==> upsert_group_statement(group@).numbers[0] == i64::MAX,
{
}

/// A filter is looked for anywhere in a text: the pattern is the filter between two signs
/// for whatever may stand there. Without a filter everything is asked for.
pub proof fn a_filter_is_looked_for_anywhere(filter: Seq<char>)
    ensures
        list_contacts_statement(Some(filter)).sql == SELECT_MATCHING_CONTACTS@,
        list_contacts_statement(Some(filter)).texts =~= seq![Some(seq!['%'] + filter + seq!['%'])],
        list_contacts_statement(Some(filter)).numbers.len() == 0,
        list_contacts_statement(None).sql == SELECT_CONTACTS@,
        list_contacts_statement(None).texts.len() == 0,
        list_groups_statement(Some(filter)).sql == SELECT_MATCHING_GROUPS@,
        list_groups_statement(Some(filter)).texts =~= seq![Some(seq!['%'] + filter + seq!['%'])],
        list_groups_statement(Some(filter)).numbers.len() == 0,
        list_groups_statement(None).sql == SELECT_GROUPS@,
        list_groups_statement(None).texts.len() == 0,
{
    reveal_strlit("%");
    assert("%"@ =~= seq!['%']);
}

/// Messages, conversations and lookups are asked for with the contact, the time, the limit
/// and the text that they are about.
pub proof fn queries_say_what_is_asked_for(key: Seq<char>, sql: Seq<char>, time: i64, limit: i64)
    ensures
        get_messages_statement(key, limit).sql == SELECT_MESSAGES@,
        get_messages_statement(key, limit).texts =~= seq![Some(key)],
        get_messages_statement(key, limit).numbers =~= seq![limit],
        get_messages_before_statement(key, time, limit).sql == SELECT_MESSAGES_BEFORE@,
        get_messages_before_statement(key, time, limit).texts =~= seq![Some(key)],
        get_messages_before_statement(key, time, limit).numbers =~= seq![time, limit],
        get_conversations_statement(limit).sql == SELECT_CONVERSATIONS@,
        get_conversations_statement(limit).texts.len() == 0,
        get_conversations_statement(limit).numbers =~= seq![limit],
        lookup_statement(sql, key).sql == sql,
        lookup_statement(sql, key).texts =~= seq![Some(key)],
        lookup_statement(sql, key).numbers.len() == 0,
{
}

/// What the store answers is taken as it is: rows in their order, but messages from the
/// last to the first; a text that was found, or none; and the message of an error.
pub proof fn answers_are_taken_as_they_are(
    contacts: Seq<ContactView>,
    groups: Seq<GroupView>,
    messages: Seq<MessageView>,
    conversations: Seq<ConversationView>,
    text: Seq<char>,
    cause: rusqlite::Error,
)
    ensures
        contacts_of(Answer::Contacts(contacts)) matches Ok(rows) && rows =~= contacts,
        groups_of(Answer::Groups(groups)) matches Ok(rows) && rows =~= groups,
        messages_of(Answer::Messages(messages)) matches Ok(rows) && rows.len() == messages.len()
            && forall|i: int|
            0 <= i < rows.len() ==> #[trigger] rows[i] == messages[messages.len() - 1 - i],
        conversations_of(Answer::Conversations(conversations)) matches Ok(rows) && rows
            =~= conversations,
        lookup_of(Answer::Text(text)) == LookupView::Found(text),
        lookup_of(Answer::NoText) == LookupView::NotFound,
        lookup_of(Answer::Failed(cause)) == LookupView::Failed(error_message(cause)),
        done_of(Answer::Done) is Ok,
        done_of(Answer::Failed(cause)) == Err::<(), Seq<char>>(error_message(cause)),
        contacts_of(Answer::Failed(cause)) matches Err(reason) && reason == error_message(cause),
        groups_of(Answer::Failed(cause)) matches Err(reason) && reason == error_message(cause),
        messages_of(Answer::Failed(cause)) matches Err(reason) && reason == error_message(cause),
        conversations_of(Answer::Failed(cause)) matches Err(reason) && reason == error_message(
            cause,
        ),
{
}

/// A message that was sent to a contact is kept: one statement stores it as going out, with
/// its own text and its own time. One to a group is not kept.
pub proof fn a_sent_message_is_kept(
    before: Seq<Exchange>,
    after: Seq<Exchange>,
    outgoing: Outgoing,
    timestamp: u64,
)
    requires
        keep_ran(before, after, outgoing@, timestamp),
    ensures
        outgoing.recipient matches ResolvedRecipient::Contact(uuid) ==> {
            let asked = after.last().asked;
            &&& after.len() == before.len() + 1
            &&& after.take(before.len() as int) =~= before
            &&& asked.sql == INSERT_MESSAGE@
            &&& asked.texts =~= seq![Some(uuid@), Some("out"@), Some(outgoing.message@)]
            &&& asked.numbers.len() == 1
            &&& asked.numbers[0] as int == kept_time(timestamp)
        },
        outgoing.recipient is Group ==> after == before,
{
    lemma_cast(timestamp);
}

/// A message that was received is stored after its sender: one statement adds the sender
/// and, once that was done, one stores the message as coming in, with its own text and its
/// own time. A statement that fails ends it, with its own error.
pub proof fn a_received_message_is_stored(
    before: Seq<Exchange>,
    after: Seq<Exchange>,
    sender_uuid: String,
    body: String,
    timestamp: u64,
    outcome: Result<(), Seq<char>>,
)
    requires
        event_stored(
            before,
            after,
            (SignalEvent::Message { sender_uuid, body, timestamp })@,
            outcome,
        ),
    ensures
        before.len() < after.len() <= before.len() + 2,
        after.take(before.len() as int) =~= before,
        after[before.len() as int].asked.sql == UPSERT_CONTACT@,
        after[before.len() as int].asked.texts =~= seq![Some(sender_uuid@), None, None],
        after.len() == before.len() + 2 <==> after[before.len() as int].answer is Done,
        after.len() == before.len() + 2 ==> {
            let asked = after.last().asked;
            &&& asked.sql == INSERT_MESSAGE@
            &&& asked.texts =~= seq![Some(sender_uuid@), Some("in"@), Some(body@)]
            &&& asked.numbers.len() == 1
            &&& asked.numbers[0] as int == kept_time(timestamp)
        },
        outcome is Ok <==> after.last().answer is Done,
        after.last().answer matches Answer::Failed(cause) ==> outcome == Err::<(), Seq<char>>(
            error_message(cause),
        ),
{
    lemma_cast(timestamp);
    let middle = choose|middle: Seq<Exchange>| {
        &&& #[trigger] asked_once(
            before,
            middle,
            upsert_contact_statement(unnamed_contact(sender_uuid@)),
        )
        &&& if done_of(middle.last().answer) is Ok {
            &&& asked_once(
                middle,
                after,
                insert_message_statement(
                    received_message(sender_uuid@, body@, timestamp),
                ),
            )
            &&& outcome == done_of(after.last().answer)
        } else {
            &&& after == middle
            &&& outcome == done_of(after.last().answer)
        }
    };
    assert(middle[before.len() as int] == middle.last());
}

/// Two messages that were received and stored stand in the store in the order of their
/// times, and with different times if theirs differ.
pub proof fn times_keep_their_order(
    before: (Seq<Exchange>, Seq<Exchange>),
    after: (Seq<Exchange>, Seq<Exchange>),
    sender_uuid: (String, String),
    body: (String, String),
    timestamp: (u64, u64),
)
    requires
        event_stored(
            before.0,
            after.0,
            (SignalEvent::Message {
                sender_uuid: sender_uuid.0,
                body: body.0,
                timestamp: timestamp.0,
            })@,
            Ok(()),
        ),
        event_stored(
            before.1,
            after.1,
            (SignalEvent::Message {
                sender_uuid: sender_uuid.1,
                body: body.1,
                timestamp: timestamp.1,
            })@,
            Ok(()),
        ),
        timestamp.0 <= i64::MAX,
        timestamp.1 <= i64::MAX,
    ensures
        timestamp.0 < timestamp.1 <==> after.0.last().asked.numbers[0]
            < after.1.last().asked.numbers[0],
        timestamp.0 == timestamp.1 <==> after.0.last().asked.numbers[0]
            == after.1.last().asked.numbers[0],
{
    a_received_message_is_stored(
        before.0,
        after.0,
        sender_uuid.0,
        body.0,
        timestamp.0,
        Ok(()),
    );
    a_received_message_is_stored(
        before.1,
        after.1,
        sender_uuid.1,
        body.1,
        timestamp.1,
        Ok(()),
    );
}

/// A contact that arrives is stored as it is, and other events store nothing.
pub proof fn a_received_contact_is_stored(
    before: Seq<Exchange>,
    after: Seq<Exchange>,
    uuid: String,
    phone: Option<String>,
    name: Option<String>,
    outcome: Result<(), Seq<char>>,
)
    ensures
        event_stored(before, after, (SignalEvent::Contact { uuid, phone, name })@, outcome) ==> {
            &&& after.len() == before.len() + 1
            &&& after.take(before.len() as int) =~= before
            &&& after.last().asked.sql == UPSERT_CONTACT@
            &&& after.last().asked.texts =~= seq![
                Some(uuid@),
                phone.deep_view(),
                name.deep_view(),
            ]
            &&& outcome is Ok <==> after.last().answer is Done
        },
        event_stored(before, after, SignalEvent::QueueEmpty@, outcome) ==> after == before
            && outcome is Ok,
        event_stored(before, after, SignalEvent::ContactsSync@, outcome) ==> after == before
            && outcome is Ok,
{
}

/// A text message that is received is an event with its sender, its text and its time; what
/// holds no text is none.
pub proof fn a_received_text_is_an_event(sender_uuid: String, timestamp: u64, text: String)
    ensures
        event_of(
            Content {
                sender_uuid,
                timestamp,
                body: ContentBody::DataMessage(DataMessage { body: Some(text) }),
            },
        ) == Some(
            EventView::Message { sender_uuid: sender_uuid@, body: text@, timestamp },
        ),
        event_of(
            Content {
                sender_uuid,
                timestamp,
                body: ContentBody::DataMessage(DataMessage { body: None }),
            },
        ) is None,
        event_of(Content { sender_uuid, timestamp, body: ContentBody::Other }) is None,
{
}

/// Of what this account sent from another device, only a text to the account itself is an
/// event.
pub proof fn only_notes_to_self_are_events(
    sender_uuid: String,
    timestamp: u64,
    destination: String,
    text: String,
)
    ensures
        event_of(
            Content {
                sender_uuid,
                timestamp,
                body: ContentBody::SynchronizeMessage(
                    Some(
                        Sent {
                            destination_service_id: Some(destination),
                            message: Some(DataMessage { body: Some(text) }),
                        },
                    ),
                ),
            },
        ) == if destination@ == sender_uuid@ {
            Some(EventView::Message { sender_uuid: sender_uuid@, body: text@, timestamp })
        } else {
            None::<EventView>
        },
        event_of(
            Content {
                sender_uuid,
                timestamp,
                body: ContentBody::SynchronizeMessage(
                    Some(
                        Sent {
                            destination_service_id: None,
                            message: Some(DataMessage { body: Some(text) }),
                        },
                    ),
                ),
            },
        ) is None,
        event_of(
            Content {
                sender_uuid,
                timestamp,
                body: ContentBody::SynchronizeMessage(
                    Some(
                        Sent {
                            destination_service_id: Some(destination),
                            message: Some(DataMessage { body: None }),
                        },
                    ),
                ),
            },
        ) is None,
        event_of(
            Content {
                sender_uuid,
                timestamp,
                body: ContentBody::SynchronizeMessage(
                    Some(Sent { destination_service_id: Some(destination), message: None }),
                ),
            },
        ) is None,
        event_of(
            Content { sender_uuid, timestamp, body: ContentBody::SynchronizeMessage(None) },
        ) is None,
{
}

/// A contact of the primary device is stored with its own UUID, phone number and name, and
/// without a name only if it has none.
pub proof fn a_synced_contact_keeps_its_name(synced: SyncedContact)
    ensures
        stored_contact(synced).uuid == synced.uuid@,
        stored_contact(synced).phone == synced.phone.deep_view(),
        synced.name@.len() > 0 ==> stored_contact(synced).name == Some(synced.name@),
        synced.name@.len() == 0 ==> stored_contact(synced).name is None,
{
}

/// A group of the primary device is stored with its own name and number of members, without
/// a name only if it has none, and under an id from which its master key can be read.
pub proof fn a_synced_group_keeps_its_name(synced: SyncedGroup)
    ensures
        synced.title@.len() > 0 ==> stored_group(synced).name == Some(synced.title@),
        synced.title@.len() == 0 ==> stored_group(synced).name is None,
        stored_group(synced).members_count == synced.members_count,
        decoded(stored_group(synced).id) == Some(synced.master_key@),
{
    decode_inverts_encode(synced.master_key@);
}

/// Contacts of the primary device are stored in their order: first those before any point, and
/// then those after it.
pub proof fn synced_contacts_are_stored_in_order(
    earlier: Seq<Result<SyncedContact, String>>,
    later: Seq<Result<SyncedContact, String>>,
)
    ensures
        contact_statements(Seq::empty()).len() == 0,
        contact_statements(earlier + later) =~= contact_statements(earlier) + contact_statements(
            later,
        ),
    decreases later.len(),
{
    if later.len() == 0 {
        assert(earlier + later =~= earlier);
    } else {
        assert((earlier + later).drop_last() =~= earlier + later.drop_last());
        synced_contacts_are_stored_in_order(earlier, later.drop_last());
    }
}

/// Each contact of the primary device that could be read is stored, with what it holds; one
/// that could not be read stores nothing.
pub proof fn each_synced_contact_is_stored(synced: SyncedContact, reason: String)
    ensures
        contact_statements(seq![Err(reason)]).len() == 0,
        contact_statements(seq![Ok(synced)]).len() == 1,
        contact_statements(seq![Ok(synced)])[0].sql == UPSERT_CONTACT@,
        contact_statements(seq![Ok(synced)])[0].texts =~= seq![
            Some(synced.uuid@),
            synced.phone.deep_view(),
            if synced.name@.len() > 0 {
                Some(synced.name@)
            } else {
                None
            },
        ],
{
    let unread = seq![Err::<SyncedContact, String>(reason)];
    let read = seq![Ok::<SyncedContact, String>(synced)];
    assert(unread.drop_last() =~= Seq::empty());
    assert(read.drop_last() =~= Seq::empty());
    assert(contact_statements(read.drop_last()) =~= Seq::empty());
    assert(contact_statements(read)[0] == upsert_contact_statement(stored_contact(synced)));
}

/// Groups of the primary device are stored in their order: first those before any point, and
/// then those after it.
pub proof fn synced_groups_are_stored_in_order(
    earlier: Seq<Result<SyncedGroup, String>>,
    later: Seq<Result<SyncedGroup, String>>,
)
    ensures
        group_statements(Seq::empty()).len() == 0,
        group_statements(earlier + later) =~= group_statements(earlier) + group_statements(
            later,
        ),
    decreases later.len(),
{
    if later.len() == 0 {
        assert(earlier + later =~= earlier);
    } else {
        assert((earlier + later).drop_last() =~= earlier + later.drop_last());
        synced_groups_are_stored_in_order(earlier, later.drop_last());
    }
}

/// Each group of the primary device that could be read is stored, with what it holds; one
/// that could not be read stores nothing.
pub proof fn each_synced_group_is_stored(synced: SyncedGroup, reason: String)
    ensures
        group_statements(seq![Err(reason)]).len() == 0,
        group_statements(seq![Ok(synced)]).len() == 1,
        group_statements(seq![Ok(synced)])[0].sql == UPSERT_GROUP@,
        group_statements(seq![Ok(synced)])[0].texts.len() == 2,
        group_statements(seq![Ok(synced)])[0].texts[0] matches Some(id) && decoded(id) == Some(
            synced.master_key@,
        ),
        group_statements(seq![Ok(synced)])[0].texts[1] == if synced.title@.len() > 0 {
            Some(synced.title@)
        } else {
            None
        },
        group_statements(seq![Ok(synced)])[0].numbers.len() == 1,
        synced.members_count <= i64::MAX ==> group_statements(seq![Ok(synced)])[0].numbers[0]
            == synced.members_count,
{
    decode_inverts_encode(synced.master_key@);
    let unread = seq![Err::<SyncedGroup, String>(reason)];
    let read = seq![Ok::<SyncedGroup, String>(synced)];
    assert(unread.drop_last() =~= Seq::empty());
    assert(read.drop_last() =~= Seq::empty());
    assert(group_statements(read.drop_last()) =~= Seq::empty());
    assert(group_statements(read)[0] == upsert_group_statement(stored_group(synced)));
}

/// What counts as stored is what the store took: statements are counted one by one.
pub proof fn what_was_done_is_counted(
    earlier: Seq<Exchange>,
    later: Seq<Exchange>,
    exchange: Exchange,
)
    ensures
        done_count(Seq::empty()) == 0,
        done_count(earlier + later) == done_count(earlier) + done_count(later),
        done_count(seq![exchange]) == if exchange.answer is Done {
            1nat
        } else {
            0nat
        },
        done_count(earlier) <= earlier.len(),
    decreases earlier.len() + later.len(),
{
    assert(seq![exchange].drop_last() =~= Seq::empty());
    if later.len() > 0 {
        assert((earlier + later).drop_last() =~= earlier + later.drop_last());
        what_was_done_is_counted(earlier, later.drop_last(), exchange);
    } else {
        assert(earlier + later =~= earlier);
        if earlier.len() > 0 {
            assert(earlier.drop_last() + later =~= earlier.drop_last());
            what_was_done_is_counted(earlier.drop_last(), later, exchange);
        }
    }
}

/// Between the two states nothing but the statements was handed over, in their order.
pub proof fn nothing_else_is_stored(
    before: Seq<Exchange>,
    after: Seq<Exchange>,
    statements: Seq<Statement>,
    count: nat,
)
    requires
        stored(before, after, statements, count),
    ensures
        after.len() == before.len() + statements.len(),
        forall|i: int| 0 <= i < before.len() ==> #[trigger] after[i] == before[i],
        forall|i: int|
            0 <= i < statements.len() ==> #[trigger] statements[i] == after[before.len()
                + i].asked,
        count == done_count(after.subrange(before.len() as int, after.len() as int)),
        count <= statements.len(),
{
    let more = after.skip(before.len() as int);
    assert(asked(more).len() == more.len());
    assert forall|i: int| 0 <= i < before.len() implies #[trigger] after[i] == before[i] by {
        assert(after.take(before.len() as int)[i] == before[i]);
    }
    assert forall|i: int| 0 <= i < statements.len() implies #[trigger] statements[i]
        == after[before.len() + i].asked by {
        assert(asked(more)[i] == more[i].asked);
    }
    assert(after.subrange(before.len() as int, after.len() as int) =~= more);
    let none = Seq::<Exchange>::empty();
    if more.len() > 0 {
        what_was_done_is_counted(more, none, more[0]);
    }
}

/// A message that the manager sent is told as sent, with the manager's time and to whom it
/// went; one that it did not send is told with the manager's reason.
pub proof fn the_managers_reply_is_told(
    outgoing: Outgoing,
    timestamp: u64,
    reason: String,
)
    ensures
        sent_outcome(outgoing@, Reply::Answered(Ok(timestamp))) == Ok::<JsonView, ErrorView>(
            sent_json(
                match outgoing.recipient {
                    ResolvedRecipient::Contact(uuid) => RecipientView::Contact(uuid@),
                    ResolvedRecipient::Group(id) => RecipientView::Group(id@),
                },
                timestamp,
            ),
        ),
        sent_outcome(outgoing@, Reply::Answered(Err(reason))) matches Err(e) && e.code == -32000
            && e.message == "Failed to send message: "@ + reason@,
        sent_outcome(outgoing@, Reply::ShuttingDown) matches Err(e) && e.code == -32000
            && e.message =~= "Server shutting down"@,
        sent_outcome(outgoing@, Reply::ChannelClosed) matches Err(e) && e.code == -32000
            && e.message =~= "Server error: channel closed"@,
        sent_directly_outcome(outgoing@, Ok(timestamp)) == Ok::<JsonView, ErrorView>(
            sent_directly_json(
                match outgoing.recipient {
                    ResolvedRecipient::Contact(uuid) => RecipientView::Contact(uuid@),
                    ResolvedRecipient::Group(id) => RecipientView::Group(id@),
                },
                timestamp,
            ),
        ),
        sent_directly_outcome(outgoing@, Err(reason)) matches Err(e) && e.code == -32000
            && e.message == (match outgoing.recipient {
            ResolvedRecipient::Contact(_) => "Failed to send message: "@,
            ResolvedRecipient::Group(_) => "Failed to send group message: "@,
        }) + reason@,
{
}

/// How often a character occurs in a text is the sum over its parts.
pub proof fn occurrences_add_up(a: Seq<char>, b: Seq<char>, c: char, d: char)
    ensures
        occurrences(Seq::empty(), c) == 0,
        occurrences(seq![d], c) == if d == c {
            1nat
        } else {
            0nat
        },
        occurrences(a + b, c) == occurrences(a, c) + occurrences(b, c),
    decreases b.len(),
{
    assert(seq![d].drop_last() =~= Seq::empty());
    assert(occurrences(seq![d].drop_last(), c) == 0);
    if b.len() == 0 {
        assert(a + b =~= a);
    } else {
        assert((a + b).drop_last() =~= a + b.drop_last());
        occurrences_add_up(a, b.drop_last(), c, d);
    }
}

/// Whatever a recipient looks like is what it looks like: 36 bytes with four dashes are a
/// UUID, and a plus sign in front makes a phone number.
pub proof fn recipients_are_known_by_their_form(recipient: Seq<char>, rest: Seq<char>, c: char)
    ensures
        has_uuid_form(recipient) <==> vstd::utf8::encode_utf8(recipient).len() == 36
            && occurrences(recipient, '-') == 4,
        has_phone_form(seq!['+'] + rest),
        c != '+' ==> !has_phone_form(seq![c] + rest),
        !has_phone_form(Seq::empty()),
{
}

/// A search for whom a text stands for: a UUID stands for itself, and nothing is asked. A
/// phone number is looked for first as that, and then, as any other text, as a name. The
/// last answer decides.
pub proof fn a_search_goes_by_phone_then_by_name(
    before: Seq<Exchange>,
    after: Seq<Exchange>,
    text: Seq<char>,
    outcome: LookupView,
)
    requires
        resolve_ran(before, after, text, outcome),
    ensures
        before.len() <= after.len(),
        after.take(before.len() as int) =~= before,
        has_uuid_form(text) ==> after == before && outcome == LookupView::Found(text),
        !has_uuid_form(text) ==> {
            let first = after[before.len() as int];
            &&& after.len() > before.len()
            &&& forall|i: int|
                before.len() <= i < after.len() ==> (#[trigger] after[i]).asked.texts =~= seq![
                    Some(text),
                ]
            &&& (after.last().answer matches Answer::Text(found) ==> outcome
                == LookupView::Found(found))
            &&& (after.last().answer is NoText ==> outcome is NotFound)
            &&& (after.last().answer matches Answer::Failed(cause) ==> outcome
                == LookupView::Failed(error_message(cause)))
            &&& (outcome matches LookupView::Found(found) ==> after.last().answer
                == Answer::Text(found))
            &&& (outcome is NotFound ==> after.last().answer is NoText)
            &&& if text.len() > 0 && text[0] == '+' {
                &&& first.asked.sql == SELECT_BY_PHONE@
                &&& if first.answer is NoText {
                    &&& after.len() == before.len() + 2
                    &&& after.last().asked.sql == SELECT_BY_NAME@
                } else {
                    after.len() == before.len() + 1
                }
            } else {
                &&& after.len() == before.len() + 1
                &&& first.asked.sql == SELECT_BY_NAME@
            }
        },
{
    let (by_phone, by_name) = choose|by_phone: Answer, by_name: Answer|
        {
            &&& after == before + #[trigger] resolve_exchanges(text, by_phone, by_name)
            &&& outcome == resolved(text, lookup_of(by_phone), lookup_of(by_name))
        };
    let more = resolve_exchanges(text, by_phone, by_name);
    assert forall|i: int| before.len() <= i < after.len() implies (
    #[trigger] after[i]).asked.texts =~= seq![Some(text)] by {
        assert(after[i] == more[i - before.len()]);
    }
    if has_uuid_form(text) {
        assert(after =~= before);
    } else {
        assert(after[before.len() as int] == more[0]);
        assert(after.last() == more.last());
    }
}

/// A recipient that is a UUID is the contact with it. Any other is the contact that the
/// store found, or the group that it found where there is no such contact; where there is
/// neither, the error names the recipient, and where the store fails, the reason.
pub proof fn a_recipient_is_a_contact_or_a_group(
    before: Seq<Exchange>,
    after: Seq<Exchange>,
    recipient: Seq<char>,
    outcome: Result<RecipientView, ErrorView>,
)
    requires
        recipient_ran(before, after, recipient, outcome),
    ensures
        before.len() <= after.len(),
        after.take(before.len() as int) =~= before,
        has_uuid_form(recipient) ==> after == before && outcome == Ok::<RecipientView, ErrorView>(
            RecipientView::Contact(recipient),
        ),
        !has_uuid_form(recipient) ==> {
            let last = after.last();
            &&& after.len() > before.len()
            &&& last.asked.texts =~= seq![Some(recipient)]
            &&& match outcome {
                Ok(RecipientView::Contact(uuid)) => {
                    &&& last.answer == Answer::Text(uuid)
                    &&& last.asked.sql == SELECT_BY_PHONE@ || last.asked.sql == SELECT_BY_NAME@
                },
                Ok(RecipientView::Group(id)) => {
                    &&& last.answer == Answer::Text(id)
                    &&& last.asked.sql == SELECT_GROUP@
                    &&& after.len() >= before.len() + 2
                    &&& after[after.len() - 2].asked.sql == SELECT_BY_NAME@
                    &&& after[after.len() - 2].answer is NoText
                },
                Err(e) => {
                    &&& e.code == -32000
                    &&& last.answer is NoText ==> e.message == "Could not resolve recipient: "@
                        + recipient && last.asked.sql == SELECT_GROUP@
                    &&& last.answer matches Answer::Failed(cause) ==> e.message
                        == "Error resolving recipient: "@ + error_message(cause)
                    &&& !(last.answer is Text)
                },
            }
        },
{
    let (middle, contact) = choose|middle: Seq<Exchange>, contact: LookupView| #[trigger]
        resolve_ran(before, middle, recipient, contact) && if contact is NotFound {
            &&& asked_once(
                middle,
                after,
                lookup_statement(SELECT_GROUP@, recipient),
            )
            &&& outcome == recipient_outcome(recipient, contact, lookup_of(after.last().answer))
        } else {
            &&& after == middle
            &&& outcome == recipient_outcome(recipient, contact, LookupView::NotFound)
        };
    a_search_goes_by_phone_then_by_name(before, middle, recipient, contact);
    if contact is NotFound {
        assert(after.take(before.len() as int) =~= middle.take(before.len() as int));
        assert(after[after.len() - 2] == middle.last());
    }
}

/// A message is made ready with its own text, for the recipient that was found; parameters
/// that are missing or that do not fit ask nothing, and the error says so.
pub proof fn a_message_is_made_ready_as_it_is(
    before: Seq<Exchange>,
    after: Seq<Exchange>,
    params: SendMessageParams,
    reason: String,
    outcome: Result<OutgoingView, ErrorView>,
)
    ensures
        send_message_ran(before, after, Some(Ok(params)), outcome) ==> recipient_ran(
            before,
            after,
            params.recipient@,
            match outcome {
                Ok(outgoing) => Ok(outgoing.recipient),
                Err(e) => Err(e),
            },
        ) && (outcome matches Ok(outgoing) ==> outgoing.message == params.message@),
        send_message_ran(before, after, Some(Ok(params)), outcome) && has_uuid_form(
            params.recipient@,
        ) ==> after == before && outcome == Ok::<OutgoingView, ErrorView>(
            OutgoingView {
                recipient: RecipientView::Contact(params.recipient@),
                message: params.message@,
            },
        ),
        send_message_ran(before, after, Some(Err(reason)), outcome) ==> after == before && (
        outcome matches Err(e) && e.code == -32602 && e.message == "Invalid params: "@ + reason@),
        send_message_ran(before, after, None, outcome) ==> after == before && (outcome matches Err(
            e,
        ) && e.code == -32602 && e.message == "Missing params"@),
{
    if send_message_ran(before, after, Some(Ok(params)), outcome) {
        let found = choose|recipient: Result<RecipientView, ErrorView>| #[trigger]
            recipient_ran(before, after, params.recipient@, recipient) && outcome == (
            match recipient {
                Ok(recipient) => Ok::<OutgoingView, ErrorView>(
                    OutgoingView { recipient, message: params.message@ },
                ),
                Err(e) => Err::<OutgoingView, ErrorView>(e),
            });
        a_recipient_is_a_contact_or_a_group(before, after, params.recipient@, found);
    }
}

/// Whether an exchange asks for the messages of a contact as the parameters say, and the
/// outcome tells the rows that it brought, from the last to the first.
pub open spec fn tells_messages_of(
    exchange: Exchange,
    uuid: Seq<char>,
    params: GetMessagesParams,
    outcome: Result<JsonView, ErrorView>,
) -> bool {
    let limit = if params.limit is Some {
        params.limit->0
    } else {
        50
    };
    &&& exchange.asked.texts =~= seq![Some(uuid)]
    &&& match params.before {
        Some(time) => exchange.asked.sql == SELECT_MESSAGES_BEFORE@ && exchange.asked.numbers
            =~= seq![time, limit],
        None => exchange.asked.sql == SELECT_MESSAGES@ && exchange.asked.numbers =~= seq![limit],
    }
    &&& exchange.answer matches Answer::Messages(rows) ==> {
        &&& outcome matches Ok(JsonView::Array(items)) && items.len() == rows.len() && forall|
            i: int,
        |
            0 <= i < items.len() ==> #[trigger] items[i] == message_json(rows[rows.len() - 1 - i])
        &&& forall|i: int, j: int|
            0 <= i <= j < rows.len() ==> (#[trigger] rows[j]).timestamp <= (
            #[trigger] rows[i]).timestamp
        &&& limit >= 0 ==> rows.len() <= limit
        &&& params.before matches Some(time) ==> forall|i: int|
            0 <= i < rows.len() ==> (#[trigger] rows[i]).timestamp < time
    }
    &&& exchange.answer matches Answer::Failed(cause) ==> (outcome matches Err(e) && e.code
        == -32000 && e.message == "Failed to get messages: "@ + error_message(cause))
}

/// The messages of a contact are asked for with the limit and the time of the parameters and
/// told from the last row to the first. A contact that is named by its UUID is not searched
/// for; of any other the UUID is the one that was found, and where none was, the error names
/// the contact or the reason.
pub proof fn messages_are_read_as_asked(
    before: Seq<Exchange>,
    after: Seq<Exchange>,
    params: GetMessagesParams,
    outcome: Result<JsonView, ErrorView>,
)
    requires
        rpc_get_messages_ran(before, after, Some(Ok(params)), outcome),
    ensures
        after.len() > before.len(),
        after.take(before.len() as int) =~= before,
        has_uuid_form(params.contact@) ==> after.len() == before.len() + 1 && tells_messages_of(
            after.last(),
            params.contact@,
            params,
            outcome,
        ),
        !has_uuid_form(params.contact@) ==> {
            ||| {
                &&& after.len() >= before.len() + 2
                &&& after[after.len() - 2].asked.texts =~= seq![Some(params.contact@)]
                &&& after[after.len() - 2].answer matches Answer::Text(uuid) && tells_messages_of(
                    after.last(),
                    uuid,
                    params,
                    outcome,
                )
            }
            ||| {
                &&& after.last().asked.texts =~= seq![Some(params.contact@)]
                &&& after.last().asked.sql == SELECT_BY_PHONE@ || after.last().asked.sql
                    == SELECT_BY_NAME@
                &&& !(after.last().answer is Text)
                &&& outcome matches Err(e) && e.code == -32000 && (after.last().answer is NoText
                    ==> e.message == "Could not resolve contact: "@ + params.contact@) && (
                after.last().answer matches Answer::Failed(cause) ==> e.message
                    == "Error resolving contact: "@ + error_message(cause))
            }
        },
{
    let contact = params.contact@;
    let limit: i64 = if params.limit is Some {
        params.limit->0
    } else {
        50
    };
    let (middle, found) = choose|middle: Seq<Exchange>, found: LookupView| #[trigger]
        resolve_ran(before, middle, contact, found) && match contact_outcome(contact, found) {
            Ok(uuid) => {
                &&& asked_once(
                    middle,
                    after,
                    history_statement(uuid, params.before, limit),
                )
                &&& outcome == messages_outcome(messages_of(after.last().answer))
                &&& messages_of(after.last().answer) matches Ok(messages) ==> history(
                    messages,
                    params.before,
                    limit,
                )
            },
            Err(e) => after == middle && outcome == Err::<JsonView, ErrorView>(e),
        };
    a_search_goes_by_phone_then_by_name(before, middle, contact, found);
    if let LookupView::Found(uuid) = found {
        assert(after.take(before.len() as int) =~= middle.take(before.len() as int));
        if !has_uuid_form(contact) {
            assert(after[after.len() - 2] == middle.last());
        }
        if let Answer::Messages(rows) = after.last().answer {
            let messages = messages_of(after.last().answer)->Ok_0;
            assert forall|i: int| 0 <= i < rows.len() implies #[trigger] rows[i]
                == messages[rows.len() - 1 - i] by {}
        }
        assert(tells_messages_of(after.last(), uuid, params, outcome));
    }
}

/// Parameters that are missing or that do not fit read no messages, and the error says so.
pub proof fn no_messages_are_read_without_parameters(
    before: Seq<Exchange>,
    after: Seq<Exchange>,
    reason: String,
    outcome: Result<JsonView, ErrorView>,
)
    ensures
        rpc_get_messages_ran(before, after, Some(Err(reason)), outcome) ==> after == before && (
        outcome matches Err(e) && e.code == -32602 && e.message == "Invalid params: "@ + reason@),
        rpc_get_messages_ran(before, after, None, outcome) ==> after == before && (
        outcome matches Err(e) && e.code == -32602 && e.message == "Missing params"@),
{
}

/// The lists ask the store once, with the filter or the limit that was given, and tell each
/// row that it brought, in its order.
pub proof fn lists_tell_what_the_store_holds(
    before: Seq<Exchange>,
    after: Seq<Exchange>,
    filter: Option<String>,
    limit: i64,
    account: Seq<char>,
    outcome: Result<JsonView, ErrorView>,
)
    ensures
        performed(before, after, Action::ListContacts(filter), account, StepView::Done(outcome))
            ==> {
            &&& after.len() == before.len() + 1
            &&& after.take(before.len() as int) =~= before
            &&& after.last().asked == list_contacts_statement(filter.deep_view())
            &&& after.last().answer matches Answer::Contacts(rows) ==> (outcome matches Ok(
                JsonView::Array(items),
            ) && items.len() == rows.len() && forall|i: int|
                0 <= i < items.len() ==> #[trigger] items[i] == contact_json(rows[i]))
            &&& after.last().answer is Failed ==> outcome is Err
        },
        performed(before, after, Action::ListGroups(filter), account, StepView::Done(outcome))
            ==> {
            &&& after.len() == before.len() + 1
            &&& after.take(before.len() as int) =~= before
            &&& after.last().asked == list_groups_statement(filter.deep_view())
            &&& after.last().answer matches Answer::Groups(rows) ==> (outcome matches Ok(
                JsonView::Array(items),
            ) && items.len() == rows.len() && forall|i: int|
                0 <= i < items.len() ==> #[trigger] items[i] == group_json(rows[i]))
            &&& after.last().answer is Failed ==> outcome is Err
        },
        performed(before, after, Action::GetConversations(limit), account, StepView::Done(outcome))
            ==> {
            &&& after.len() == before.len() + 1
            &&& after.take(before.len() as int) =~= before
            &&& after.last().asked.sql == SELECT_CONVERSATIONS@
            &&& after.last().asked.numbers =~= seq![limit]
            &&& after.last().answer matches Answer::Conversations(rows) ==> (outcome matches Ok(
                JsonView::Array(items),
            ) && items.len() == rows.len() && forall|i: int|
                0 <= i < items.len() ==> #[trigger] items[i] == conversation_json(rows[i]))
            &&& after.last().answer is Failed ==> outcome is Err
        },
        performed(before, after, Action::GetStatus, account, StepView::Done(outcome)) ==> {
            &&& after.len() == before.len() + 1
            &&& after.take(before.len() as int) =~= before
            &&& after.last().asked.sql == SELECT_CONTACTS@
            &&& after.last().asked.texts.len() == 0
            &&& after.last().answer matches Answer::Contacts(rows) ==> outcome == Ok::<
                JsonView,
                ErrorView,
            >(status_json(account, rows.len()))
            &&& after.last().answer matches Answer::Failed(cause) ==> (outcome matches Err(e)
                && e.code == -32000 && e.message == error_message(cause))
        },
{
}

/// A message goes to be sent with its own text and the recipient that was found, and a sync
/// goes to be made without a question to the store.
pub proof fn what_needs_signal_is_handed_on(
    before: Seq<Exchange>,
    after: Seq<Exchange>,
    params: SendMessageParams,
    account: Seq<char>,
    step: StepView,
)
    ensures
        performed(before, after, Action::SendMessage(Some(Ok(params))), account, step) ==> {
            ||| step matches StepView::Send(outgoing) && outgoing.message == params.message@
                && recipient_ran(before, after, params.recipient@, Ok(outgoing.recipient))
            ||| step matches StepView::Done(Err(e)) && recipient_ran(
                before,
                after,
                params.recipient@,
                Err(e),
            )
        },
        performed(before, after, Action::SyncContacts, account, step) ==> after == before && step
            is Sync,
{
    if performed(before, after, Action::SendMessage(Some(Ok(params))), account, step) {
        let ready = choose|ready: Result<OutgoingView, ErrorView>| #[trigger]
            send_message_ran(before, after, Some(Ok(params)), ready) && step == (match ready {
                Ok(outgoing) => StepView::Send(outgoing),
                Err(e) => StepView::Done(Err::<JsonView, ErrorView>(e)),
            });
        let reason = params.message;
        a_message_is_made_ready_as_it_is(before, after, params, reason, ready);
    }
}

/// What each statement says to the database.
pub proof fn statements_say_this()
    ensures
        SCHEMA@ == "
    CREATE TABLE IF NOT EXISTS contacts (
        uuid TEXT PRIMARY KEY,
        phone TEXT,
        name TEXT,
        updated_at INTEGER
    );

    CREATE TABLE IF NOT EXISTS messages (
        id INTEGER PRIMARY KEY,
        contact_uuid TEXT NOT NULL,
        direction TEXT NOT NULL,
        body TEXT,
        timestamp INTEGER NOT NULL,
        read INTEGER DEFAULT 0,
        FOREIGN KEY (contact_uuid) REFERENCES contacts(uuid)
    );

    CREATE TABLE IF NOT EXISTS groups (
        id TEXT PRIMARY KEY,
        name TEXT,
        members_count INTEGER NOT NULL,
        updated_at INTEGER
    );

    CREATE INDEX IF NOT EXISTS idx_messages_contact
        ON messages(contact_uuid, timestamp);
    CREATE INDEX IF NOT EXISTS idx_messages_timestamp
        ON messages(timestamp);
    CREATE INDEX IF NOT EXISTS idx_contacts_phone
        ON contacts(phone);
    CREATE INDEX IF NOT EXISTS idx_contacts_name
        ON contacts(name);
    "@,
        UPSERT_CONTACT@ == "INSERT INTO contacts (uuid, phone, name, updated_at)
    VALUES (?1, ?2, ?3, strftime('%s', 'now'))
    ON CONFLICT(uuid) DO UPDATE SET
        phone = COALESCE(?2, phone),
        name = COALESCE(?3, name),
        updated_at = strftime('%s', 'now')"@,
        UPSERT_GROUP@ == "INSERT INTO groups (id, name, members_count, updated_at)
    VALUES (?1, ?2, ?3, strftime('%s', 'now'))
    ON CONFLICT(id) DO UPDATE SET
        name = COALESCE(?2, name),
        members_count = ?3,
        updated_at = strftime('%s', 'now')"@,
        INSERT_MESSAGE@ == "INSERT INTO messages
        (contact_uuid, direction, body, timestamp)
    VALUES (?1, ?2, ?3, ?4)"@,
        SELECT_CONTACTS@ == "SELECT uuid, phone, name FROM contacts ORDER BY name"@,
        SELECT_MATCHING_CONTACTS@ == "SELECT uuid, phone, name FROM contacts
    WHERE name LIKE ?1 OR phone LIKE ?1
    ORDER BY name"@,
        SELECT_GROUPS@ == "SELECT id, name, members_count FROM groups ORDER BY name"@,
        SELECT_MATCHING_GROUPS@ == "SELECT id, name, members_count FROM groups
    WHERE name LIKE ?1
    ORDER BY name"@,
        SELECT_MESSAGES@ == "SELECT id, contact_uuid, direction, body, timestamp
    FROM messages
    WHERE contact_uuid = ?1
    ORDER BY timestamp DESC
    LIMIT ?2"@,
        SELECT_MESSAGES_BEFORE@ == "SELECT
        id, contact_uuid, direction, body, timestamp
    FROM messages
    WHERE contact_uuid = ?1 AND timestamp < ?2
    ORDER BY timestamp DESC
    LIMIT ?3"@,
        SELECT_CONVERSATIONS@ == "SELECT c.uuid, c.phone, c.name, m.body, m.timestamp,
        (SELECT COUNT(*) FROM messages m2
         WHERE m2.contact_uuid = c.uuid AND m2.direction = 'in' AND m2.read = 0)
    FROM contacts c
    JOIN messages m ON m.contact_uuid = c.uuid
    WHERE m.timestamp = (
        SELECT MAX(timestamp) FROM messages WHERE contact_uuid = c.uuid
    )
    ORDER BY m.timestamp DESC
    LIMIT ?1"@,
        SELECT_BY_PHONE@ == "SELECT uuid FROM contacts WHERE phone = ?1"@,
        SELECT_BY_NAME@ == "SELECT uuid FROM contacts WHERE LOWER(name) = LOWER(?1)"@,
        SELECT_GROUP@ == "SELECT id FROM groups
    WHERE id = ?1 OR LOWER(name) = LOWER(?1)"@,
{
}

/// What the store hands out says what it holds: rows each in its place, a text that was
/// found, or the message of the error.
pub proof fn results_say_what_they_hold(
    contacts: Vec<Contact>,
    messages: Vec<Message>,
    text: String,
    error: StorageError,
)
    ensures
        rows_view(Ok::<Vec<Contact>, StorageError>(contacts)) matches Ok(rows) && rows.len()
            == contacts@.len() && forall|i: int|
            0 <= i < rows.len() ==> #[trigger] rows[i] == contacts@[i]@,
        rows_view(Ok::<Vec<Message>, StorageError>(messages)) matches Ok(rows) && rows.len()
            == messages@.len() && forall|i: int|
            0 <= i < rows.len() ==> #[trigger] rows[i] == messages@[i]@,
        rows_view(Err::<Vec<Contact>, StorageError>(error)) matches Err(reason) && reason
            == error.message@,
        search_view(Ok(Some(text))) == LookupView::Found(text@),
        search_view(Ok(None)) == LookupView::NotFound,
        search_view(Err(error)) == LookupView::Failed(error.message@),
        done_view(Ok(())) is Ok,
        done_view(Err(error)) == Err::<(), Seq<char>>(error.message@),
{
}

/// What opens the store is that its tables are made, and a failure of that is kept with its
/// cause.
pub proof fn the_tables_are_made_first(cause: rusqlite::Error)
    ensures
        schema_made().asked.sql == SCHEMA@,
        schema_made().asked.texts.len() == 0,
        schema_made().asked.numbers.len() == 0,
        schema_made().answer is Done,
        schema_refused(cause).asked == schema_made().asked,
        schema_refused(cause).answer == Answer::Failed(cause),
{
}

} // verus!
