//! What is received from Signal and what is sent to it.

use vstd::prelude::*;

use crate::base64::{base64_decode, base64_encode, decode_inverts_encode, decoded, encoded};
use crate::storage::{
    asked_once, same_file, upsert_contact_statement, upsert_group_statement, Contact, ContactView,
    Exchange, Group, GroupView, Statement, Storage,
};
use crate::text::{decimal, decimal_text, join2, same};

verus! {

/// An event that the receiver of Signal messages reports.
#[derive(Debug, Clone)]
pub enum SignalEvent {
    /// A text message was received.
    Message {
        /// UUID of the sender.
        sender_uuid: String,
        /// Message body text.
        body: String,
        /// Unix timestamp in milliseconds.
        timestamp: u64,
    },
    /// A contact was synchronized.
    Contact {
        /// UUID of the contact.
        uuid: String,
        /// Phone number if available.
        phone: Option<String>,
        /// Display name if available.
        name: Option<String>,
    },
    /// The message queue is empty (initial sync complete).
    QueueEmpty,
    /// Contacts have been synchronized.
    ContactsSync,
}

/// What an event says.
pub enum EventView {
    Message { sender_uuid: Seq<char>, body: Seq<char>, timestamp: u64 },
    Contact { contact: ContactView },
    QueueEmpty,
    ContactsSync,
}

impl View for SignalEvent {
    type V = EventView;

    open spec fn view(&self) -> EventView {
        match self {
            SignalEvent::Message { sender_uuid, body, timestamp } => EventView::Message {
                sender_uuid: sender_uuid@,
                body: body@,
                timestamp: *timestamp,
            },
            SignalEvent::Contact { uuid, phone, name } => EventView::Contact {
                contact: ContactView {
                    uuid: uuid@,
                    phone: phone.deep_view(),
                    name: name.deep_view(),
                },
            },
            SignalEvent::QueueEmpty => EventView::QueueEmpty,
            SignalEvent::ContactsSync => EventView::ContactsSync,
        }
    }
}

impl DeepView for SignalEvent {
    type V = EventView;

    open spec fn deep_view(&self) -> EventView {
        self@
    }
}

/// A message as Signal carries it, as far as its text goes.
#[derive(Debug)]
pub struct DataMessage {
    pub body: Option<String>,
}

/// A message that this account sent from another device.
#[derive(Debug)]
pub struct Sent {
    pub destination_service_id: Option<String>,
    pub message: Option<DataMessage>,
}

/// What a received item holds.
#[derive(Debug)]
pub enum ContentBody {
    DataMessage(DataMessage),
    /// News from another device of this account: the message that it sent, if any.
    SynchronizeMessage(Option<Sent>),
    /// Anything else: calls, receipts, typing.
    Other,
}

/// A received item.
#[derive(Debug)]
pub struct Content {
    pub sender_uuid: String,
    /// Unix timestamp in milliseconds.
    pub timestamp: u64,
    pub body: ContentBody,
}

/// What comes from the message stream.
#[derive(Debug)]
pub enum Received {
    QueueEmpty,
    Contacts,
    Content(Content),
}

/// The text of a message that this account sent to itself, a "Note to Self".
pub open spec fn note_to_self(sent: Option<Sent>, sender_uuid: Seq<char>) -> Option<Seq<char>> {
    match sent {
        Some(
            Sent {
                destination_service_id: Some(destination),
                message: Some(DataMessage { body: Some(text) }),
            },
        ) => if destination@ == sender_uuid {
            Some(text@)
        } else {
            None
        },
        _ => None,
    }
}

/// The text that a received item brings, if it brings one. What other devices of this
/// account sent to others does not count.
pub open spec fn received_text(content: Content) -> Option<Seq<char>> {
    match content.body {
        ContentBody::DataMessage(DataMessage { body: Some(text) }) => Some(text@),
        ContentBody::SynchronizeMessage(sent) => note_to_self(sent, content.sender_uuid@),
        _ => None,
    }
}

/// The event that a received item is.
pub open spec fn event_of(content: Content) -> Option<EventView> {
    match received_text(content) {
        Some(body) => Some(
            EventView::Message {
                sender_uuid: content.sender_uuid@,
                body,
                timestamp: content.timestamp,
            },
        ),
        None => None,
    }
}

/// The event that a received item is, if it is a text message.
pub fn content_to_event(content: Content) -> (r: Option<SignalEvent>)
    ensures
        r.deep_view() == event_of(content),
{
    let Content { sender_uuid, timestamp, body } = content;
    match body {
        ContentBody::DataMessage(DataMessage { body: Some(text) }) => Some(
            SignalEvent::Message { sender_uuid, body: text, timestamp },
        ),
        ContentBody::SynchronizeMessage(
            Some(
                Sent {
                    destination_service_id: Some(destination),
                    message: Some(DataMessage { body: Some(text) }),
                },
            ),
        ) => if same(destination.as_str(), sender_uuid.as_str()) {
            Some(SignalEvent::Message { sender_uuid, body: text, timestamp })
        } else {
            None
        },
        _ => None,
    }
}

/// The event that comes of what the message stream gave, if any.
pub open spec fn received_event(received: Received) -> Option<EventView> {
    match received {
        Received::QueueEmpty => Some(EventView::QueueEmpty),
        Received::Contacts => Some(EventView::ContactsSync),
        Received::Content(content) => event_of(content),
    }
}

/// The event that comes of what the message stream gave, if any.
pub fn received_to_event(received: Received) -> (r: Option<SignalEvent>)
    ensures
        r.deep_view() == received_event(received),
{
    match received {
        Received::QueueEmpty => Some(SignalEvent::QueueEmpty),
        Received::Contacts => Some(SignalEvent::ContactsSync),
        Received::Content(content) => content_to_event(content),
    }
}

/// How long a message to a contact may take: clients are waiting.
pub const SEND_TIMEOUT_SECS: u64 = 15;

/// How long a message to a group may take: there may be many recipients.
pub const GROUP_SEND_TIMEOUT_SECS: u64 = 120;

/// How long the request for the contacts may take.
pub const CONTACTS_TIMEOUT_SECS: u64 = 5;

/// How long to wait for the contacts once they were asked for.
pub const CONTACTS_WAIT_SECS: u64 = 30;

/// How sending went.
#[derive(Debug)]
pub enum Delivery {
    Sent,
    Refused(String),
    /// The message was likely sent, but this was not confirmed in time.
    TimedOut,
}

/// What sending came to.
pub open spec fn delivered(
    delivery: Delivery,
    timestamp: u64,
    complaint: Seq<char>,
) -> Result<u64, Seq<char>> {
    match delivery {
        Delivery::Refused(reason) => Err(complaint + reason@),
        _ => Ok(timestamp),
    }
}

/// What a result of sending says.
pub open spec fn sent_view(r: Result<u64, String>) -> Result<u64, Seq<char>> {
    match r {
        Ok(timestamp) => Ok(timestamp),
        Err(message) => Err(message@),
    }
}

/// What sending a message to a contact comes to: the time that it carries, unless it
/// was refused.
pub fn message_sent(delivery: Delivery, timestamp: u64) -> (r: Result<u64, String>)
    ensures
        sent_view(r) == delivered(delivery, timestamp, "Failed to send message: "@),
{
    match delivery {
        Delivery::Refused(reason) => Err(join2("Failed to send message: ", reason.as_str())),
        _ => Ok(timestamp),
    }
}

/// What sending a message to a group comes to: the time that it carries, unless it was
/// refused.
pub fn group_message_sent(delivery: Delivery, timestamp: u64) -> (r: Result<u64, String>)
    ensures
        sent_view(r) == delivered(delivery, timestamp, "Failed to send group message: "@),
{
    match delivery {
        Delivery::Refused(reason) => Err(join2("Failed to send group message: ", reason.as_str())),
        _ => Ok(timestamp),
    }
}

/// Why a recipient that is no UUID cannot be sent a message.
pub fn invalid_uuid(recipient_uuid: &str) -> (r: String)
    ensures
        r@ == "Invalid UUID: "@ + recipient_uuid@,
{
    join2("Invalid UUID: ", recipient_uuid)
}

/// The master key that a group id stands for.
pub open spec fn master_key(group_id: Seq<char>) -> Result<Seq<u8>, Seq<char>> {
    match decoded(group_id) {
        None => Err("Invalid group ID (not valid base64): "@ + group_id),
        Some(key) => if key.len() == 32 {
            Ok(key)
        } else {
            Err("Invalid group master key length: expected 32 bytes, got "@ + decimal(key.len()))
        },
    }
}

/// The master key of a group: 32 bytes.
pub fn group_master_key(group_id: &str) -> (r: Result<Vec<u8>, String>)
    ensures
        match r {
            Ok(key) => master_key(group_id@) == Ok::<Seq<u8>, Seq<char>>(key@),
            Err(message) => master_key(group_id@) == Err::<Seq<u8>, Seq<char>>(message@),
        },
{
    match base64_decode(group_id) {
        Err(_) => Err(join2("Invalid group ID (not valid base64): ", group_id)),
        Ok(key) => {
            if key.len() != 32 {
                let length = decimal_text(key.len() as u64);
                Err(join2(
                    "Invalid group master key length: expected 32 bytes, got ",
                    length.as_str(),
                ))
            } else {
                Ok(key)
            }
        },
    }
}

/// The id under which a group is stored leads back to its master key.
pub proof fn group_id_leads_to_master_key(key: Seq<u8>)
    requires
        key.len() == 32,
    ensures
        master_key(encoded(key)) == Ok::<Seq<u8>, Seq<char>>(key),
{
    decode_inverts_encode(key);
}

/// A contact as the primary device knows it.
#[derive(Debug)]
pub struct SyncedContact {
    pub uuid: String,
    pub phone: Option<String>,
    /// Empty if there is none.
    pub name: String,
}

/// A group as the primary device knows it.
#[derive(Debug)]
pub struct SyncedGroup {
    pub master_key: Vec<u8>,
    /// Empty if there is none.
    pub title: String,
    pub members_count: usize,
}

/// A name, unless it is empty.
pub open spec fn nonempty(name: Seq<char>) -> Option<Seq<char>> {
    if name.len() == 0 {
        None
    } else {
        Some(name)
    }
}

/// The contact that is stored for one of the primary device.
pub open spec fn stored_contact(synced: SyncedContact) -> ContactView {
    ContactView {
        uuid: synced.uuid@,
        phone: synced.phone.deep_view(),
        name: nonempty(synced.name@),
    }
}

/// The group that is stored for one of the primary device.
pub open spec fn stored_group(synced: SyncedGroup) -> GroupView {
    GroupView {
        id: encoded(synced.master_key@),
        name: nonempty(synced.title@),
        members_count: synced.members_count,
    }
}

/// A name, unless it is empty.
fn name_if_any(name: String) -> (r: Option<String>)
    ensures
        r.deep_view() == nonempty(name@),
{
    if name.as_str().is_empty() {
        None
    } else {
        Some(name)
    }
}

/// The contact to store for one of the primary device.
pub fn contact_to_store(synced: SyncedContact) -> (r: Contact)
    ensures
        r@ == stored_contact(synced),
        r.uuid@ == synced.uuid@,
        r.phone.deep_view() == synced.phone.deep_view(),
        synced.name@.len() > 0 ==> r.name.deep_view() == Some(synced.name@),
        synced.name@.len() == 0 ==> r.name is None,
{
    Contact { uuid: synced.uuid, phone: synced.phone, name: name_if_any(synced.name) }
}

/// The group to store for one of the primary device.
pub fn group_to_store(synced: SyncedGroup) -> (r: Group)
    ensures
        r@ == stored_group(synced),
        synced.title@.len() > 0 ==> r.name.deep_view() == Some(synced.title@),
        synced.title@.len() == 0 ==> r.name is None,
        r.members_count == synced.members_count,
        decoded(r.id@) == Some(synced.master_key@),
{
    proof {
        decode_inverts_encode(synced.master_key@);
    }
    let id = base64_encode(synced.master_key.as_slice());
    Group { id, name: name_if_any(synced.title), members_count: synced.members_count }
}

/// The statements that store the contacts that could be read.
pub open spec fn contact_statements(entries: Seq<Result<SyncedContact, String>>) -> Seq<Statement>
    decreases entries.len(),
{
    if entries.len() == 0 {
        Seq::empty()
    } else {
        match entries.last() {
            Ok(synced) => contact_statements(entries.drop_last()).push(
                upsert_contact_statement(stored_contact(synced)),
            ),
            Err(_) => contact_statements(entries.drop_last()),
        }
    }
}

/// The statements that store the groups that could be read.
pub open spec fn group_statements(entries: Seq<Result<SyncedGroup, String>>) -> Seq<Statement>
    decreases entries.len(),
{
    if entries.len() == 0 {
        Seq::empty()
    } else {
        match entries.last() {
            Ok(synced) => group_statements(entries.drop_last()).push(
                upsert_group_statement(stored_group(synced)),
            ),
            Err(_) => group_statements(entries.drop_last()),
        }
    }
}

/// What was asked in some exchanges.
pub open spec fn asked(exchanges: Seq<Exchange>) -> Seq<Statement> {
    exchanges.map_values(|x: Exchange| x.asked)
}

/// In how many exchanges what was asked was done.
pub open spec fn done_count(exchanges: Seq<Exchange>) -> nat
    decreases exchanges.len(),
{
    if exchanges.len() == 0 {
        0
    } else {
        done_count(exchanges.drop_last()) + (if exchanges.last().answer is Done {
            1nat
        } else {
            0nat
        })
    }
}

/// Whether the given statements, and no others, were handed over between two states of
/// the store, and how many of them were done.
pub open spec fn stored(
    before: Seq<Exchange>,
    after: Seq<Exchange>,
    statements: Seq<Statement>,
    count: nat,
) -> bool {
    &&& before.len() <= after.len()
    &&& after.take(before.len() as int) == before
    &&& asked(after.skip(before.len() as int)) == statements
    &&& count == done_count(after.skip(before.len() as int))
}

/// One more statement after some.
proof fn lemma_stored_one_more(
    before: Seq<Exchange>,
    middle: Seq<Exchange>,
    after: Seq<Exchange>,
    statements: Seq<Statement>,
    count: nat,
    statement: Statement,
)
    requires
        stored(before, middle, statements, count),
        asked_once(middle, after, statement),
    ensures
        stored(
            before,
            after,
            statements.push(statement),
            count + (if after.last().answer is Done {
                1nat
            } else {
                0nat
            }),
        ),
{
    let n = before.len() as int;
    assert(after.take(n) == middle.take(n));
    assert(after.skip(n).drop_last() == middle.skip(n));
    assert(asked(after.skip(n)) == asked(middle.skip(n)).push(statement));
}

/// Nothing was handed over yet.
proof fn lemma_stored_nothing(before: Seq<Exchange>)
    ensures
        stored(before, before, Seq::empty(), 0),
{
    let n = before.len() as int;
    assert(before.take(n) == before);
    assert(asked(before.skip(n)) == Seq::<Statement>::empty());
}

/// Stores the contacts that could be read, and counts those that the store took.
pub fn store_contacts(
    storage: &mut Storage,
    entries: Vec<Result<SyncedContact, String>>,
) -> (count: usize)
    ensures
        same_file(*old(storage), *final(storage)),
        stored(
            old(storage).exchanges(),
            final(storage).exchanges(),
            contact_statements(entries@),
            count as nat,
        ),
{
    let ghost before = storage.exchanges();
    let ghost all = entries@;
    let mut count: usize = 0;
    let total: usize = entries.len();
    let mut done: usize = 0;
    proof {
        lemma_stored_nothing(before);
        assert(all.take(0) == Seq::<Result<SyncedContact, String>>::empty());
    }
    for entry in it: entries
        invariant
            it.seq() == all,
            same_file(*old(storage), *storage),
            all.len() == total,
            done == it.index(),
            count <= done,
            stored(
                before,
                storage.exchanges(),
                contact_statements(all.take(done as int)),
                count as nat,
            ),
    {
        let ghost middle = storage.exchanges();
        proof {
            assert(all.take(done + 1).drop_last() == all.take(done as int));
            assert(all.take(done + 1).last() == entry);
        }
        if let Ok(synced) = entry {
            let contact = contact_to_store(synced);
            let saved = storage.upsert_contact(&contact);
            proof {
                lemma_stored_one_more(
                    before,
                    middle,
                    storage.exchanges(),
                    contact_statements(all.take(done as int)),
                    count as nat,
                    upsert_contact_statement(contact@),
                );
            }
            if saved.is_ok() {
                count = count + 1;
            }
        }
        done = done + 1;
    }
    assert(all.take(all.len() as int) == all);
    count
}

/// Stores the groups that could be read, and counts those that the store took.
pub fn store_groups(
    storage: &mut Storage,
    entries: Vec<Result<SyncedGroup, String>>,
) -> (count: usize)
    ensures
        same_file(*old(storage), *final(storage)),
        stored(
            old(storage).exchanges(),
            final(storage).exchanges(),
            group_statements(entries@),
            count as nat,
        ),
{
    let ghost before = storage.exchanges();
    let ghost all = entries@;
    let mut count: usize = 0;
    let total: usize = entries.len();
    let mut done: usize = 0;
    proof {
        lemma_stored_nothing(before);
        assert(all.take(0) == Seq::<Result<SyncedGroup, String>>::empty());
    }
    for entry in it: entries
        invariant
            it.seq() == all,
            same_file(*old(storage), *storage),
            all.len() == total,
            done == it.index(),
            count <= done,
            stored(
                before,
                storage.exchanges(),
                group_statements(all.take(done as int)),
                count as nat,
            ),
    {
        let ghost middle = storage.exchanges();
        proof {
            assert(all.take(done + 1).drop_last() == all.take(done as int));
            assert(all.take(done + 1).last() == entry);
        }
        if let Ok(synced) = entry {
            let group = group_to_store(synced);
            let saved = storage.upsert_group(&group);
            proof {
                lemma_stored_one_more(
                    before,
                    middle,
                    storage.exchanges(),
                    group_statements(all.take(done as int)),
                    count as nat,
                    upsert_group_statement(group@),
                );
            }
            if saved.is_ok() {
                count = count + 1;
            }
        }
        done = done + 1;
    }
    assert(all.take(all.len() as int) == all);
    count
}

/// What happened while the contacts are being synchronized.
#[derive(Debug)]
pub enum SyncEvent {
    /// The primary device was asked for its contacts.
    Asked,
    /// It could not be asked, or not in time.
    NotAsked,
    /// Messages can be received.
    Receiving,
    /// Messages cannot be received, or no longer.
    NotReceiving,
    /// Something was received.
    Received(SignalEvent),
    /// What was received is stored.
    Stored,
    /// The time to wait is over.
    TimeOver,
}

/// What to do next while the contacts are being synchronized.
#[derive(Debug)]
pub enum SyncAction {
    /// Start to receive messages.
    StartReceiving,
    /// Wait for what is received next, as long as there is time.
    Wait,
    /// Store what was received.
    Store(SignalEvent),
    /// Read the contacts and groups that are known by now.
    Read,
}

/// What to do next, in words.
pub enum SyncView {
    StartReceiving,
    Wait,
    Store(EventView),
    Read,
}

impl View for SyncAction {
    type V = SyncView;

    open spec fn view(&self) -> SyncView {
        match *self {
            SyncAction::StartReceiving => SyncView::StartReceiving,
            SyncAction::Wait => SyncView::Wait,
            SyncAction::Store(event) => SyncView::Store(event@),
            SyncAction::Read => SyncView::Read,
        }
    }
}

/// What to do after something happened: once the primary device was asked, the contacts
/// are waited for until they arrived or the time is over. Where there is nothing to wait
/// for, what is known is read at once.
pub open spec fn sync_step(event: SyncEvent) -> SyncView {
    match event {
        SyncEvent::Asked => SyncView::StartReceiving,
        SyncEvent::NotAsked => SyncView::Read,
        SyncEvent::Receiving => SyncView::Wait,
        SyncEvent::NotReceiving => SyncView::Read,
        SyncEvent::Received(received) => if received@ == EventView::ContactsSync {
            SyncView::Read
        } else {
            SyncView::Store(received@)
        },
        SyncEvent::Stored => SyncView::Wait,
        SyncEvent::TimeOver => SyncView::Read,
    }
}

/// Tells what to do after something happened while the contacts are being synchronized.
pub fn sync_next(event: SyncEvent) -> (r: SyncAction)
    ensures
        r@ == sync_step(event),
{
    match event {
        SyncEvent::Asked => SyncAction::StartReceiving,
        SyncEvent::NotAsked => SyncAction::Read,
        SyncEvent::Receiving => SyncAction::Wait,
        SyncEvent::NotReceiving => SyncAction::Read,
        SyncEvent::Received(SignalEvent::ContactsSync) => SyncAction::Read,
        SyncEvent::Received(received) => SyncAction::Store(received),
        SyncEvent::Stored => SyncAction::Wait,
        SyncEvent::TimeOver => SyncAction::Read,
    }
}

/// The wait ends when the contacts arrived or the time is over, and what else is received
/// meanwhile is stored: nothing is lost.
pub proof fn nothing_is_lost_while_waiting(event: SyncEvent)
    ensures
        event matches SyncEvent::Received(received) ==> sync_step(event) == SyncView::Store(
            received@,
        ) || received@ == EventView::ContactsSync,
        event is TimeOver ==> sync_step(event) is Read,
        sync_step(event) is Read <==> (event is NotAsked || event is NotReceiving || event
            is TimeOver || (event matches SyncEvent::Received(received) && received@
            == EventView::ContactsSync)),
{
}

/// Stores the contacts of the primary device, once they were asked for. Those that could
/// not be read or stored do not count; where none could be asked for, nothing is stored.
pub fn sync_stored_contacts(
    storage: &mut Storage,
    entries: Result<Vec<Result<SyncedContact, String>>, String>,
) -> (r: Result<usize, String>)
    ensures
        same_file(*old(storage), *final(storage)),
        match entries {
            Ok(contacts) => r matches Ok(count) && stored(
                old(storage).exchanges(),
                final(storage).exchanges(),
                contact_statements(contacts@),
                count as nat,
            ),
            Err(reason) => r matches Err(message) && message@
                == "Failed to get contacts from store: "@ + reason@ && final(storage).exchanges()
                == old(storage).exchanges(),
        },
{
    match entries {
        Ok(contacts) => Ok(store_contacts(storage, contacts)),
        Err(reason) => Err(join2("Failed to get contacts from store: ", reason.as_str())),
    }
}

/// Stores the groups of the primary device, once they were asked for. Those that could
/// not be read or stored do not count; where none could be asked for, nothing is stored.
pub fn sync_stored_groups(
    storage: &mut Storage,
    entries: Result<Vec<Result<SyncedGroup, String>>, String>,
) -> (r: Result<usize, String>)
    ensures
        same_file(*old(storage), *final(storage)),
        match entries {
            Ok(groups) => r matches Ok(count) && stored(
                old(storage).exchanges(),
                final(storage).exchanges(),
                group_statements(groups@),
                count as nat,
            ),
            Err(reason) => r matches Err(message) && message@
                == "Failed to get groups from store: "@ + reason@ && final(storage).exchanges()
                == old(storage).exchanges(),
        },
{
    match entries {
        Ok(groups) => Ok(store_groups(storage, groups)),
        Err(reason) => Err(join2("Failed to get groups from store: ", reason.as_str())),
    }
}

} // verus!
