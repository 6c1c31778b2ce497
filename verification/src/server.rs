//! What the server does besides answering: the handshake, storing what was received,
//! and staying connected.

use vstd::arithmetic::power2::{lemma2_to64, lemma_pow2_unfold, pow2};
use vstd::prelude::*;

use crate::rpc::{
    failure, success, JsonRpcRequest, JsonRpcResponse, RequestView, ResponseView, METHOD_NOT_FOUND,
};
use crate::signal::{EventView, SignalEvent};
use crate::storage::{
    asked_once, done_of, done_view, insert_message_statement, same_file, upsert_contact_statement,
    Answer, Contact, ContactView, Exchange, Message, MessageView, Storage, StorageError,
    INSERT_MESSAGE,
};
use crate::text::{join2, same};
use crate::tools::{introduction, rpc_initialize};

verus! {

/// What is complained of where the requests end before the handshake does.
pub const HANDSHAKE_CUT_SHORT: &'static str = "EOF before MCP handshake completed";

/// How far the handshake came. It is complete once the server was asked to introduce
/// itself and was told that it did.
#[derive(Debug, Clone, Copy)]
pub struct Handshake {
    pub initialized: bool,
    pub notified: bool,
}

/// Whether a handshake is complete.
pub open spec fn handshake_complete(handshake: Handshake) -> bool {
    handshake.initialized && handshake.notified
}

/// How far the handshake is after one more line, which holds a request or not.
pub open spec fn handshake_step(handshake: Handshake, line: Option<RequestView>) -> Handshake {
    match line {
        Some(request) => if request.method == "initialize"@ {
            Handshake { initialized: true, ..handshake }
        } else if request.method == "notifications/initialized"@ {
            Handshake { notified: true, ..handshake }
        } else {
            handshake
        },
        None => handshake,
    }
}

/// What a line is answered during the handshake.
pub open spec fn handshake_answer(line: Option<RequestView>) -> Option<ResponseView> {
    match line {
        Some(request) => if request.method == "initialize"@ {
            Some(success(request.id, introduction()))
        } else if request.method == "notifications/initialized"@ {
            None
        } else {
            Some(
                failure(
                    request.id,
                    METHOD_NOT_FOUND,
                    "Server initializing, method not available yet: "@ + request.method,
                ),
            )
        },
        None => None,
    }
}

/// The request that a line holds.
pub open spec fn request_of(line: Option<JsonRpcRequest>) -> Option<RequestView> {
    match line {
        Some(request) => Some(request@),
        None => None,
    }
}

impl Handshake {
    /// The handshake before the first line.
    pub fn new() -> (r: Handshake)
        ensures
            r == (Handshake { initialized: false, notified: false }),
    {
        Handshake { initialized: false, notified: false }
    }

    /// Whether the handshake is complete.
    pub fn is_complete(&self) -> (r: bool)
        ensures
            r == handshake_complete(*self),
    {
        self.initialized && self.notified
    }

    /// Takes a line, and gives the answer to it, if it has one. A line that holds no
    /// request is passed over.
    pub fn receive(&mut self, line: Option<JsonRpcRequest>) -> (r: Option<JsonRpcResponse>)
        ensures
            *final(self) == handshake_step(*old(self), request_of(line)),
            match r {
                Some(response) => handshake_answer(request_of(line)) == Some(response@),
                None => handshake_answer(request_of(line)) is None,
            },
    {
        let request = match line {
            Some(request) => request,
            None => return None,
        };
        if same(request.method.as_str(), "initialize") {
            self.initialized = true;
            Some(JsonRpcResponse::success(request.id, rpc_initialize()))
        } else if same(request.method.as_str(), "notifications/initialized") {
            self.notified = true;
            None
        } else {
            Some(
                JsonRpcResponse::error(
                    request.id,
                    METHOD_NOT_FOUND,
                    join2(
                        "Server initializing, method not available yet: ",
                        request.method.as_str(),
                    ),
                ),
            )
        }
    }
}

/// How far the handshake is after the given lines.
pub open spec fn handshake_after(lines: Seq<Option<RequestView>>) -> Handshake
    decreases lines.len(),
{
    if lines.len() == 0 {
        Handshake { initialized: false, notified: false }
    } else {
        handshake_step(handshake_after(lines.drop_last()), lines.last())
    }
}

/// Whether a line asks for the given method.
pub open spec fn line_asks_for(line: Option<RequestView>, method: Seq<char>) -> bool {
    line matches Some(request) && request.method == method
}

/// Whether one of the lines asks for the given method.
pub open spec fn asks_for(lines: Seq<Option<RequestView>>, method: Seq<char>) -> bool {
    exists|i: int| 0 <= i < lines.len() && #[trigger] line_asks_for(lines[i], method)
}

/// The handshake is complete once both of its requests came, in whichever order and with
/// whatever between them.
pub proof fn handshake_needs_both_requests(lines: Seq<Option<RequestView>>)
    ensures
        handshake_complete(handshake_after(lines)) <==> asks_for(lines, "initialize"@) && asks_for(
            lines,
            "notifications/initialized"@,
        ),
{
    reveal_strlit("initialize");
    reveal_strlit("notifications/initialized");
    assert("initialize"@.len() != "notifications/initialized"@.len());
    lemma_handshake(lines);
}

/// Each flag tells whether its request came.
proof fn lemma_handshake(lines: Seq<Option<RequestView>>)
    requires
        "initialize"@ != "notifications/initialized"@,
    ensures
        handshake_after(lines).initialized == asks_for(lines, "initialize"@),
        handshake_after(lines).notified == asks_for(lines, "notifications/initialized"@),
    decreases lines.len(),
{
    if lines.len() > 0 {
        let earlier = lines.drop_last();
        lemma_handshake(earlier);
        assert forall|method: Seq<char>| #[trigger]
            asks_for(lines, method) == (asks_for(earlier, method) || line_asks_for(
                lines.last(),
                method,
            )) by {
            if asks_for(earlier, method) {
                let i = choose|i: int|
                    0 <= i < earlier.len() && #[trigger] line_asks_for(earlier[i], method);
                assert(line_asks_for(lines[i], method));
            }
            if line_asks_for(lines.last(), method) {
                assert(line_asks_for(lines[lines.len() - 1], method));
            }
            if asks_for(lines, method) && !line_asks_for(lines.last(), method) {
                let i = choose|i: int|
                    0 <= i < lines.len() && #[trigger] line_asks_for(lines[i], method);
                assert(line_asks_for(earlier[i], method));
            }
        }
    }
}

/// The message that is stored once it was received.
pub open spec fn received_message(
    sender_uuid: Seq<char>,
    body: Seq<char>,
    timestamp: u64,
) -> MessageView {
    MessageView {
        id: 0,
        contact_uuid: sender_uuid,
        direction: "in"@,
        body,
        timestamp: timestamp as i64,
    }
}

/// A contact of which only the UUID is known.
pub open spec fn unnamed_contact(uuid: Seq<char>) -> ContactView {
    ContactView { uuid, phone: None, name: None }
}

/// Whether an event was stored between two states of the store, with the given outcome.
/// The sender of a message is added to the contacts first, and the message only after
/// that was done.
pub open spec fn event_stored(
    before: Seq<Exchange>,
    after: Seq<Exchange>,
    event: EventView,
    outcome: Result<(), Seq<char>>,
) -> bool {
    match event {
        EventView::Message { sender_uuid, body, timestamp } => exists|middle: Seq<Exchange>| {
            &&& #[trigger] asked_once(
                before,
                middle,
                upsert_contact_statement(unnamed_contact(sender_uuid)),
            )
            &&& if done_of(middle.last().answer) is Ok {
                &&& asked_once(
                    middle,
                    after,
                    insert_message_statement(received_message(sender_uuid, body, timestamp)),
                )
                &&& outcome == done_of(after.last().answer)
            } else {
                &&& after == middle
                &&& outcome == done_of(after.last().answer)
            }
        },
        EventView::Contact { contact } => {
            &&& asked_once(before, after, upsert_contact_statement(contact))
            &&& outcome == done_of(after.last().answer)
        },
        EventView::QueueEmpty => after == before && outcome == Ok::<(), Seq<char>>(()),
        EventView::ContactsSync => after == before && outcome == Ok::<(), Seq<char>>(()),
    }
}

/// Stores an event.
pub fn handle_signal_event(event: SignalEvent, storage: &mut Storage) -> (r: Result<
    (),
    StorageError,
>)
    ensures
        same_file(*old(storage), *final(storage)),
        event_stored(
            old(storage).exchanges(),
            final(storage).exchanges(),
            event@,
            done_view(r),
        ),
        event matches SignalEvent::Message { sender_uuid, body, timestamp } ==> r is Ok
            ==> timestamp <= i64::MAX ==> {
            let asked = final(storage).exchanges().last().asked;
            &&& asked.sql == INSERT_MESSAGE@
            &&& asked.texts =~= seq![Some(sender_uuid@), Some("in"@), Some(body@)]
            &&& asked.numbers.len() == 1
            &&& asked.numbers[0] as int == timestamp as int
        },
{
    match event {
        SignalEvent::Message { sender_uuid, body, timestamp } => {
            let contact = Contact { uuid: sender_uuid.clone(), phone: None, name: None };
            let added = storage.upsert_contact(&contact);
            assert(contact@ == unnamed_contact(sender_uuid@));
            assert(asked_once(
                old(storage).exchanges(),
                storage.exchanges(),
                upsert_contact_statement(unnamed_contact(sender_uuid@)),
            ));
            match added {
                Ok(()) => {},
                Err(e) => return Err(e),
            }
            let message = Message {
                id: 0,
                contact_uuid: sender_uuid,
                direction: "in".to_owned(),
                body,
                timestamp: timestamp as i64,
            };
            match storage.insert_message(&message) {
                Ok(_) => Ok(()),
                Err(e) => Err(e),
            }
        },
        SignalEvent::Contact { uuid, phone, name } => {
            let contact = Contact { uuid, phone, name };
            storage.upsert_contact(&contact)
        },
        SignalEvent::QueueEmpty => Ok(()),
        SignalEvent::ContactsSync => Ok(()),
    }
}

/// A message of someone who is not among the contacts can be stored: nothing but the
/// message itself is asked of the database after its sender was added.
pub proof fn sender_is_stored_before_the_message(
    before: Seq<Exchange>,
    after: Seq<Exchange>,
    sender_uuid: Seq<char>,
    body: Seq<char>,
    timestamp: u64,
)
    requires
        event_stored(
            before,
            after,
            EventView::Message { sender_uuid, body, timestamp },
            Ok::<(), Seq<char>>(()),
        ),
    ensures
        after == before.push(
            Exchange {
                asked: upsert_contact_statement(unnamed_contact(sender_uuid)),
                answer: Answer::Done,
            },
        ).push(
            Exchange {
                asked: insert_message_statement(received_message(sender_uuid, body, timestamp)),
                answer: Answer::Done,
            },
        ),
{
}

/// The longest wait before connecting anew.
pub const LONGEST_BACKOFF_SECS: u64 = 60;

/// Twice a wait, but not more than the longest.
pub open spec fn longer(backoff_secs: u64) -> u64 {
    if 2 * backoff_secs < LONGEST_BACKOFF_SECS {
        (2 * backoff_secs) as u64
    } else {
        LONGEST_BACKOFF_SECS
    }
}

/// What happened while receiving messages.
#[derive(Debug, Clone, Copy)]
pub enum ReceiveEvent {
    /// The connection was made.
    Connected,
    /// The connection could not be made.
    ConnectFailed,
    /// An event was received and handed on.
    HandedOn,
    /// An event was received and nobody takes it.
    NobodyListens,
    /// The connection ended.
    StreamEnded,
    /// The wait is over.
    Waited,
}

/// What to do next while receiving messages.
#[derive(Debug, Clone, Copy)]
pub enum ReceiveAction {
    Connect,
    Receive,
    Wait { secs: u64 },
    Stop,
}

/// A receiver of messages, which connects anew when it has to, after a while.
pub struct Receiver {
    backoff_secs: u64,
}

impl Receiver {
    /// How long the next wait is.
    pub closed spec fn backoff(self) -> u64 {
        self.backoff_secs
    }

    /// A receiver that is about to connect.
    pub fn new() -> (r: Receiver)
        ensures
            r.backoff() == 1,
    {
        Receiver { backoff_secs: 1 }
    }

    /// How long the next wait is.
    pub fn backoff_secs(&self) -> (r: u64)
        ensures
            r == self.backoff(),
    {
        self.backoff_secs
    }

    /// Tells what to do after something happened.
    pub fn next(&mut self, event: ReceiveEvent) -> (r: ReceiveAction)
        ensures
            final(self).backoff() == backoff_after(old(self).backoff(), event),
            r == receive_action(old(self).backoff(), event),
    {
        match event {
            ReceiveEvent::Connected => {
                self.backoff_secs = 1;
                ReceiveAction::Receive
            },
            ReceiveEvent::HandedOn => ReceiveAction::Receive,
            ReceiveEvent::NobodyListens => ReceiveAction::Stop,
            ReceiveEvent::Waited => ReceiveAction::Connect,
            ReceiveEvent::ConnectFailed | ReceiveEvent::StreamEnded => {
                let secs: u64 = self.backoff_secs;
                self.backoff_secs = if secs < LONGEST_BACKOFF_SECS / 2 {
                    2 * secs
                } else {
                    LONGEST_BACKOFF_SECS
                };
                ReceiveAction::Wait { secs }
            },
        }
    }
}

/// How long the next wait is after something happened.
pub open spec fn backoff_after(backoff_secs: u64, event: ReceiveEvent) -> u64 {
    match event {
        ReceiveEvent::Connected => 1,
        ReceiveEvent::ConnectFailed => longer(backoff_secs),
        ReceiveEvent::StreamEnded => longer(backoff_secs),
        _ => backoff_secs,
    }
}

/// What to do after something happened.
pub open spec fn receive_action(backoff_secs: u64, event: ReceiveEvent) -> ReceiveAction {
    match event {
        ReceiveEvent::Connected => ReceiveAction::Receive,
        ReceiveEvent::HandedOn => ReceiveAction::Receive,
        ReceiveEvent::NobodyListens => ReceiveAction::Stop,
        ReceiveEvent::Waited => ReceiveAction::Connect,
        ReceiveEvent::ConnectFailed => ReceiveAction::Wait { secs: backoff_secs },
        ReceiveEvent::StreamEnded => ReceiveAction::Wait { secs: backoff_secs },
    }
}

/// How long the next wait is after the given events.
pub open spec fn backoff_over(events: Seq<ReceiveEvent>) -> u64
    decreases events.len(),
{
    if events.len() == 0 {
        1
    } else {
        backoff_after(backoff_over(events.drop_last()), events.last())
    }
}

/// Whatever happens, a wait lasts at least a second and at most a minute.
pub proof fn waits_are_bounded(events: Seq<ReceiveEvent>)
    ensures
        1 <= backoff_over(events) <= LONGEST_BACKOFF_SECS,
    decreases events.len(),
{
    if events.len() > 0 {
        waits_are_bounded(events.drop_last());
    }
}

/// How often the connection failed or ended since it was last made, whatever else happened
/// in between.
pub open spec fn failures_since(events: Seq<ReceiveEvent>) -> nat
    decreases events.len(),
{
    if events.len() == 0 {
        0
    } else {
        let earlier = failures_since(events.drop_last());
        match events.last() {
            ReceiveEvent::Connected => 0,
            ReceiveEvent::ConnectFailed => earlier + 1,
            ReceiveEvent::StreamEnded => earlier + 1,
            _ => earlier,
        }
    }
}

/// The wait doubles each time that the connection fails or ends, up to a minute, and a
/// connection that was made starts over with a second.
pub proof fn waits_double(events: Seq<ReceiveEvent>)
    ensures
        backoff_over(events) == if pow2(failures_since(events)) < LONGEST_BACKOFF_SECS {
            pow2(failures_since(events)) as u64
        } else {
            LONGEST_BACKOFF_SECS
        },
    decreases events.len(),
{
    lemma2_to64();
    if events.len() > 0 {
        waits_double(events.drop_last());
        if failures_since(events) > 0 {
            lemma_pow2_unfold(failures_since(events));
        }
    }
}

/// How long what clients asked for may take after the server was told to end.
pub const SHUTDOWN_TIMEOUT_SECS: u64 = 5;

} // verus!
