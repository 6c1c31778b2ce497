//! What the server waits for, and what it makes of what Signal tells it.

use vstd::prelude::*;

use crate::base64::decoded;
use crate::methods::{commands, ManagerCommand, Outgoing, ResolvedRecipient};
use crate::request_laws::{answers, complains};
use crate::rpc::JsonRpcRequest;
use crate::server::{
    backoff_after, backoff_over, handshake_answer, handshake_complete, handshake_step,
    receive_action, request_of, Handshake, ReceiveAction, ReceiveEvent, HANDSHAKE_CUT_SHORT,
};
use crate::signal::{
    delivered, master_key, received_event, sync_step, Content, ContentBody, DataMessage, Delivery,
    EventView, Received, SignalEvent, SyncEvent, SyncView,
};
use crate::storage::ContactView;
use crate::text::decimal;
use crate::tools::introduction;

verus! {

/// During the handshake the server introduces itself to who asks for it, a notification is
/// not answered, and any other method is refused by its name; a line that holds no request
/// changes nothing and is not answered.
pub proof fn the_handshake_is_answered(handshake: Handshake, request: JsonRpcRequest)
    ensures
        request.method@ == "initialize"@ ==> {
            let next = handshake_step(handshake, request_of(Some(request)));
            &&& next.initialized
            &&& next.notified == handshake.notified
            &&& handshake_answer(request_of(Some(request))) matches Some(response) && answers(
                response,
                request.id.deep_view(),
                introduction(),
            )
        },
        request.method@ == "notifications/initialized"@ ==> {
            let next = handshake_step(handshake, request_of(Some(request)));
            &&& next.notified
            &&& next.initialized == handshake.initialized
            &&& handshake_answer(request_of(Some(request))) is None
        },
        request.method@ != "initialize"@ && request.method@ != "notifications/initialized"@ ==> {
            &&& handshake_step(handshake, request_of(Some(request))) == handshake
            &&& handshake_answer(request_of(Some(request))) matches Some(response) && complains(
                response,
                request.id.deep_view(),
                -32601,
                "Server initializing, method not available yet: "@ + request.method@,
            )
        },
        handshake_step(handshake, request_of(None)) == handshake,
        handshake_answer(request_of(None)) is None,
        handshake_complete(handshake) <==> handshake.initialized && handshake.notified,
        HANDSHAKE_CUT_SHORT@ == "EOF before MCP handshake completed"@,
{
    reveal_strlit("initialize");
    reveal_strlit("notifications/initialized");
    assert("initialize"@.len() != "notifications/initialized"@.len());
}

/// Whenever the connection fails or ends, the server waits as long as it had come to wait
/// by then, the next time twice as long but no longer than a minute, and connects anew. A
/// connection that was made is received from, and makes the next wait a second.
pub proof fn the_server_connects_anew(secs: u64)
    requires
        1 <= secs <= 60,
    ensures
        receive_action(secs, ReceiveEvent::ConnectFailed) == (ReceiveAction::Wait { secs }),
        receive_action(secs, ReceiveEvent::StreamEnded) == (ReceiveAction::Wait { secs }),
        receive_action(secs, ReceiveEvent::Waited) is Connect,
        receive_action(secs, ReceiveEvent::Connected) is Receive,
        receive_action(secs, ReceiveEvent::HandedOn) is Receive,
        receive_action(secs, ReceiveEvent::NobodyListens) is Stop,
        backoff_after(secs, ReceiveEvent::ConnectFailed) == if 2 * secs < 60 {
            2 * secs
        } else {
            60
        },
        backoff_after(secs, ReceiveEvent::StreamEnded) == backoff_after(
            secs,
            ReceiveEvent::ConnectFailed,
        ),
        backoff_after(secs, ReceiveEvent::Connected) == 1,
        backoff_after(secs, ReceiveEvent::Waited) == secs,
        backoff_after(secs, ReceiveEvent::HandedOn) == secs,
        backoff_after(secs, ReceiveEvent::NobodyListens) == secs,
        backoff_over(Seq::empty()) == 1,
{
}

/// A message that was not refused was sent with its own time, confirmed or not; one that was
/// refused is complained of with the reason.
pub proof fn what_was_not_refused_was_sent(
    timestamp: u64,
    complaint: Seq<char>,
    reason: String,
)
    ensures
        delivered(Delivery::Sent, timestamp, complaint) == Ok::<u64, Seq<char>>(timestamp),
        delivered(Delivery::TimedOut, timestamp, complaint) == Ok::<u64, Seq<char>>(timestamp),
        delivered(Delivery::Refused(reason), timestamp, complaint) == Err::<u64, Seq<char>>(
            complaint + reason@,
        ),
{
}

/// The master key of a group is the 32 bytes that its id decodes to; an id that is not
/// base64 is named in the error, and one of another length by how many bytes it has.
pub proof fn a_master_key_has_32_bytes(group_id: Seq<char>)
    ensures
        match decoded(group_id) {
            Some(key) => if key.len() == 32 {
                master_key(group_id) == Ok::<Seq<u8>, Seq<char>>(key)
            } else {
                master_key(group_id) == Err::<Seq<u8>, Seq<char>>(
                    "Invalid group master key length: expected 32 bytes, got "@ + decimal(
                        key.len(),
                    ),
                )
            },
            None => master_key(group_id) == Err::<Seq<u8>, Seq<char>>(
                "Invalid group ID (not valid base64): "@ + group_id,
            ),
        },
{
}

/// Contacts that were asked for are waited for; what is received meanwhile is stored as it
/// is, and the wait goes on.
pub proof fn a_sync_waits_for_the_contacts(
    sender_uuid: String,
    body: String,
    timestamp: u64,
    uuid: String,
    phone: Option<String>,
    name: Option<String>,
)
    ensures
        sync_step(SyncEvent::Asked) is StartReceiving,
        sync_step(SyncEvent::Receiving) is Wait,
        sync_step(SyncEvent::Stored) is Wait,
        sync_step(SyncEvent::Received(SignalEvent::ContactsSync)) is Read,
        sync_step(SyncEvent::NotAsked) is Read,
        sync_step(SyncEvent::NotReceiving) is Read,
        sync_step(SyncEvent::TimeOver) is Read,
        sync_step(SyncEvent::Received(SignalEvent::Message { sender_uuid, body, timestamp })) == (
        SyncView::Store(
            EventView::Message { sender_uuid: sender_uuid@, body: body@, timestamp },
        )),
        sync_step(SyncEvent::Received(SignalEvent::Contact { uuid, phone, name })) == (
        SyncView::Store(
            EventView::Contact {
                contact: ContactView {
                    uuid: uuid@,
                    phone: phone.deep_view(),
                    name: name.deep_view(),
                },
            },
        )),
        sync_step(SyncEvent::Received(SignalEvent::QueueEmpty)) == SyncView::Store(
            EventView::QueueEmpty,
        ),
{
}

/// How long is waited: for the server five seconds to connect and then half a minute, or
/// two minutes to send; for Signal a quarter of a minute to send, two minutes to a group;
/// and half a minute for the contacts, after five seconds to ask for them.
pub proof fn waits_are_this_long()
    ensures
        crate::client::CONNECT_TIMEOUT_SECS == 5,
        crate::client::CALL_TIMEOUT_SECS == 30,
        crate::client::SEND_TIMEOUT_SECS == 120,
        crate::signal::SEND_TIMEOUT_SECS == 15,
        crate::signal::GROUP_SEND_TIMEOUT_SECS == 120,
        crate::signal::CONTACTS_TIMEOUT_SECS == 5,
        crate::signal::CONTACTS_WAIT_SECS == 30,
        crate::server::SHUTDOWN_TIMEOUT_SECS == 5,
        crate::server::LONGEST_BACKOFF_SECS == 60,
{
}

/// What the manager is asked for is to send the message's own text to its own recipient, a
/// contact or a group.
pub proof fn the_manager_is_asked_to_send_it(outgoing: Outgoing, command: ManagerCommand)
    requires
        commands(command, outgoing@),
    ensures
        outgoing.recipient matches ResolvedRecipient::Contact(uuid) ==> (
        command matches ManagerCommand::SendMessage { recipient_uuid, message }
            && recipient_uuid@ == uuid@ && message@ == outgoing.message@),
        outgoing.recipient matches ResolvedRecipient::Group(id) ==> (
        command matches ManagerCommand::SendGroupMessage { group_id, message } && group_id@ == id@
            && message@ == outgoing.message@),
{
}

/// What the message stream gives is an event of its own kind, and a text message one that
/// holds what was received.
pub proof fn what_is_received_is_an_event(sender_uuid: String, timestamp: u64, text: String)
    ensures
        received_event(Received::QueueEmpty) == Some(EventView::QueueEmpty),
        received_event(Received::Contacts) == Some(EventView::ContactsSync),
        received_event(
            Received::Content(
                Content {
                    sender_uuid,
                    timestamp,
                    body: ContentBody::DataMessage(DataMessage { body: Some(text) }),
                },
            ),
        ) == Some(EventView::Message { sender_uuid: sender_uuid@, body: text@, timestamp }),
        received_event(
            Received::Content(Content { sender_uuid, timestamp, body: ContentBody::Other }),
        ) is None,
{
}

} // verus!
