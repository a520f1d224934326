//! The per-connection relay: the decisions of the two loops that bridge
//! one duplex socket and one room. The unverified shell drives the loops
//! (socket reads and writes, the store call, task scheduling) and feeds
//! every event through the functions here, which decide what happens
//! next; the broadcast step itself also lives here, so a message can
//! only reach the channel through a successful store append.

use vstd::prelude::*;
use tokio::sync::broadcast::Sender;
use crate::channel::publish;
use crate::envelope::{encode_envelope, envelope_json};

verus! {

/// One observation of the inbound half of a connection: a text frame's
/// payload, any other kind of frame, or the end of the stream (peer
/// closed or read error).
pub enum InboundItem {
    Text(String),
    NonText,
    Closed,
}

/// What the reader loop does with one inbound observation: ingest a chat
/// message (persist, then maybe broadcast), silently skip the frame, or
/// stop the loop.
pub enum ReaderStep {
    Ingest(String),
    Skip,
    Stop,
}

/// One observation of a connection's subscription to its room: the next
/// broadcast message, a lag notice (the subscriber fell behind and
/// missed messages), or the closing of the channel.
pub enum WriterEvent {
    Message(String),
    Lagged,
    Closed,
}

/// What the writer loop does with one subscription observation: forward
/// the message verbatim as an outbound text frame, carry on after a lag
/// notice, or stop the loop because the channel closed.
pub enum WriterStep {
    Forward(String),
    Skip,
    Stop,
}

/// The two halves of a connection's relay.
pub enum RelayHalf {
    Reader,
    Writer,
}

/// One message as the store recorded it. Its timestamp is the store's
/// own and may differ from the broadcast timestamp in the envelope.
pub struct PersistedRecord {
    pub persisted_id: i64,
    pub mission_id: i32,
    pub user_id: i32,
    pub content: String,
    pub persisted_at: String,
}

/// The reader loop's decision: text frames are ingested, every other
/// frame is ignored, and the loop stops exactly when the stream ends.
pub open spec fn spec_reader_step(item: InboundItem) -> ReaderStep {
    match item {
        InboundItem::Text(content) => ReaderStep::Ingest(content),
        InboundItem::NonText => ReaderStep::Skip,
        InboundItem::Closed => ReaderStep::Stop,
    }
}

/// Decides one reader-loop turn, before any store call.
pub fn reader_step(item: InboundItem) -> (step: ReaderStep)
    ensures
        step == spec_reader_step(item),
{
    match item {
        InboundItem::Text(content) => ReaderStep::Ingest(content),
        InboundItem::NonText => ReaderStep::Skip,
        InboundItem::Closed => ReaderStep::Stop,
    }
}

/// The writer loop's decision: whatever the channel hands over is
/// forwarded verbatim; falling behind does not end the loop; the loop
/// stops exactly when the channel closes. (Whether an outbound send
/// failed is the socket's answer, decided where the send happens.)
pub open spec fn spec_writer_step(event: WriterEvent) -> WriterStep {
    match event {
        WriterEvent::Message(message) => WriterStep::Forward(message),
        WriterEvent::Lagged => WriterStep::Skip,
        WriterEvent::Closed => WriterStep::Stop,
    }
}

/// Decides one writer-loop turn.
pub fn writer_step(event: WriterEvent) -> (step: WriterStep)
    ensures
        step == spec_writer_step(event),
{
    match event {
        WriterEvent::Message(message) => WriterStep::Forward(message),
        WriterEvent::Lagged => WriterStep::Skip,
        WriterEvent::Closed => WriterStep::Stop,
    }
}

/// Which loop the first one to finish must cancel: always exactly the
/// other half of the same connection.
pub open spec fn spec_sibling(half: RelayHalf) -> RelayHalf {
    match half {
        RelayHalf::Reader => RelayHalf::Writer,
        RelayHalf::Writer => RelayHalf::Reader,
    }
}

/// Names the loop to cancel when the given loop finishes first.
pub fn sibling_half(half: RelayHalf) -> (other: RelayHalf)
    ensures
        other == spec_sibling(half),
{
    match half {
        RelayHalf::Reader => RelayHalf::Writer,
        RelayHalf::Writer => RelayHalf::Reader,
    }
}

/// The payload a message contributes to the broadcast channel: its
/// envelope when its append succeeded, nothing when it failed.
pub open spec fn spec_broadcast_payload(
    stored: bool,
    user_id: int,
    content: Seq<char>,
    created_at: Seq<char>,
) -> Option<Seq<char>> {
    if stored {
        Some(envelope_json(user_id, content, created_at))
    } else {
        None
    }
}

/// Builds the broadcast payload of one ingested message, or nothing when
/// its append failed.
pub fn broadcast_payload(stored: bool, user_id: i32, content: &str, created_at: &str) -> (payload:
    Option<String>)
    ensures
        match payload {
            Some(p) => stored && p@ == envelope_json(user_id as int, content@, created_at@),
            None => !stored,
        },
{
    if stored {
        Some(encode_envelope(user_id, content, created_at))
    } else {
        None
    }
}

/// One reader-loop turn after the store call: when the append succeeded,
/// the envelope is built from the broadcast-time clock reading and
/// handed to the room's channel; when it failed, nothing reaches the
/// channel and the loop carries on. The returned payload is exactly what
/// was handed to the channel. A publish that found no subscriber is
/// deliberately ignored.
pub fn relay_after_persist(
    room: &Sender<String>,
    outcome: &Result<PersistedRecord, String>,
    user_id: i32,
    content: &str,
    created_at: &str,
) -> (published: Option<String>)
    ensures
        match published {
            Some(p) => outcome is Ok && p@ == envelope_json(
                user_id as int,
                content@,
                created_at@,
            ),
            None => outcome is Err,
        },
{
    let stored = outcome.is_ok();
    match broadcast_payload(stored, user_id, content, created_at) {
        Some(envelope) => {
            let wire = envelope.clone();
            let _delivered = publish(room, envelope);
            Some(wire)
        },
        None => None,
    }
}

/// Law (persistence happens-before broadcast): a broadcast payload
/// exists for a message only when its store append returned success
/// first; a failed append contributes no payload.
pub proof fn lemma_persist_before_broadcast(
    stored: bool,
    user_id: int,
    content: Seq<char>,
    created_at: Seq<char>,
)
    ensures
        spec_broadcast_payload(stored, user_id, content, created_at) is Some ==> stored,
        !stored ==> spec_broadcast_payload(stored, user_id, content, created_at) is None,
{
}

/// Law (persistence failure isolation): one failed append broadcasts
/// nothing, yet the reader loop does not stop — the next inbound text
/// frame is ingested again, and once its own append succeeds it is
/// broadcast as usual.
pub proof fn lemma_persistence_failure_isolation(
    user_id: int,
    failed_content: Seq<char>,
    failed_at: Seq<char>,
    next_content: String,
    next_at: Seq<char>,
)
    ensures
        spec_broadcast_payload(false, user_id, failed_content, failed_at) is None,
        spec_reader_step(InboundItem::Text(next_content)) == ReaderStep::Ingest(next_content),
        spec_broadcast_payload(true, user_id, next_content@, next_at) == Some(
            envelope_json(user_id, next_content@, next_at),
        ),
{
}

/// Law (cancellation): the reader loop stops exactly when the inbound
/// stream ends, and whichever half finishes first cancels exactly the
/// other half of the same connection, so neither loop outlives its
/// sibling by more than one cancellation.
pub proof fn lemma_disconnect_cancels_sibling(item: InboundItem)
    ensures
        spec_reader_step(item) is Stop <==> item is Closed,
        spec_sibling(RelayHalf::Reader) == RelayHalf::Writer,
        spec_sibling(RelayHalf::Writer) == RelayHalf::Reader,
{
}

/// Law (fan-out, per-subscriber kernel): a subscriber's writer loop
/// forwards every broadcast it receives verbatim, so all subscribers of
/// a room emit identical frames for one published message; a lag notice
/// does not end the loop, and the loop stops only when the channel
/// closes. Delivery of each published message to every subscriber is
/// the broadcast channel's own concurrency guarantee.
pub proof fn lemma_forward_verbatim(message: String)
    ensures
        spec_writer_step(WriterEvent::Message(message)) == WriterStep::Forward(message),
        spec_writer_step(WriterEvent::Lagged) == WriterStep::Skip,
        spec_writer_step(WriterEvent::Closed) == WriterStep::Stop,
{
}

} // verus!
