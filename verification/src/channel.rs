//! The broadcast primitive a room is built on: tokio's multi-producer,
//! multi-consumer broadcast channel, held behind trusted declarations.
//! Only the sending half is used here; subscribing and receiving happen
//! in the unverified shell around the library.

use vstd::prelude::*;
use tokio::sync::broadcast::Sender;

verus! {

#[verifier::external_type_specification]
#[verifier::external_body]
#[verifier::reject_recursive_types(T)]
pub struct ExSender<T>(Sender<T>);

/// Relies on tokio::sync::broadcast::channel: allocates one fresh
/// channel and hands back its sending half; it panics only when the
/// capacity is zero or above `usize::MAX / 2`, which the precondition
/// rules out.
#[verifier::external_body]
pub(crate) fn new_room_channel(capacity: usize) -> (tx: Sender<String>)
    requires
        0 < capacity <= usize::MAX / 2,
{
    let (tx, _initial_rx) = tokio::sync::broadcast::channel(capacity);
    tx
}

/// Relies on tokio::sync::broadcast::Sender::send: queues the value for
/// every receiver subscribed at this moment and reports whether there
/// was any; it never panics and never blocks. Nothing can be promised
/// of the result, since it depends on the subscribers of the instant.
#[verifier::external_body]
pub(crate) fn publish(tx: &Sender<String>, message: String) -> bool {
    tx.send(message).is_ok()
}

} // verus!
