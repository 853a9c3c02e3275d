//! The fan-out primitive behind every topic: tokio's broadcast channel.
//!
//! A channel is shared between its sender and every receiver, and any of
//! them may be used from another task at any moment. What a call returns
//! therefore depends on more than its arguments, and the contracts below
//! claim only what holds of every outcome.

use vstd::prelude::*;

verus! {

/// `tokio::sync::broadcast::Sender`, the sending half of a channel. It is
/// carried through as it is: nothing is claimed of what it holds.
#[verifier::external_type_specification]
#[verifier::external_body]
#[verifier::reject_recursive_types(V)]
pub struct ExSender<V>(tokio::sync::broadcast::Sender<V>);

/// `tokio::sync::broadcast::Receiver`, one receiving half of a channel.
/// It is carried through as it is: nothing is claimed of what it holds.
#[verifier::external_type_specification]
#[verifier::external_body]
#[verifier::reject_recursive_types(V)]
pub struct ExReceiver<V>(tokio::sync::broadcast::Receiver<V>);

/// The largest buffer size a topic channel can be opened with.
pub open spec fn max_capacity() -> nat {
    (usize::MAX / 2) as nat
}

/// What one attempt to hand a message to a channel came to.
#[derive(Debug, Clone, PartialEq, Eq)]
pub enum SendOutcome<V> {
    /// The message was stored for this many receivers.
    Delivered(usize),
    /// No receiver was attached; the message comes back.
    NoReceivers(V),
}

/// What one non-blocking read of a subscription came to.
#[derive(Debug, Clone, PartialEq, Eq)]
pub enum RecvOutcome<V> {
    /// The next message in publish order.
    Message(V),
    /// Nothing is waiting.
    Empty,
    /// The channel's sender is gone and nothing is left to read.
    Closed,
    /// This many of the oldest unread messages were overwritten; reading
    /// resumes at the oldest message that is still held.
    Lagged(u64),
}

/// `tokio::sync::broadcast::channel`, keeping the sender only. The call
/// panics on a capacity of zero or above half of `usize::MAX`, which the
/// `requires` leaves out. Nothing is claimed of the sender.
#[verifier::external_body]
pub(crate) fn open_channel<V: Clone>(capacity: usize) -> (sender: tokio::sync::broadcast::Sender<V>)
    requires
        0 < capacity <= max_capacity(),
{
    tokio::sync::broadcast::channel(capacity).0
}

/// `Sender::subscribe`. The new receiver sees what is sent after this call.
/// Nothing is claimed of it. (The call panics when a quarter of
/// `usize::MAX` receivers are attached at once. A receiver takes up memory
/// for as long as it is attached, so that number is out of reach.)
#[verifier::external_body]
pub(crate) fn attach<V>(sender: &tokio::sync::broadcast::Sender<V>) -> (receiver:
    tokio::sync::broadcast::Receiver<V>) {
    sender.subscribe()
}

/// `Sender::receiver_count`: how many receivers are attached at the moment
/// of the call. Other tasks attach and drop receivers, so nothing is claimed
/// of the number.
#[verifier::external_body]
pub(crate) fn receiver_count<V>(sender: &tokio::sync::broadcast::Sender<V>) -> (count: usize) {
    sender.receiver_count()
}

/// `Sender::send`. With no receiver attached the value is handed back
/// unchanged; otherwise the count of receivers it was stored for is
/// returned, and that count is at least one.
#[verifier::external_body]
pub(crate) fn send<V>(sender: &tokio::sync::broadcast::Sender<V>, value: V) -> (outcome:
    SendOutcome<V>)
    ensures
        outcome matches SendOutcome::Delivered(n) ==> n >= 1,
        outcome matches SendOutcome::NoReceivers(v) ==> v == value,
{
    match sender.send(value) {
        Ok(n) => SendOutcome::Delivered(n),
        Err(e) => SendOutcome::NoReceivers(e.0),
    }
}

/// `Receiver::try_recv`. Which of the four outcomes comes back depends on
/// what was sent so far; the one thing that holds of every outcome is that
/// a reported lag counts at least one lost message.
#[verifier::external_body]
pub(crate) fn try_recv<V: Clone>(receiver: &mut tokio::sync::broadcast::Receiver<V>) -> (outcome:
    RecvOutcome<V>)
    ensures
        outcome matches RecvOutcome::Lagged(n) ==> n >= 1,
{
    match receiver.try_recv() {
        Ok(v) => RecvOutcome::Message(v),
        Err(tokio::sync::broadcast::error::TryRecvError::Empty) => RecvOutcome::Empty,
        Err(tokio::sync::broadcast::error::TryRecvError::Closed) => RecvOutcome::Closed,
        Err(tokio::sync::broadcast::error::TryRecvError::Lagged(n)) => RecvOutcome::Lagged(n),
    }
}

} // verus!
