//! Trusted declarations for the message channels that carry events and
//! acknowledgements between the manager and the components.
//!
//! The kernel only ever uses unbounded channels with non-blocking send and
//! receive, so a send can fail solely because every receiver is gone, and a
//! receive reports either a message, an empty channel, or a closed one.
//! Nothing is assumed about what a channel holds: a received value is handled
//! by verified code whatever it is.

use vstd::prelude::*;

verus! {

#[verifier::external_type_specification]
#[verifier::external_body]
#[verifier::reject_recursive_types(T)]
pub struct ExSender<T>(crossbeam_channel::Sender<T>);

#[verifier::external_type_specification]
#[verifier::external_body]
#[verifier::reject_recursive_types(T)]
pub struct ExReceiver<T>(crossbeam_channel::Receiver<T>);

/// Outcome of one non-blocking receive on a channel endpoint.
pub enum ChannelPoll<T> {
    /// A message was waiting and has been taken out of the channel.
    Item(T),
    /// No message was waiting; senders may still deliver later.
    Empty,
    /// The channel is empty and every sender has been dropped.
    Closed,
}

/// Relies on crossbeam_channel::unbounded: creates a channel of unbounded
/// capacity and returns its two endpoints.
#[verifier::external_body]
pub fn new_channel<T>() -> (crossbeam_channel::Sender<T>, crossbeam_channel::Receiver<T>) {
    crossbeam_channel::unbounded()
}

/// Relies on crossbeam_channel::Sender::try_send: on an unbounded channel the
/// send succeeds unless every receiver has been dropped. Returns whether the
/// message was accepted.
#[verifier::external_body]
pub fn try_send<T>(sender: &crossbeam_channel::Sender<T>, value: T) -> bool {
    sender.try_send(value).is_ok()
}

/// Relies on crossbeam_channel::Receiver::try_recv: takes one waiting message
/// out of the channel, or reports the channel empty or closed, without
/// blocking.
#[verifier::external_body]
pub fn try_recv<T>(receiver: &crossbeam_channel::Receiver<T>) -> ChannelPoll<T> {
    match receiver.try_recv() {
        Ok(value) => ChannelPoll::Item(value),
        Err(crossbeam_channel::TryRecvError::Empty) => ChannelPoll::Empty,
        Err(crossbeam_channel::TryRecvError::Disconnected) => ChannelPoll::Closed,
    }
}

/// Relies on crossbeam_channel::Sender::clone: returns another sending
/// endpoint of the same channel. The clone is the same value, field for
/// field: a sender is one pointer to the shared channel, and cloning
/// copies that pointer (bumping a reference count held behind it).
#[verifier::external_body]
pub fn clone_sender<T>(sender: &crossbeam_channel::Sender<T>) -> (r: crossbeam_channel::Sender<
    T,
>)
    ensures
        r == *sender,
{
    sender.clone()
}

} // verus!
