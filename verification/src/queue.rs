//! The relay hand-off channel: many connection producers, one relay
//! consumer. The channel itself comes from `async_std`; these are the
//! trusted declarations and wrappers it is reached through.

use vstd::prelude::*;
use crate::handler::Message;

verus! {

/// Producer handle of an `async_std` channel; opaque here.
#[verifier::external_type_specification]
#[verifier::external_body]
#[verifier::reject_recursive_types(T)]
pub struct ExSender<T>(async_std::channel::Sender<T>);

/// Consumer handle of an `async_std` channel; opaque here.
#[verifier::external_type_specification]
#[verifier::external_body]
#[verifier::reject_recursive_types(T)]
pub struct ExReceiver<T>(async_std::channel::Receiver<T>);

/// Relies on `async_std::channel::bounded`: a FIFO channel holding at most
/// `cap` entries; a full channel blocks senders rather than dropping.
/// `bounded` panics on a zero capacity, which the precondition rules out.
#[verifier::external_body]
pub(crate) fn channel_bounded(cap: usize) -> (async_std::channel::Sender<Message>, async_std::channel::Receiver<Message>)
    requires
        cap >= 1,
{
    async_std::channel::bounded(cap)
}

/// Relies on `async_std::channel::unbounded`: a FIFO channel with no
/// capacity bound; sending never blocks.
#[verifier::external_body]
pub(crate) fn channel_unbounded() -> (async_std::channel::Sender<Message>, async_std::channel::Receiver<Message>) {
    async_std::channel::unbounded()
}

/// Relies on `async_std::channel::Sender::clone`: one more producer handle
/// of the same channel.
#[verifier::external_body]
pub(crate) fn clone_sender(s: &async_std::channel::Sender<Message>) -> async_std::channel::Sender<Message> {
    s.clone()
}

/// Relies on `async_std::channel::Sender::send_blocking`: blocks while the
/// channel is full; fails exactly when the consumer handle is gone, and then
/// hands the unsent message back unchanged (`SendError` carries it).
#[verifier::external_body]
pub(crate) fn send_blocking(s: &async_std::channel::Sender<Message>, msg: Message) -> (r: Result<(), Message>)
    ensures
        r matches Err(m) ==> m == msg,
{
    s.send_blocking(msg).map_err(|e| e.0)
}

/// Relies on `async_std::channel::Receiver::recv_blocking`: blocks while the
/// channel is empty and a producer is alive; `None` only at end of stream
/// (every producer dropped and the channel drained).
#[verifier::external_body]
pub(crate) fn recv_blocking(r: &async_std::channel::Receiver<Message>) -> Option<Message> {
    match r.recv_blocking() {
        Ok(m) => Some(m),
        Err(_) => None,
    }
}

} // verus!
