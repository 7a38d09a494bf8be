//! The calls into tokio's channels. Nothing here is proved: each contract
//! says what tokio documents of the call, and no more.
//!
//! What a channel holds at a given moment depends on the tasks at its other
//! end, so nothing is said of whether a message is taken or of which message
//! comes out.

use vstd::prelude::*;
use tokio::sync::mpsc::{Receiver, Sender};
use crate::connection::Connection;
use crate::message::ProtocolMessage;

verus! {

/// The number of messages that the channel behind `sender` buffers, fixed
/// when the channel is made: what tokio's `Sender::max_capacity` returns.
pub uninterp spec fn channel_bound(sender: Sender<ProtocolMessage>) -> nat;

/// The largest buffer that tokio makes a channel with on every platform.
pub const MAX_BUFFER: usize = 0x1FFF_FFFF;

/// Calls `tokio::sync::mpsc::channel`, which makes a channel that buffers up
/// to `buffer` messages. It panics on a buffer of zero or of more than an
/// eighth of the address space, which `requires` leaves out.
#[verifier::external_body]
pub(crate) fn message_channel(buffer: usize) -> (ends: (Sender<ProtocolMessage>, Receiver<ProtocolMessage>))
    requires
        0 < buffer <= MAX_BUFFER,
    ensures
        channel_bound(ends.0) == buffer,
{
    tokio::sync::mpsc::channel(buffer)
}

/// Calls `tokio::sync::mpsc::Sender::try_send`, which hands `value` to the
/// channel without waiting. The result says whether the channel took it: it
/// does not when it is full or closed, and the value is then lost.
#[verifier::external_body]
pub(crate) fn try_send<T>(sender: &Sender<T>, value: T) -> (accepted: bool) {
    sender.try_send(value).is_ok()
}

/// Calls `tokio::sync::mpsc::Receiver::try_recv`, which takes the next
/// message out of the channel without waiting. There is none when the
/// channel is empty or disconnected.
#[verifier::external_body]
pub(crate) fn try_recv(receiver: &mut Receiver<ProtocolMessage>) -> (message: Option<ProtocolMessage>) {
    receiver.try_recv().ok()
}

/// Calls `tokio::sync::mpsc::Receiver::close`, after which the channel takes
/// no further message.
#[verifier::external_body]
pub(crate) fn close(receiver: &mut Receiver<ProtocolMessage>) {
    receiver.close()
}

/// Calls `tokio::sync::mpsc::Receiver::is_closed`: whether the channel was
/// closed or has lost all its senders.
#[verifier::external_body]
pub(crate) fn is_closed(receiver: &Receiver<ProtocolMessage>) -> (closed: bool) {
    receiver.is_closed()
}

/// Calls `tokio::sync::oneshot::channel`, which makes a slot for one
/// session and the end to wait on it.
#[verifier::external_body]
pub(crate) fn reply_slot() -> (ends: (
    tokio::sync::oneshot::Sender<Connection>,
    tokio::sync::oneshot::Receiver<Connection>,
))
{
    tokio::sync::oneshot::channel()
}

/// Calls `tokio::sync::oneshot::Sender::send`, which puts `connection` into
/// the slot. The result says whether the waiting end was still there.
#[verifier::external_body]
pub(crate) fn fulfil(
    slot: tokio::sync::oneshot::Sender<Connection>,
    connection: Connection,
) -> (delivered: bool) {
    slot.send(connection).is_ok()
}

} // verus!
