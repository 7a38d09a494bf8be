//! A session: the identity that the remote side assigned, and the two
//! channels through which the rest of the system talks to it.

use vstd::prelude::*;
use tokio::sync::mpsc::{Receiver, Sender};
use crate::channel::{channel_bound, message_channel};
use crate::message::ProtocolMessage;

verus! {

/// Number of messages that each channel of a session buffers.
pub const CHANNEL_CAPACITY: usize = 256;

/// The handle of an established session. `receiver` yields the messages that
/// came in and ends when the link dies; `sender` takes the messages to send.
#[derive(Debug)]
pub struct Connection {
    pub system_id: u8,
    pub receiver: Receiver<ProtocolMessage>,
    pub sender: Sender<ProtocolMessage>,
}

/// The other ends of a session's channels, which its two pumps work on: the
/// read pump writes to `incoming`, the write pump drains `outgoing`.
#[derive(Debug)]
pub struct SessionPumps {
    pub system_id: u8,
    pub incoming: Sender<ProtocolMessage>,
    pub outgoing: Receiver<ProtocolMessage>,
}

/// Makes the two channels of a session that was assigned `system_id`, each
/// buffering [`CHANNEL_CAPACITY`] messages, and hands out their ends.
pub fn open_session(system_id: u8) -> (ends: (Connection, SessionPumps))
    ensures
        ends.0.system_id == system_id,
        ends.1.system_id == system_id,
        channel_bound(ends.0.sender) == CHANNEL_CAPACITY,
        channel_bound(ends.1.incoming) == CHANNEL_CAPACITY,
{
    let (incoming, receiver) = message_channel(CHANNEL_CAPACITY);
    let (sender, outgoing) = message_channel(CHANNEL_CAPACITY);
    (Connection { system_id, receiver, sender }, SessionPumps { system_id, incoming, outgoing })
}

} // verus!
