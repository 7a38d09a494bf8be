//! The connection side of the engine: the registration handshake, the
//! supervisor that takes requests for connections, and the two pumps of a
//! session. Each is given here as its decisions, one event at a time; the
//! code that waits on the transport runs them.

use vstd::prelude::*;
use tokio::sync::mpsc::Sender;
use crate::channel::{channel_bound, fulfil, reply_slot, try_send};
use crate::connection::{open_session, Connection, SessionPumps, CHANNEL_CAPACITY};
use crate::coordinates::Coordinates;
use crate::message::{Delivery, OutboundFrame, ProtocolMessage, offer_of};

verus! {

/// The one way in which a connection fails: the transport could not be
/// opened, the registration could not be sent, or the first frame that came
/// back was not the acknowledgment.
#[derive(Clone, Copy, Debug, PartialEq, Eq, Structural)]
pub struct ConnectError;

/// The frame that opens a handshake: `Register` with the agent's identifier
/// and position, as frame 0 of a sender that has no identity yet.
pub open spec fn registration(agent_id: u32, coordinates: Coordinates) -> OutboundFrame {
    OutboundFrame {
        sequence: 0,
        system_id: 0,
        component_id: 0,
        message: ProtocolMessage::Register {
            agent_id,
            latitude: coordinates.latitude,
            longitude: coordinates.longitude,
        },
    }
}

/// Makes the frame that opens a handshake ([`registration`]). The agent's
/// identifier is taken as it is given.
pub fn send_registration(agent_id: u32, coordinates: &Coordinates) -> (frame: OutboundFrame)
    ensures
        frame == registration(agent_id, *coordinates),
{
    OutboundFrame {
        sequence: 0,
        system_id: 0,
        component_id: 0,
        message: ProtocolMessage::Register {
            agent_id,
            latitude: coordinates.latitude,
            longitude: coordinates.longitude,
        },
    }
}

/// What the first frame that comes back makes of a handshake: `first` is
/// its message, or nothing where no frame could be read or decoded. Only
/// `RegisterAck` establishes the session, with the identity that it
/// carries.
pub open spec fn acknowledged(first: Option<ProtocolMessage>) -> Result<u8, ConnectError> {
    match first {
        Some(ProtocolMessage::RegisterAck { system_id }) => Ok(system_id),
        _ => Err(ConnectError),
    }
}

/// Judges the first frame that came back ([`acknowledged`]).
pub fn wait_for_register_ack(first: Option<ProtocolMessage>) -> (outcome: Result<u8, ConnectError>)
    ensures
        outcome == acknowledged(first),
{
    match first {
        Some(ProtocolMessage::RegisterAck { system_id }) => Ok(system_id),
        _ => Err(ConnectError),
    }
}

/// How far a handshake has come.
#[derive(Clone, Copy, Debug, PartialEq, Eq, Structural)]
pub enum Handshake {
    /// The transport is being opened.
    Connecting,
    /// The registration is being sent.
    Registering,
    /// The first frame from the remote side is awaited.
    AwaitingAck,
    /// The session is established under the identity that was assigned.
    Established { system_id: u8 },
    /// The handshake has failed. Nothing is tried again.
    Failed,
}

/// What happened to the step that a handshake was waiting for.
#[derive(Clone, Copy, Debug, PartialEq, Eq, Structural)]
pub enum HandshakeEvent {
    /// The transport is open.
    Connected,
    /// The transport could not be opened.
    ConnectFailed,
    /// The registration is on the wire.
    Sent,
    /// The registration could not be sent.
    SendFailed,
    /// The wait for the first frame is over: with its message, or with
    /// nothing where no frame could be read or decoded.
    Received(Option<ProtocolMessage>),
}

/// What the one who runs a handshake does next.
#[derive(Clone, Copy, Debug, PartialEq, Eq, Structural)]
pub enum HandshakeStep {
    /// Open the transport.
    Connect,
    /// Put this frame on the wire.
    Send(OutboundFrame),
    /// Wait for one frame.
    Receive,
    /// Stop: the session is established under this identity.
    Establish { system_id: u8 },
    /// Stop: the handshake has failed.
    Abort,
}

impl Handshake {
    /// Whether the handshake is over.
    pub open spec fn is_over(self) -> bool {
        self is Established || self is Failed
    }

    /// The handshake after `event`. Each state goes on with the one event
    /// that tells of its step's success; the acknowledgment decides the
    /// last; anything else fails the handshake. A handshake that is over
    /// stays as it is.
    pub open spec fn after(self, event: HandshakeEvent) -> Handshake {
        match self {
            Handshake::Connecting => if event is Connected {
                Handshake::Registering
            } else {
                Handshake::Failed
            },
            Handshake::Registering => if event is Sent {
                Handshake::AwaitingAck
            } else {
                Handshake::Failed
            },
            Handshake::AwaitingAck => match event {
                HandshakeEvent::Received(first) => match acknowledged(first) {
                    Ok(system_id) => Handshake::Established { system_id },
                    Err(_) => Handshake::Failed,
                },
                _ => Handshake::Failed,
            },
            Handshake::Established { .. } => self,
            Handshake::Failed => self,
        }
    }

    /// The handshake after a run of events, in order.
    pub open spec fn after_all(self, events: Seq<HandshakeEvent>) -> Handshake
        decreases events.len(),
    {
        if events.len() == 0 {
            self
        } else {
            self.after(events[0]).after_all(events.drop_first())
        }
    }

    /// What is to be done in this state for the agent `agent_id` at
    /// `coordinates`.
    pub open spec fn step(self, agent_id: u32, coordinates: Coordinates) -> HandshakeStep {
        match self {
            Handshake::Connecting => HandshakeStep::Connect,
            Handshake::Registering => HandshakeStep::Send(registration(agent_id, coordinates)),
            Handshake::AwaitingAck => HandshakeStep::Receive,
            Handshake::Established { system_id } => HandshakeStep::Establish { system_id },
            Handshake::Failed => HandshakeStep::Abort,
        }
    }

    /// A handshake at its beginning.
    pub fn new() -> (handshake: Handshake)
        ensures
            handshake == Handshake::Connecting,
    {
        Handshake::Connecting
    }

    /// Computes [`Self::step`].
    pub fn next_step(&self, agent_id: u32, coordinates: &Coordinates) -> (step: HandshakeStep)
        ensures
            step == self.step(agent_id, *coordinates),
    {
        match self {
            Handshake::Connecting => HandshakeStep::Connect,
            Handshake::Registering => HandshakeStep::Send(send_registration(agent_id, coordinates)),
            Handshake::AwaitingAck => HandshakeStep::Receive,
            Handshake::Established { system_id } => HandshakeStep::Establish {
                system_id: *system_id,
            },
            Handshake::Failed => HandshakeStep::Abort,
        }
    }
}

/// Takes a handshake one event further ([`Handshake::after`]).
pub fn handle_new_connection(handshake: Handshake, event: HandshakeEvent) -> (next: Handshake)
    ensures
        next == handshake.after(event),
{
    match handshake {
        Handshake::Connecting => match event {
            HandshakeEvent::Connected => Handshake::Registering,
            _ => Handshake::Failed,
        },
        Handshake::Registering => match event {
            HandshakeEvent::Sent => Handshake::AwaitingAck,
            _ => Handshake::Failed,
        },
        Handshake::AwaitingAck => match event {
            HandshakeEvent::Received(first) => match wait_for_register_ack(first) {
                Ok(system_id) => Handshake::Established { system_id },
                Err(_) => Handshake::Failed,
            },
            _ => Handshake::Failed,
        },
        Handshake::Established { system_id } => Handshake::Established { system_id },
        Handshake::Failed => Handshake::Failed,
    }
}

/// A handshake that is over stays as it is, whatever comes.
pub proof fn lemma_handshake_settled(handshake: Handshake, events: Seq<HandshakeEvent>)
    requires
        handshake.is_over(),
    ensures
        handshake.after_all(events) == handshake,
    decreases events.len(),
{
    if events.len() > 0 {
        lemma_handshake_settled(handshake, events.drop_first());
    }
}

/// A handshake succeeds in one way only: the transport opened, the
/// registration went out, and the first frame that came back was a
/// `RegisterAck`. The identity of the session is the one that this frame
/// carries; exactly one frame went out and one came in before it was
/// established.
pub proof fn lemma_handshake_success(events: Seq<HandshakeEvent>, system_id: u8)
    requires
        Handshake::Connecting.after_all(events) == (Handshake::Established { system_id }),
    ensures
        events.len() >= 3,
        events[0] == HandshakeEvent::Connected,
        events[1] == HandshakeEvent::Sent,
        events[2] == HandshakeEvent::Received(
            Some(ProtocolMessage::RegisterAck { system_id }),
        ),
        Handshake::Connecting.after_all(events.take(3)) == (Handshake::Established { system_id }),
{
    reveal_with_fuel(Handshake::after_all, 4);
    let start = Handshake::Connecting;
    assert(events.len() >= 1);
    let first = start.after(events[0]);
    let rest1 = events.drop_first();
    if first is Failed {
        lemma_handshake_settled(first, rest1);
    }
    assert(rest1.len() >= 1);
    let second = first.after(rest1[0]);
    let rest2 = rest1.drop_first();
    if second is Failed {
        lemma_handshake_settled(second, rest2);
    }
    assert(rest2.len() >= 1);
    let third = second.after(rest2[0]);
    let rest3 = rest2.drop_first();
    lemma_handshake_settled(third, rest3);
    let head = events.take(3);
    assert(head.drop_first().drop_first().drop_first().len() == 0);
    assert(head[0] == events[0] && head.drop_first()[0] == events[1]
        && head.drop_first().drop_first()[0] == events[2]);
}

/// A handshake whose first frame is anything but a `RegisterAck` fails, and
/// a failed handshake is over: its next step is to stop, not to wait.
pub proof fn lemma_handshake_rejects(first: Option<ProtocolMessage>)
    ensures
        Handshake::AwaitingAck.after(HandshakeEvent::Received(first)) is Established <==> (first
            matches Some(message) && message is RegisterAck),
        !(first matches Some(message) && message is RegisterAck) ==> Handshake::AwaitingAck.after(
            HandshakeEvent::Received(first),
        ) == Handshake::Failed,
        forall|agent_id: u32, coordinates: Coordinates|
            #[trigger] Handshake::Failed.step(agent_id, coordinates) == HandshakeStep::Abort,
{
}

/// What becomes of a session whose handle was offered to the one who asked
/// for it: its pumps run if the handle was taken.
pub fn started(delivered: bool, pumps: SessionPumps) -> (running: Option<SessionPumps>)
    ensures
        running == if delivered {
            Some(pumps)
        } else {
            None
        },
{
    if delivered {
        Some(pumps)
    } else {
        None
    }
}

/// Completes a successful handshake: makes the two channels of the session
/// and puts its handle into the reply slot of the request. The result is
/// the pumps' ends of the channels, unless the one who asked has gone; then
/// there is no session.
pub fn establish(system_id: u8, tx: tokio::sync::oneshot::Sender<Connection>) -> (pumps: Option<
    SessionPumps,
>)
    ensures
        pumps matches Some(ends) ==> ends.system_id == system_id && channel_bound(ends.incoming)
            == CHANNEL_CAPACITY,
{
    let (connection, pumps) = open_session(system_id);
    let delivered = fulfil(tx, connection);
    started(delivered, pumps)
}

/// A request to the supervisor.
#[derive(Debug)]
pub enum IOMessage {
    /// Open a session for the agent `agent_id` at `coordinates`, and put
    /// its handle into `tx`.
    CreateConnection {
        agent_id: u32,
        tx: tokio::sync::oneshot::Sender<Connection>,
        coordinates: Coordinates,
    },
}

/// The queue on which the supervisor takes requests.
#[derive(Debug)]
pub struct IOResource {
    pub sender: Sender<IOMessage>,
}

/// What the supervisor does after waiting.
#[derive(Debug)]
pub enum Supervision {
    /// Start a handshake of its own for this request, and go on waiting.
    Spawn { agent_id: u32, tx: tokio::sync::oneshot::Sender<Connection>, coordinates: Coordinates },
    /// Stop taking requests. Sessions that run are left alone.
    Stop,
}

/// The supervisor's decision. `cancelled` says whether shutdown was asked
/// for; `request` is what the queue gave, nothing if it is closed.
/// Cancellation goes first: a request that came with it is not served.
pub open spec fn supervise(cancelled: bool, request: Option<IOMessage>) -> Supervision {
    if cancelled {
        Supervision::Stop
    } else {
        match request {
            Some(IOMessage::CreateConnection { agent_id, tx, coordinates }) => Supervision::Spawn {
                agent_id,
                tx,
                coordinates,
            },
            None => Supervision::Stop,
        }
    }
}

/// Decides what the supervisor does after waiting ([`supervise`]).
pub fn run_io(cancelled: bool, request: Option<IOMessage>) -> (decision: Supervision)
    ensures
        decision == supervise(cancelled, request),
{
    if cancelled {
        return Supervision::Stop;
    }
    match request {
        Some(IOMessage::CreateConnection { agent_id, tx, coordinates }) => Supervision::Spawn {
            agent_id,
            tx,
            coordinates,
        },
        None => Supervision::Stop,
    }
}

/// What becomes of a request that was offered to the supervisor's queue:
/// the one who asked waits on `waiting` if the queue took the request, and
/// has failed if it did not.
pub fn queued(accepted: bool, waiting: tokio::sync::oneshot::Receiver<Connection>) -> (reply: Result<
    tokio::sync::oneshot::Receiver<Connection>,
    ConnectError,
>)
    ensures
        reply == if accepted {
            Ok::<tokio::sync::oneshot::Receiver<Connection>, ConnectError>(waiting)
        } else {
            Err(ConnectError)
        },
{
    if accepted {
        Ok(waiting)
    } else {
        Err(ConnectError)
    }
}

/// Asks the supervisor for a session for the agent `agent_id` at
/// `coordinates`. The result is the end on which the session's handle
/// arrives; it closes without one if the handshake fails. The request
/// fails at once if the supervisor's queue does not take it.
pub fn create_connection(agent_id: u32, io: &IOResource, coordinates: Coordinates) -> (reply:
    Result<tokio::sync::oneshot::Receiver<Connection>, ConnectError>) {
    let (tx, waiting) = reply_slot();
    let accepted = try_send(&io.sender, request_for(agent_id, tx, coordinates));
    queued(accepted, waiting)
}

/// The request that asks for a session for the agent `agent_id` at
/// `coordinates`, to be answered through `tx`.
pub fn request_for(
    agent_id: u32,
    tx: tokio::sync::oneshot::Sender<Connection>,
    coordinates: Coordinates,
) -> (request: IOMessage)
    ensures
        request == (IOMessage::CreateConnection { agent_id, tx, coordinates }),
{
    IOMessage::CreateConnection { agent_id, tx, coordinates }
}

/// What the read pump got when it read one frame.
#[derive(Clone, Copy, Debug, PartialEq, Eq, Structural)]
pub enum Inbound {
    /// A frame with this message.
    Message(ProtocolMessage),
    /// A frame that does not decode to a message of the protocol.
    Undecodable,
    /// No frame: the transport has failed or is at its end.
    LinkLost,
}

/// What the read pump did with one frame.
#[derive(Clone, Copy, Debug, PartialEq, Eq, Structural)]
pub struct Forwarding {
    /// Whether the pump goes on reading. When it does not, it lets go of
    /// the inbound channel, which closes it.
    pub running: bool,
    /// The message that was offered to the inbound channel, if any.
    pub delivery: Option<Delivery>,
}

/// The message that the read pump passes on: the one of the frame, if the
/// mission layer reacts to it.
pub open spec fn forwarded(frame: Inbound) -> Option<ProtocolMessage> {
    match frame {
        Inbound::Message(message) => if message.is_inbound() {
            Some(message)
        } else {
            None
        },
        _ => None,
    }
}

/// One turn of the read pump: passes the message of a frame on to the
/// session's inbound channel if the mission layer reacts to it, without
/// waiting for room, and drops everything else. A frame that does not
/// decode is passed over. The pump stops only when the link is lost.
pub fn listen(sender: &Sender<ProtocolMessage>, frame: Inbound) -> (outcome: Forwarding)
    ensures
        outcome.running == !(frame is LinkLost),
        offer_of(outcome.delivery) == forwarded(frame),
{
    match frame {
        Inbound::Message(message) => {
            if message.inbound() {
                let accepted = try_send(sender, message);
                Forwarding { running: true, delivery: Some(Delivery { message, accepted }) }
            } else {
                Forwarding { running: true, delivery: None }
            }
        },
        Inbound::Undecodable => Forwarding { running: true, delivery: None },
        Inbound::LinkLost => Forwarding { running: false, delivery: None },
    }
}

/// The sending side of a session: its identity and the number of the next
/// frame.
#[derive(Clone, Copy, Debug, PartialEq, Eq, Structural)]
pub struct Endpoint {
    pub system_id: u8,
    pub component_id: u8,
    pub sequence: u8,
}

impl Endpoint {
    /// The frame that carries `message`, if an agent may send it.
    pub open spec fn frame_of(self, message: ProtocolMessage) -> Option<OutboundFrame> {
        if message.is_outbound() {
            Some(
                OutboundFrame {
                    sequence: self.sequence,
                    system_id: self.system_id,
                    component_id: self.component_id,
                    message,
                },
            )
        } else {
            None
        }
    }

    /// The endpoint after `message`: a frame that went out takes its
    /// number, and the numbers begin again after 255.
    pub open spec fn after(self, message: ProtocolMessage) -> Endpoint {
        if message.is_outbound() {
            Endpoint {
                system_id: self.system_id,
                component_id: self.component_id,
                sequence: if self.sequence == 255 {
                    0
                } else {
                    (self.sequence + 1) as u8
                },
            }
        } else {
            self
        }
    }

    /// The endpoint after a run of messages, in order.
    pub open spec fn after_all(self, messages: Seq<ProtocolMessage>) -> Endpoint
        decreases messages.len(),
    {
        if messages.len() == 0 {
            self
        } else {
            self.after_all(messages.drop_last()).after(messages.last())
        }
    }

    /// The frames that a run of messages makes, in order.
    pub open spec fn frames_of(self, messages: Seq<ProtocolMessage>) -> Seq<OutboundFrame>
        decreases messages.len(),
    {
        if messages.len() == 0 {
            Seq::empty()
        } else {
            let earlier = self.frames_of(messages.drop_last());
            match self.after_all(messages.drop_last()).frame_of(messages.last()) {
                Some(frame) => earlier.push(frame),
                None => earlier,
            }
        }
    }

    /// The sending side of the session `system_id`, before its first frame.
    pub fn new(system_id: u8) -> (endpoint: Endpoint)
        ensures
            endpoint == (Endpoint { system_id, component_id: 0, sequence: 0 }),
    {
        Endpoint { system_id, component_id: 0, sequence: 0 }
    }
}

/// One turn of the write pump: makes the frame for a message from the
/// session's outbound channel, under the session's identity and with the
/// next number. A message that an agent may not send makes no frame and
/// takes no number.
pub fn write(endpoint: &mut Endpoint, message: ProtocolMessage) -> (frame: Option<OutboundFrame>)
    ensures
        frame == old(endpoint).frame_of(message),
        *final(endpoint) == old(endpoint).after(message),
{
    if message.outbound() {
        let frame = OutboundFrame {
            sequence: endpoint.sequence,
            system_id: endpoint.system_id,
            component_id: endpoint.component_id,
            message,
        };
        endpoint.sequence = endpoint.sequence.wrapping_add(1);
        Some(frame)
    } else {
        None
    }
}

/// The frames of a session go out in the order of their messages, all under
/// the session's identity, and numbered one after the other from the
/// endpoint's number on, beginning again after 255.
pub proof fn lemma_frames_numbered(endpoint: Endpoint, messages: Seq<ProtocolMessage>)
    ensures
        endpoint.frames_of(messages).len() <= messages.len(),
        endpoint.after_all(messages).system_id == endpoint.system_id,
        endpoint.after_all(messages).component_id == endpoint.component_id,
        endpoint.after_all(messages).sequence == (endpoint.sequence + endpoint.frames_of(
            messages,
        ).len()) % 256,
        forall|k: int|
            0 <= k < endpoint.frames_of(messages).len() ==> {
                let frame = #[trigger] endpoint.frames_of(messages)[k];
                &&& frame.sequence == (endpoint.sequence + k) % 256
                &&& frame.system_id == endpoint.system_id
                &&& frame.component_id == endpoint.component_id
                &&& frame.message.is_outbound()
            },
    decreases messages.len(),
{
    if messages.len() > 0 {
        lemma_frames_numbered(endpoint, messages.drop_last());
    }
}

} // verus!
