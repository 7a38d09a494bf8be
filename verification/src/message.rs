//! The protocol messages that cross a session, and the frames that carry
//! them out.

use vstd::prelude::*;

verus! {

/// One message of the protocol. Positions are in the units of
/// [`crate::coordinates::Coordinates`].
#[derive(Clone, Copy, Debug, PartialEq, Eq, Structural)]
pub enum ProtocolMessage {
    /// Opens a handshake: the agent announces itself and where it is.
    Register { agent_id: u32, latitude: i64, longitude: i64 },
    /// Answers `Register` with the identity that the remote side assigned.
    RegisterAck { system_id: u8 },
    /// Announces that the agent leaves.
    Unregister,
    /// Keep-alive with the agent's current position.
    Heartbeat { latitude: i64, longitude: i64 },
    /// Answers `Heartbeat`.
    HeartbeatAck,
    /// Asks the agent to fly to a target.
    MissionRequest { target_latitude: i64, target_longitude: i64 },
    /// The agent takes the requested mission.
    MissionAccept,
    /// Answers `MissionAccept`.
    MissionAcceptAck,
    /// Progress report with the agent's current position.
    MissionUpdate { current_latitude: i64, current_longitude: i64 },
    /// The agent has arrived.
    MissionFinished,
    /// Answers `MissionFinished`.
    MissionFinishedAck,
}

impl ProtocolMessage {
    /// Whether the mission layer reacts to this message when it comes in.
    /// Everything else that arrives is dropped by the read pump.
    pub open spec fn is_inbound(self) -> bool {
        self is MissionRequest || self is MissionAcceptAck || self is MissionFinishedAck
    }

    /// Whether an agent may put this message on the wire.
    pub open spec fn is_outbound(self) -> bool {
        self is Register || self is Unregister || self is Heartbeat || self is MissionAccept
            || self is MissionUpdate || self is MissionFinished
    }

    /// Computes [`Self::is_inbound`].
    pub fn inbound(&self) -> (b: bool)
        ensures
            b == self.is_inbound(),
    {
        match self {
            ProtocolMessage::MissionRequest { .. } => true,
            ProtocolMessage::MissionAcceptAck => true,
            ProtocolMessage::MissionFinishedAck => true,
            ProtocolMessage::Register { .. } => false,
            ProtocolMessage::RegisterAck { .. } => false,
            ProtocolMessage::Unregister => false,
            ProtocolMessage::Heartbeat { .. } => false,
            ProtocolMessage::HeartbeatAck => false,
            ProtocolMessage::MissionAccept => false,
            ProtocolMessage::MissionUpdate { .. } => false,
            ProtocolMessage::MissionFinished => false,
        }
    }

    /// Computes [`Self::is_outbound`].
    pub fn outbound(&self) -> (b: bool)
        ensures
            b == self.is_outbound(),
    {
        match self {
            ProtocolMessage::Register { .. } => true,
            ProtocolMessage::Unregister => true,
            ProtocolMessage::Heartbeat { .. } => true,
            ProtocolMessage::MissionAccept => true,
            ProtocolMessage::MissionUpdate { .. } => true,
            ProtocolMessage::MissionFinished => true,
            ProtocolMessage::RegisterAck { .. } => false,
            ProtocolMessage::HeartbeatAck => false,
            ProtocolMessage::MissionRequest { .. } => false,
            ProtocolMessage::MissionAcceptAck => false,
            ProtocolMessage::MissionFinishedAck => false,
        }
    }
}

/// What the framing codec needs to put one message on the wire: the frame's
/// sequence number, the sender's identity, and the message itself.
#[derive(Clone, Copy, Debug, PartialEq, Eq, Structural)]
pub struct OutboundFrame {
    pub sequence: u8,
    pub system_id: u8,
    pub component_id: u8,
    pub message: ProtocolMessage,
}

/// A message offered to a session's outbound channel, and whether the channel
/// took it. A message that was not taken is lost.
#[derive(Clone, Copy, Debug, PartialEq, Eq, Structural)]
pub struct Delivery {
    pub message: ProtocolMessage,
    pub accepted: bool,
}

/// The messages of a run of deliveries, in order.
pub open spec fn offered(deliveries: Seq<Delivery>) -> Seq<ProtocolMessage> {
    deliveries.map_values(|d: Delivery| d.message)
}

/// The message of a delivery, if there was one.
pub open spec fn offer_of(delivery: Option<Delivery>) -> Option<ProtocolMessage> {
    match delivery {
        Some(d) => Some(d.message),
        None => None,
    }
}

} // verus!
