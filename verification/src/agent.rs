//! The record that the fleet keeps of one agent: the agent itself, its
//! session while it has one, and its mission while it has one.

use vstd::prelude::*;
use crate::channel::{close, is_closed, try_send};
use crate::connection::Connection;
use crate::coordinates::Coordinates;
use crate::drone::{ConnectionState, Drone, DroneState};
use crate::message::{Delivery, ProtocolMessage, offer_of};
use crate::mission::Mission;

verus! {

/// Latitude at which a new agent stands.
pub const HOME_LATITUDE: i64 = 38_756_000_960;

/// Longitude at which a new agent stands.
pub const HOME_LONGITUDE: i64 = -9_114_488_884;

/// Where a new agent stands.
pub open spec fn home() -> Coordinates {
    Coordinates { latitude: HOME_LATITUDE, longitude: HOME_LONGITUDE }
}

impl Drone {
    /// A new agent: switched off, at [`home`].
    pub fn new(agent_id: u32) -> (drone: Drone)
        ensures
            drone == (Drone { agent_id, state: DroneState::Offline, coordinates: home() }),
    {
        Drone {
            agent_id,
            state: DroneState::Offline,
            coordinates: Coordinates { latitude: HOME_LATITUDE, longitude: HOME_LONGITUDE },
        }
    }
}

/// The state of a session whose inbound channel is closed or not. A dead
/// link shows in nothing else: the read pump closes the channel when it
/// stops.
pub fn link_state(inbound_closed: bool) -> (state: ConnectionState)
    ensures
        state == if inbound_closed {
            ConnectionState::Broken
        } else {
            ConnectionState::Connected
        },
{
    if inbound_closed {
        ConnectionState::Broken
    } else {
        ConnectionState::Connected
    }
}

/// One agent with all that belongs to it. Each subsystem borrows the record
/// for the time of one step.
#[derive(Debug)]
pub struct Agent {
    pub drone: Drone,
    /// The session, from a successful handshake until disconnect.
    pub connection: Option<Connection>,
    /// The mission, from its request until the end is acknowledged.
    pub mission: Option<Mission>,
}

impl Agent {
    /// Only an agent with a session has a mission.
    pub open spec fn wf(&self) -> bool {
        self.mission is Some ==> self.connection is Some
    }

    /// The identity of the agent's session, if it has one.
    pub open spec fn session_id(&self) -> Option<u8> {
        match self.connection {
            Some(connection) => Some(connection.system_id),
            None => None,
        }
    }

    /// The record of an agent that has neither session nor mission.
    pub fn new(drone: Drone) -> (agent: Agent)
        ensures
            agent.drone == drone,
            agent.connection is None,
            agent.mission is None,
            agent.wf(),
    {
        Agent { drone, connection: None, mission: None }
    }

    /// Gives the agent the session of a successful handshake, in place of
    /// the one that it had, if any.
    pub fn attach(&mut self, connection: Connection)
        ensures
            final(self).drone == old(self).drone,
            final(self).connection == Some(connection),
            final(self).mission == old(self).mission,
            final(self).wf(),
    {
        self.connection = Some(connection);
    }

    /// What has become of the agent's session. Whether its link is up
    /// shows in the inbound channel ([`link_state`]).
    pub fn connection_state(&self) -> (state: ConnectionState)
        ensures
            state == ConnectionState::Disconnected <==> self.connection is None,
    {
        match &self.connection {
            None => ConnectionState::Disconnected,
            Some(connection) => link_state(is_closed(&connection.receiver)),
        }
    }

    /// Ends the agent's session on the operator's wish: offers `Unregister`
    /// to the session, closes its inbound channel and drops it, and with it
    /// the mission. The result is the farewell and whether the channel took
    /// it; to an agent without a session nothing is sent.
    pub fn on_disconnect(&mut self) -> (farewell: Option<Delivery>)
        ensures
            final(self).drone == old(self).drone,
            final(self).connection is None,
            final(self).wf(),
            offer_of(farewell) == if old(self).connection is Some {
                Some(ProtocolMessage::Unregister)
            } else {
                None::<ProtocolMessage>
            },
            final(self).mission is None,
    {
        self.mission = None;
        match self.connection.take() {
            Some(connection) => {
                let mut connection = connection;
                let accepted = try_send(&connection.sender, ProtocolMessage::Unregister);
                close(&mut connection.receiver);
                Some(Delivery { message: ProtocolMessage::Unregister, accepted })
            },
            None => None,
        }
    }
}

} // verus!
