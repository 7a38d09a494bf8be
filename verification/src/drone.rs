//! An agent of the fleet as the operator sees it.

use vstd::prelude::*;
use crate::coordinates::Coordinates;

verus! {

/// Whether an agent is switched on.
#[derive(Clone, Copy, Debug, PartialEq, Eq, Structural)]
pub enum DroneState {
    Offline,
    Online,
}

impl DroneState {
    /// The state's name as text.
    pub open spec fn name(self) -> Seq<char> {
        match self {
            DroneState::Offline => "Offline"@,
            DroneState::Online => "Online"@,
        }
    }

    /// The state's name, for display.
    pub fn label(&self) -> (text: &'static str)
        ensures
            text@ == self.name(),
    {
        match self {
            DroneState::Offline => "Offline",
            DroneState::Online => "Online",
        }
    }
}

/// What has become of an agent's session.
#[derive(Clone, Copy, Debug, PartialEq, Eq, Structural)]
pub enum ConnectionState {
    /// The agent has no session.
    Disconnected,
    /// The agent has a session, and its link is up.
    Connected,
    /// The agent has a session, but its link has died.
    Broken,
}

impl ConnectionState {
    /// The state's name as text.
    pub open spec fn name(self) -> Seq<char> {
        match self {
            ConnectionState::Disconnected => "Disconnected"@,
            ConnectionState::Connected => "Connected"@,
            ConnectionState::Broken => "Broken"@,
        }
    }

    /// The state's name, for display.
    pub fn label(&self) -> (text: &'static str)
        ensures
            text@ == self.name(),
    {
        match self {
            ConnectionState::Disconnected => "Disconnected",
            ConnectionState::Connected => "Connected",
            ConnectionState::Broken => "Broken",
        }
    }
}

/// One agent: who it is, whether it is switched on, and where it is.
#[derive(Clone, Copy, Debug, PartialEq, Eq, Structural)]
pub struct Drone {
    pub agent_id: u32,
    pub state: DroneState,
    pub coordinates: Coordinates,
}

} // verus!
