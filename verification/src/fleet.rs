//! What the periodic senders have in common: one message per agent, offered
//! to the agent's session.

use vstd::prelude::*;
use crate::agent::Agent;
use crate::channel::try_send;
use crate::message::{Delivery, ProtocolMessage, offer_of};
use crate::mission::MissionState;

verus! {

/// The kinds of message that go out to the whole fleet at once.
#[derive(Clone, Copy, Debug, PartialEq, Eq, Structural)]
pub enum Notice {
    Heartbeat,
    MissionUpdate,
}

/// The heartbeat of an agent: its position, if it has a session.
pub open spec fn heartbeat_of(agent: Agent) -> Option<ProtocolMessage> {
    if agent.connection is Some {
        Some(
            ProtocolMessage::Heartbeat {
                latitude: agent.drone.coordinates.latitude,
                longitude: agent.drone.coordinates.longitude,
            },
        )
    } else {
        None
    }
}

/// The mission update of an agent: its position, if it has a session and
/// its mission is under way.
pub open spec fn update_of(agent: Agent) -> Option<ProtocolMessage> {
    if agent.connection is Some && agent.mission is Some && agent.mission->0.state
        == MissionState::Ongoing {
        Some(
            ProtocolMessage::MissionUpdate {
                current_latitude: agent.drone.coordinates.latitude,
                current_longitude: agent.drone.coordinates.longitude,
            },
        )
    } else {
        None
    }
}

/// The message of the given kind that is due to an agent.
pub open spec fn notice_of(kind: Notice, agent: Agent) -> Option<ProtocolMessage> {
    match kind {
        Notice::Heartbeat => heartbeat_of(agent),
        Notice::MissionUpdate => update_of(agent),
    }
}

/// Whether `deliveries` is one round of `kind` over `agents`: one entry per
/// agent, in the fleet's order, with the message that was due to it.
pub open spec fn round_of(kind: Notice, agents: Seq<Agent>, deliveries: Seq<Option<Delivery>>)
    -> bool {
    &&& deliveries.len() == agents.len()
    &&& forall|i: int|
        0 <= i < agents.len() ==> offer_of(#[trigger] deliveries[i]) == notice_of(kind, agents[i])
}

/// Computes [`notice_of`] for a mission update.
fn update_for(agent: &Agent) -> (message: Option<ProtocolMessage>)
    ensures
        message == update_of(*agent),
{
    if agent.connection.is_none() {
        return None;
    }
    match &agent.mission {
        Some(mission) => {
            if mission.state == MissionState::Ongoing {
                Some(
                    ProtocolMessage::MissionUpdate {
                        current_latitude: agent.drone.coordinates.latitude,
                        current_longitude: agent.drone.coordinates.longitude,
                    },
                )
            } else {
                None
            }
        },
        None => None,
    }
}

/// Computes [`notice_of`].
fn notice_for(kind: Notice, agent: &Agent) -> (message: Option<ProtocolMessage>)
    ensures
        message == notice_of(kind, *agent),
{
    match kind {
        Notice::Heartbeat => {
            if agent.connection.is_some() {
                Some(
                    ProtocolMessage::Heartbeat {
                        latitude: agent.drone.coordinates.latitude,
                        longitude: agent.drone.coordinates.longitude,
                    },
                )
            } else {
                None
            }
        },
        Notice::MissionUpdate => update_for(agent),
    }
}

/// Offers to the session of each agent the message of the given kind that
/// is due to it. A channel that is full or dead loses the message.
pub(crate) fn announce(kind: Notice, agents: &Vec<Agent>) -> (deliveries: Vec<Option<Delivery>>)
    ensures
        round_of(kind, agents@, deliveries@),
{
    let mut deliveries: Vec<Option<Delivery>> = Vec::new();
    let mut i: usize = 0;
    while i < agents.len()
        invariant
            i <= agents.len(),
            deliveries.len() == i,
            forall|j: int|
                0 <= j < i ==> offer_of(#[trigger] deliveries[j]) == notice_of(kind, agents[j]),
        decreases agents.len() - i,
    {
        let agent = &agents[i];
        let delivery = match (notice_for(kind, agent), &agent.connection) {
            (Some(message), Some(connection)) => {
                let accepted = try_send(&connection.sender, message);
                Some(Delivery { message, accepted })
            },
            _ => None,
        };
        deliveries.push(delivery);
        i = i + 1;
    }
    deliveries
}

} // verus!
