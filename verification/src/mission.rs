//! The mission of one agent: how it reacts to the messages that come in,
//! and how the agent moves towards its target while the mission is under way.
//!
//! An agent without a mission is idle; there is no state for that.

use vstd::prelude::*;
use crate::agent::Agent;
use crate::channel::{try_recv, try_send};
use crate::clock::{is_due, period_over};
use crate::connection::{Connection, CHANNEL_CAPACITY};
use crate::coordinates::Coordinates;
use crate::fleet::{announce, round_of, Notice};
use crate::flight::{
    advance_axis, axis_distance, is_within_step, lemma_flight_ends, step_for, step_over, Flight,
};
use crate::message::{Delivery, ProtocolMessage, offer_of, offered};

verus! {

#[derive(Clone, Copy, Debug, PartialEq, Eq, Structural)]
pub enum MissionState {
    /// `MissionAccept` was sent; its acknowledgment is awaited.
    AwaitingAcceptAck,
    /// The agent is on its way to the target.
    Ongoing,
    /// `MissionFinished` was sent; its acknowledgment is awaited.
    AwaitingFinishedAck,
}

/// A mission that an agent has taken.
#[derive(Clone, Debug)]
pub struct Mission {
    pub state: MissionState,
    pub target: Coordinates,
    /// Points to pass on the way. Nothing fills it yet.
    pub waypoints: Vec<Coordinates>,
}

/// What a [`Mission`] is, with its waypoints as a sequence.
pub struct MissionView {
    pub state: MissionState,
    pub target: Coordinates,
    pub waypoints: Seq<Coordinates>,
}

impl View for Mission {
    type V = MissionView;

    open spec fn view(&self) -> MissionView {
        MissionView { state: self.state, target: self.target, waypoints: self.waypoints@ }
    }
}

/// The view of an agent's mission, if it has one.
pub open spec fn mission_view(mission: Option<Mission>) -> Option<MissionView> {
    match mission {
        Some(m) => Some(m@),
        None => None,
    }
}

/// How the mission layer answered one inbound message.
#[derive(Clone, Copy, Debug, PartialEq, Eq, Structural)]
pub enum Reaction {
    /// A requested mission was taken: `MissionAccept` is due.
    Accepted,
    /// The acceptance was acknowledged: the mission is under way.
    Started,
    /// An acknowledgment of acceptance came while none was awaited.
    UnexpectedAck,
    /// The end of the mission was acknowledged: the agent is idle again.
    Cleared,
    /// The message asks nothing of the mission layer in this state.
    Ignored,
}

/// The reaction to `message` of an agent whose mission is `mission`.
pub open spec fn reaction_to(mission: Option<MissionView>, message: ProtocolMessage) -> Reaction {
    match message {
        ProtocolMessage::MissionRequest { .. } => if mission is None {
            Reaction::Accepted
        } else {
            Reaction::Ignored
        },
        ProtocolMessage::MissionAcceptAck => if mission is Some
            && mission->0.state == MissionState::AwaitingAcceptAck {
            Reaction::Started
        } else {
            Reaction::UnexpectedAck
        },
        ProtocolMessage::MissionFinishedAck => Reaction::Cleared,
        _ => Reaction::Ignored,
    }
}

/// The mission of an agent after `message`, when it was `mission` before.
pub open spec fn mission_after(mission: Option<MissionView>, message: ProtocolMessage) -> Option<
    MissionView,
> {
    match reaction_to(mission, message) {
        Reaction::Accepted => Some(
            MissionView {
                state: MissionState::AwaitingAcceptAck,
                target: Coordinates {
                    latitude: message->target_latitude,
                    longitude: message->target_longitude,
                },
                waypoints: Seq::empty(),
            },
        ),
        Reaction::Started => Some(
            MissionView {
                state: MissionState::Ongoing,
                target: mission->0.target,
                waypoints: mission->0.waypoints,
            },
        ),
        Reaction::Cleared => None,
        Reaction::UnexpectedAck => mission,
        Reaction::Ignored => mission,
    }
}

/// The message that an agent sends back after reacting.
pub open spec fn reply_to(reaction: Reaction) -> Option<ProtocolMessage> {
    if reaction == Reaction::Accepted {
        Some(ProtocolMessage::MissionAccept)
    } else {
        None
    }
}

/// The mission after a run of messages, handled in order.
pub open spec fn mission_after_all(mission: Option<MissionView>, messages: Seq<ProtocolMessage>)
    -> Option<MissionView>
    decreases messages.len(),
{
    if messages.len() == 0 {
        mission
    } else {
        mission_after(mission_after_all(mission, messages.drop_last()), messages.last())
    }
}

/// The replies that a run of messages draws, in order.
pub open spec fn replies_to_all(mission: Option<MissionView>, messages: Seq<ProtocolMessage>)
    -> Seq<ProtocolMessage>
    decreases messages.len(),
{
    if messages.len() == 0 {
        Seq::empty()
    } else {
        let before = mission_after_all(mission, messages.drop_last());
        let earlier = replies_to_all(mission, messages.drop_last());
        match reply_to(reaction_to(before, messages.last())) {
            Some(reply) => earlier.push(reply),
            None => earlier,
        }
    }
}

/// The reactions to a run of messages, in order.
pub open spec fn reactions_to_all(mission: Option<MissionView>, messages: Seq<ProtocolMessage>)
    -> Seq<Reaction>
    decreases messages.len(),
{
    if messages.len() == 0 {
        Seq::empty()
    } else {
        reactions_to_all(mission, messages.drop_last()).push(
            reaction_to(mission_after_all(mission, messages.drop_last()), messages.last()),
        )
    }
}

/// Reacts to one inbound message: changes the mission as the protocol asks
/// and says what happened. The caller sends [`reply_to`] of the reaction.
pub fn on_message(mission: &mut Option<Mission>, message: ProtocolMessage) -> (reaction: Reaction)
    ensures
        reaction == reaction_to(mission_view(*old(mission)), message),
        mission_view(*final(mission)) == mission_after(mission_view(*old(mission)), message),
{
    match message {
        ProtocolMessage::MissionRequest { target_latitude, target_longitude } => {
            if mission.is_some() {
                Reaction::Ignored
            } else {
                *mission = Some(
                    Mission {
                        state: MissionState::AwaitingAcceptAck,
                        target: Coordinates {
                            latitude: target_latitude,
                            longitude: target_longitude,
                        },
                        waypoints: Vec::new(),
                    },
                );
                Reaction::Accepted
            }
        },
        ProtocolMessage::MissionAcceptAck => {
            match mission {
                Some(m) => {
                    if m.state == MissionState::AwaitingAcceptAck {
                        m.state = MissionState::Ongoing;
                        Reaction::Started
                    } else {
                        Reaction::UnexpectedAck
                    }
                },
                None => Reaction::UnexpectedAck,
            }
        },
        ProtocolMessage::MissionFinishedAck => {
            *mission = None;
            Reaction::Cleared
        },
        ProtocolMessage::Register { .. } => Reaction::Ignored,
        ProtocolMessage::RegisterAck { .. } => Reaction::Ignored,
        ProtocolMessage::Unregister => Reaction::Ignored,
        ProtocolMessage::Heartbeat { .. } => Reaction::Ignored,
        ProtocolMessage::HeartbeatAck => Reaction::Ignored,
        ProtocolMessage::MissionAccept => Reaction::Ignored,
        ProtocolMessage::MissionUpdate { .. } => Reaction::Ignored,
        ProtocolMessage::MissionFinished => Reaction::Ignored,
    }
}

/// Acknowledgments of acceptance that come while the mission is under way
/// change nothing and draw no reply, however many they are: no second
/// `MissionAccept` goes out, and the mission does not fall back.
pub proof fn lemma_repeated_acks(mission: MissionView, messages: Seq<ProtocolMessage>)
    requires
        mission.state == MissionState::Ongoing,
        forall|i: int| 0 <= i < messages.len() ==> messages[i] == ProtocolMessage::MissionAcceptAck,
    ensures
        mission_after_all(Some(mission), messages) == Some(mission),
        replies_to_all(Some(mission), messages) == Seq::<ProtocolMessage>::empty(),
    decreases messages.len(),
{
    if messages.len() > 0 {
        lemma_repeated_acks(mission, messages.drop_last());
    }
}

/// The first acknowledgment of acceptance starts the mission, and a second
/// one right after it changes nothing; neither draws a reply.
pub proof fn lemma_second_ack(mission: MissionView)
    requires
        mission.state == MissionState::AwaitingAcceptAck,
    ensures
        ({
            let ack = ProtocolMessage::MissionAcceptAck;
            let started = mission_after(Some(mission), ack);
            &&& started == Some(
                MissionView {
                    state: MissionState::Ongoing,
                    target: mission.target,
                    waypoints: mission.waypoints,
                },
            )
            &&& mission_after(started, ack) == started
            &&& reaction_to(started, ack) == Reaction::UnexpectedAck
            &&& reply_to(reaction_to(Some(mission), ack)) is None
            &&& reply_to(reaction_to(started, ack)) is None
        }),
{
}

/// The life of a mission. An idle agent that is asked to fly to `target`
/// takes the mission and answers `MissionAccept`; the acknowledgment starts
/// the flight and draws no reply; after as many rounds as cover the distance
/// on both axes, with a positive step, the mission awaits the acknowledgment
/// of its end and the arrival has been reported exactly once; and that
/// acknowledgment leaves the agent idle again, without a reply. So the
/// mission passes `AwaitingAcceptAck`, `Ongoing` and `AwaitingFinishedAck`
/// in this order, and one `MissionAccept` goes out before one
/// `MissionFinished`.
pub proof fn lemma_mission_round_trip(
    position: Coordinates,
    target: Coordinates,
    step: int,
    rounds: nat,
)
    requires
        step > 0,
        rounds >= 1,
        rounds * step >= axis_distance(position.latitude as int, target.latitude as int),
        rounds * step >= axis_distance(position.longitude as int, target.longitude as int),
    ensures
        ({
            let request = ProtocolMessage::MissionRequest {
                target_latitude: target.latitude,
                target_longitude: target.longitude,
            };
            let requested = mission_after(None, request);
            let started = mission_after(requested, ProtocolMessage::MissionAcceptAck);
            let departure = Flight { position, mission: started };
            let arrival = departure.after_rounds(step, rounds);
            &&& requested == Some(
                MissionView {
                    state: MissionState::AwaitingAcceptAck,
                    target,
                    waypoints: Seq::empty(),
                },
            )
            &&& reply_to(reaction_to(None, request)) == Some(ProtocolMessage::MissionAccept)
            &&& started == Some(
                MissionView { state: MissionState::Ongoing, target, waypoints: Seq::empty() },
            )
            &&& reply_to(reaction_to(requested, ProtocolMessage::MissionAcceptAck)) is None
            &&& arrival.mission == Some(
                MissionView {
                    state: MissionState::AwaitingFinishedAck,
                    target,
                    waypoints: Seq::empty(),
                },
            )
            &&& departure.arrivals(step, rounds) == 1
            &&& mission_after(arrival.mission, ProtocolMessage::MissionFinishedAck) is None
            &&& reply_to(reaction_to(arrival.mission, ProtocolMessage::MissionFinishedAck)) is None
        }),
{
    let started = MissionView { state: MissionState::Ongoing, target, waypoints: Seq::empty() };
    lemma_flight_ends(Flight { position, mission: Some(started) }, step, rounds);
}

/// Computes [`reply_to`].
pub fn reply_for(reaction: Reaction) -> (reply: Option<ProtocolMessage>)
    ensures
        reply == reply_to(reaction),
{
    match reaction {
        Reaction::Accepted => Some(ProtocolMessage::MissionAccept),
        Reaction::Started => None,
        Reaction::UnexpectedAck => None,
        Reaction::Cleared => None,
        Reaction::Ignored => None,
    }
}

/// What one round took out of a session and answered.
#[derive(Debug)]
pub struct Intake {
    /// The messages taken from the session's inbound channel, in order.
    pub received: Vec<ProtocolMessage>,
    /// The reaction to each of them.
    pub reactions: Vec<Reaction>,
    /// The replies offered to its outbound channel, in order.
    pub replies: Vec<Delivery>,
}

/// What a round of [`system_mission_updater`] does to one agent: it takes
/// no more messages than the inbound channel holds, only from an agent with
/// a session; the mission is what these messages make of it, one after the
/// other; each reaction is reported; and the replies that they draw are
/// offered in the same order.
pub open spec fn intake_of(before: Agent, after: Agent, intake: Intake) -> bool {
    &&& after.drone == before.drone
    &&& after.session_id() == before.session_id()
    &&& intake.received@.len() <= CHANNEL_CAPACITY
    &&& before.connection is None ==> intake.received@.len() == 0
    &&& mission_view(after.mission) == mission_after_all(
        mission_view(before.mission),
        intake.received@,
    )
    &&& intake.reactions@ == reactions_to_all(mission_view(before.mission), intake.received@)
    &&& offered(intake.replies@) == replies_to_all(mission_view(before.mission), intake.received@)
}

/// A round of the mission layer leaves no agent with a mission but without
/// a session.
pub proof fn lemma_intake_keeps_wf(before: Agent, after: Agent, intake: Intake)
    requires
        before.wf(),
        intake_of(before, after, intake),
    ensures
        after.wf(),
{
}

/// Takes what waits in a session's inbound channel, up to the channel's
/// capacity, and lets the mission react to each message in turn.
fn drain(connection: &mut Connection, mission: &mut Option<Mission>) -> (intake: Intake)
    ensures
        final(connection).system_id == old(connection).system_id,
        intake.received@.len() <= CHANNEL_CAPACITY,
        mission_view(*final(mission)) == mission_after_all(
            mission_view(*old(mission)),
            intake.received@,
        ),
        intake.reactions@ == reactions_to_all(mission_view(*old(mission)), intake.received@),
        offered(intake.replies@) == replies_to_all(mission_view(*old(mission)), intake.received@),
{
    let ghost start = mission_view(*mission);
    let mut received: Vec<ProtocolMessage> = Vec::new();
    let mut reactions: Vec<Reaction> = Vec::new();
    let mut replies: Vec<Delivery> = Vec::new();
    let mut budget: usize = CHANNEL_CAPACITY;
    assert(offered(replies@) =~= replies_to_all(start, received@));
    while budget > 0
        invariant
            connection.system_id == old(connection).system_id,
            received@.len() + budget <= CHANNEL_CAPACITY,
            mission_view(*mission) == mission_after_all(start, received@),
            reactions@ == reactions_to_all(start, received@),
            offered(replies@) == replies_to_all(start, received@),
        decreases budget,
    {
        match try_recv(&mut connection.receiver) {
            None => {
                break ;
            },
            Some(message) => {
                let ghost earlier = received@;
                let ghost answered = replies@;
                let reaction = on_message(mission, message);
                received.push(message);
                reactions.push(reaction);
                assert(received@.drop_last() =~= earlier);
                match reply_for(reaction) {
                    Some(reply) => {
                        let accepted = try_send(&connection.sender, reply);
                        replies.push(Delivery { message: reply, accepted });
                        assert(offered(replies@) =~= offered(answered).push(reply));
                    },
                    None => {},
                }
                budget = budget - 1;
            },
        }
    }
    Intake { received, reactions, replies }
}

/// One round of the mission layer for one agent.
fn attend(agent: &mut Agent) -> (intake: Intake)
    ensures
        intake_of(*old(agent), *final(agent), intake),
{
    match &mut agent.connection {
        Some(connection) => drain(connection, &mut agent.mission),
        None => {
            let intake = Intake {
                received: Vec::new(),
                reactions: Vec::new(),
                replies: Vec::new(),
            };
            assert(offered(intake.replies@) =~= Seq::<ProtocolMessage>::empty());
            intake
        },
    }
}

/// One round of the mission layer: for every agent with a session, takes
/// the messages that wait in the session's inbound channel and reacts to
/// each ([`on_message`]), offering the reply to the outbound channel where
/// one is due. The result has one entry per agent, in the fleet's order.
///
/// A round takes at most [`CHANNEL_CAPACITY`] messages from one session, so
/// that it ends even while the read pump keeps writing; what comes later
/// waits for the next round.
pub fn system_mission_updater(agents: &mut Vec<Agent>) -> (report: Vec<Intake>)
    ensures
        final(agents).len() == old(agents).len(),
        report.len() == old(agents).len(),
        forall|i: int|
            0 <= i < old(agents).len() ==> intake_of(
                old(agents)[i],
                final(agents)[i],
                #[trigger] report[i],
            ),
{
    let mut report: Vec<Intake> = Vec::new();
    let mut i: usize = 0;
    while i < agents.len()
        invariant
            i <= agents.len(),
            agents.len() == old(agents).len(),
            report.len() == i,
            forall|j: int| i <= j < agents.len() ==> agents[j] == old(agents)[j],
            forall|j: int|
                0 <= j < i ==> intake_of(old(agents)[j], agents[j], #[trigger] report[j]),
        decreases agents.len() - i,
    {
        let agent = &mut agents[i];
        let intake = attend(agent);
        report.push(intake);
        i = i + 1;
    }
    report
}

/// The flight of an agent: where it is, and the mission that it has.
pub open spec fn flight(agent: Agent) -> Flight {
    Flight { position: agent.drone.coordinates, mission: mission_view(agent.mission) }
}

/// What a round of [`system_mission_update_coordinates`] does to one agent.
/// With a session its flight goes on by one round ([`Flight::after`]), and
/// its arrival is reported to the session with `MissionFinished`; without
/// one it stays as it is.
pub open spec fn flight_of(before: Agent, after: Agent, delivery: Option<Delivery>, step: int)
    -> bool {
    &&& after.connection == before.connection
    &&& after.drone.agent_id == before.drone.agent_id
    &&& after.drone.state == before.drone.state
    &&& if before.connection is Some {
        &&& flight(after) == flight(before).after(step)
        &&& offer_of(delivery) == if flight(before).arrives(step) {
            Some(ProtocolMessage::MissionFinished)
        } else {
            None::<ProtocolMessage>
        }
    } else {
        &&& flight(after) == flight(before)
        &&& delivery is None
    }
}

/// A round of flight leaves no agent with a mission but without a
/// session, and takes no mission away.
pub proof fn lemma_flight_keeps_wf(before: Agent, after: Agent, delivery: Option<Delivery>, step: int)
    requires
        before.wf(),
        flight_of(before, after, delivery, step),
    ensures
        after.wf(),
        after.mission is Some <==> before.mission is Some,
{
}

/// One round of flight for one agent.
fn fly(agent: &mut Agent, step: u64) -> (delivery: Option<Delivery>)
    ensures
        flight_of(*old(agent), *final(agent), delivery, step as int),
{
    match (&agent.connection, &mut agent.mission) {
        (Some(connection), Some(mission)) => {
            if mission.state != MissionState::Ongoing {
                return None;
            }
            let target = mission.target;
            let latitude = advance_axis(agent.drone.coordinates.latitude, target.latitude, step);
            let longitude = advance_axis(
                agent.drone.coordinates.longitude,
                target.longitude,
                step,
            );
            agent.drone.coordinates = Coordinates { latitude, longitude };
            if is_within_step(&agent.drone.coordinates, &target, step) {
                mission.state = MissionState::AwaitingFinishedAck;
                let accepted = try_send(&connection.sender, ProtocolMessage::MissionFinished);
                Some(Delivery { message: ProtocolMessage::MissionFinished, accepted })
            } else {
                None
            }
        },
        _ => None,
    }
}

/// One round of flight over the time `elapsed_micros`: every agent that has
/// a session and whose mission is under way moves by [`step_over`] that time
/// towards its target, on each axis by the step or, where less is left, onto
/// the target. An agent that is then within a step of the target on both
/// axes has arrived: its mission awaits the acknowledgment of its end, and
/// `MissionFinished` is offered to its session. The result has one entry per
/// agent, in the fleet's order.
pub fn system_mission_update_coordinates(agents: &mut Vec<Agent>, elapsed_micros: u64) -> (report:
    Vec<Option<Delivery>>)
    ensures
        final(agents).len() == old(agents).len(),
        report.len() == old(agents).len(),
        forall|i: int|
            0 <= i < old(agents).len() ==> flight_of(
                old(agents)[i],
                final(agents)[i],
                #[trigger] report[i],
                step_over(elapsed_micros as int),
            ),
{
    let step = step_for(elapsed_micros);
    let mut report: Vec<Option<Delivery>> = Vec::new();
    let mut i: usize = 0;
    while i < agents.len()
        invariant
            i <= agents.len(),
            agents.len() == old(agents).len(),
            report.len() == i,
            forall|j: int| i <= j < agents.len() ==> agents[j] == old(agents)[j],
            forall|j: int|
                0 <= j < i ==> flight_of(
                    old(agents)[j],
                    agents[j],
                    #[trigger] report[j],
                    step as int,
                ),
        decreases agents.len() - i,
    {
        let agent = &mut agents[i];
        let delivery = fly(agent, step);
        report.push(delivery);
        i = i + 1;
    }
    report
}

/// Remembers when the mission updates last went out.
#[derive(Clone, Copy, Debug)]
pub struct MissionUpdateTimer {
    last_time: u64,
}

impl MissionUpdateTimer {
    /// The reading of the clock at which the updates last went out.
    pub closed spec fn last(&self) -> int {
        self.last_time as int
    }

    /// A timer that counts from `now`.
    pub fn new(now: u64) -> (timer: MissionUpdateTimer)
        ensures
            timer.last() == now,
    {
        MissionUpdateTimer { last_time: now }
    }

    /// Computes [`Self::last`].
    pub fn last_time(&self) -> (last: u64)
        ensures
            last == self.last(),
    {
        self.last_time
    }
}

impl Default for MissionUpdateTimer {
    /// A timer that counts from the clock's origin.
    fn default() -> (timer: MissionUpdateTimer)
        ensures
            timer.last() == 0,
    {
        MissionUpdateTimer { last_time: 0 }
    }
}

/// Sends the mission updates if a period has passed since the last ones:
/// offers to the session of every agent whose mission is under way a
/// `MissionUpdate` with the agent's position, and counts the next period
/// from `now`. Before that it does nothing. The result has one entry per
/// agent when the updates went out, and none otherwise.
pub fn system_mission_update_sender(
    timer: &mut MissionUpdateTimer,
    now: u64,
    agents: &Vec<Agent>,
) -> (updates: Vec<Option<Delivery>>)
    ensures
        period_over(old(timer).last(), now as int) ==> final(timer).last() == now && round_of(
            Notice::MissionUpdate,
            agents@,
            updates@,
        ),
        !period_over(old(timer).last(), now as int) ==> final(timer).last() == old(timer).last()
            && updates@.len() == 0,
{
    if is_due(timer.last_time, now) {
        let updates = announce(Notice::MissionUpdate, agents);
        timer.last_time = now;
        updates
    } else {
        Vec::new()
    }
}

} // verus!
