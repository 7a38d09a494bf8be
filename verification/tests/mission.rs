use drone_fleet::agent::Agent;
use drone_fleet::connection::{open_session, CHANNEL_CAPACITY};
use drone_fleet::coordinates::Coordinates;
use drone_fleet::drone::Drone;
use drone_fleet::message::ProtocolMessage;
use drone_fleet::mission::{
    on_message, reply_for, system_mission_update_coordinates, system_mission_update_sender,
    system_mission_updater, Mission, MissionState, MissionUpdateTimer, Reaction,
};

fn request(latitude: i64, longitude: i64) -> ProtocolMessage {
    ProtocolMessage::MissionRequest { target_latitude: latitude, target_longitude: longitude }
}

fn drone_at(agent_id: u32, latitude: i64, longitude: i64) -> Drone {
    let mut drone = Drone::new(agent_id);
    drone.coordinates = Coordinates { latitude, longitude };
    drone
}

fn ongoing(latitude: i64, longitude: i64) -> Mission {
    Mission {
        state: MissionState::Ongoing,
        target: Coordinates { latitude, longitude },
        waypoints: vec![],
    }
}

#[test]
fn request_without_mission_is_accepted() {
    let mut mission: Option<Mission> = None;
    let reaction = on_message(&mut mission, request(38_760_000_000, -9_110_000_000));
    assert_eq!(reaction, Reaction::Accepted);
    assert_eq!(reply_for(reaction), Some(ProtocolMessage::MissionAccept));
    let mission = mission.unwrap();
    assert_eq!(mission.state, MissionState::AwaitingAcceptAck);
    assert_eq!(mission.target, Coordinates { latitude: 38_760_000_000, longitude: -9_110_000_000 });
    assert!(mission.waypoints.is_empty());
}

#[test]
fn request_with_mission_is_ignored() {
    let mut mission = Some(ongoing(1, 2));
    let reaction = on_message(&mut mission, request(3, 4));
    assert_eq!(reaction, Reaction::Ignored);
    assert_eq!(reply_for(reaction), None);
    let mission = mission.unwrap();
    assert_eq!(mission.state, MissionState::Ongoing);
    assert_eq!(mission.target, Coordinates { latitude: 1, longitude: 2 });
}

#[test]
fn accept_ack_starts_the_mission() {
    let mut mission: Option<Mission> = None;
    on_message(&mut mission, request(5, 6));
    let reaction = on_message(&mut mission, ProtocolMessage::MissionAcceptAck);
    assert_eq!(reaction, Reaction::Started);
    assert_eq!(reply_for(reaction), None);
    let mission = mission.unwrap();
    assert_eq!(mission.state, MissionState::Ongoing);
    assert_eq!(mission.target, Coordinates { latitude: 5, longitude: 6 });
}

#[test]
fn accept_ack_without_mission_is_an_anomaly() {
    let mut mission: Option<Mission> = None;
    let reaction = on_message(&mut mission, ProtocolMessage::MissionAcceptAck);
    assert_eq!(reaction, Reaction::UnexpectedAck);
    assert!(mission.is_none());
}

#[test]
fn duplicate_accept_acks_change_nothing() {
    let mut mission = Some(ongoing(7, 8));
    for _ in 0..2 {
        let reaction = on_message(&mut mission, ProtocolMessage::MissionAcceptAck);
        assert_eq!(reaction, Reaction::UnexpectedAck);
        assert_eq!(reply_for(reaction), None);
        assert_eq!(mission.as_ref().unwrap().state, MissionState::Ongoing);
        assert_eq!(mission.as_ref().unwrap().target, Coordinates { latitude: 7, longitude: 8 });
    }
}

#[test]
fn accept_ack_while_awaiting_the_end_is_an_anomaly() {
    let mut mission = Some(Mission {
        state: MissionState::AwaitingFinishedAck,
        target: Coordinates { latitude: 1, longitude: 1 },
        waypoints: vec![],
    });
    let reaction = on_message(&mut mission, ProtocolMessage::MissionAcceptAck);
    assert_eq!(reaction, Reaction::UnexpectedAck);
    assert_eq!(mission.unwrap().state, MissionState::AwaitingFinishedAck);
}

#[test]
fn finished_ack_removes_the_mission_in_every_state() {
    for state in [
        MissionState::AwaitingAcceptAck,
        MissionState::Ongoing,
        MissionState::AwaitingFinishedAck,
    ] {
        let mut mission = Some(Mission {
            state,
            target: Coordinates { latitude: 9, longitude: 9 },
            waypoints: vec![],
        });
        let reaction = on_message(&mut mission, ProtocolMessage::MissionFinishedAck);
        assert_eq!(reaction, Reaction::Cleared);
        assert!(mission.is_none());
    }
    let mut idle: Option<Mission> = None;
    assert_eq!(on_message(&mut idle, ProtocolMessage::MissionFinishedAck), Reaction::Cleared);
    assert!(idle.is_none());
}

#[test]
fn other_messages_leave_the_mission_alone() {
    let others = [
        ProtocolMessage::Register { agent_id: 1, latitude: 0, longitude: 0 },
        ProtocolMessage::RegisterAck { system_id: 3 },
        ProtocolMessage::Unregister,
        ProtocolMessage::Heartbeat { latitude: 0, longitude: 0 },
        ProtocolMessage::HeartbeatAck,
        ProtocolMessage::MissionAccept,
        ProtocolMessage::MissionUpdate { current_latitude: 0, current_longitude: 0 },
        ProtocolMessage::MissionFinished,
    ];
    for message in others {
        let mut mission = Some(ongoing(4, 4));
        assert_eq!(on_message(&mut mission, message), Reaction::Ignored);
        assert_eq!(mission.unwrap().state, MissionState::Ongoing);
        let mut idle: Option<Mission> = None;
        assert_eq!(on_message(&mut idle, message), Reaction::Ignored);
        assert!(idle.is_none());
    }
}

#[test]
fn agent_seven_accepts_its_mission() {
    let (connection, mut pumps) = open_session(1);
    let mut agent = Agent::new(drone_at(7, 38_756_000_000, -9_114_000_000));
    agent.attach(connection);
    let mut agents = vec![agent];
    pumps.incoming.try_send(request(38_760_000_000, -9_110_000_000)).unwrap();

    let report = system_mission_updater(&mut agents);

    assert_eq!(report.len(), 1);
    assert_eq!(report[0].received, vec![request(38_760_000_000, -9_110_000_000)]);
    assert_eq!(report[0].replies.len(), 1);
    assert_eq!(report[0].replies[0].message, ProtocolMessage::MissionAccept);
    assert!(report[0].replies[0].accepted);
    assert_eq!(pumps.outgoing.try_recv().unwrap(), ProtocolMessage::MissionAccept);
    assert!(pumps.outgoing.try_recv().is_err());
    let mission = agents[0].mission.as_ref().unwrap();
    assert_eq!(mission.state, MissionState::AwaitingAcceptAck);
    assert_eq!(mission.target, Coordinates { latitude: 38_760_000_000, longitude: -9_110_000_000 });
    assert_eq!(agents[0].drone.coordinates, Coordinates {
        latitude: 38_756_000_000,
        longitude: -9_114_000_000,
    });
}

#[test]
fn mission_round_trip() {
    let (connection, mut pumps) = open_session(9);
    let mut agent = Agent::new(drone_at(7, 38_756_000_000, -9_114_000_000));
    agent.attach(connection);
    let mut agents = vec![agent];
    let target = Coordinates { latitude: 38_760_000_000, longitude: -9_110_000_000 };
    let mut states = Vec::new();
    let mut sent = Vec::new();

    pumps.incoming.try_send(request(target.latitude, target.longitude)).unwrap();
    system_mission_updater(&mut agents);
    states.push(agents[0].mission.as_ref().map(|m| m.state));
    while let Ok(message) = pumps.outgoing.try_recv() {
        sent.push(message);
    }

    pumps.incoming.try_send(ProtocolMessage::MissionAcceptAck).unwrap();
    system_mission_updater(&mut agents);
    states.push(agents[0].mission.as_ref().map(|m| m.state));

    // A round of one second covers 1_000_000 units, a thousandth of a
    // degree; there are four of them to go on each axis.
    let mut rounds = 0;
    while agents[0].mission.as_ref().unwrap().state == MissionState::Ongoing {
        system_mission_update_coordinates(&mut agents, 1_000_000);
        rounds += 1;
        assert!(rounds <= 4);
    }
    assert_eq!(rounds, 4);
    states.push(agents[0].mission.as_ref().map(|m| m.state));
    assert_eq!(agents[0].drone.coordinates, target);
    // Further rounds report nothing more.
    system_mission_update_coordinates(&mut agents, 1_000_000);
    while let Ok(message) = pumps.outgoing.try_recv() {
        sent.push(message);
    }

    pumps.incoming.try_send(ProtocolMessage::MissionFinishedAck).unwrap();
    system_mission_updater(&mut agents);
    states.push(agents[0].mission.as_ref().map(|m| m.state));
    while let Ok(message) = pumps.outgoing.try_recv() {
        sent.push(message);
    }

    assert_eq!(states, vec![
        Some(MissionState::AwaitingAcceptAck),
        Some(MissionState::Ongoing),
        Some(MissionState::AwaitingFinishedAck),
        None,
    ]);
    assert_eq!(sent, vec![ProtocolMessage::MissionAccept, ProtocolMessage::MissionFinished]);
}

#[test]
fn messages_of_one_round_are_handled_in_order() {
    let (connection, mut pumps) = open_session(2);
    let mut agent = Agent::new(Drone::new(1));
    agent.attach(connection);
    let mut agents = vec![agent];
    pumps.incoming.try_send(request(10, 20)).unwrap();
    pumps.incoming.try_send(request(30, 40)).unwrap();
    pumps.incoming.try_send(ProtocolMessage::MissionAcceptAck).unwrap();
    pumps.incoming.try_send(ProtocolMessage::MissionAcceptAck).unwrap();

    let report = system_mission_updater(&mut agents);

    assert_eq!(report[0].received.len(), 4);
    assert_eq!(report[0].replies.len(), 1);
    let mission = agents[0].mission.as_ref().unwrap();
    assert_eq!(mission.state, MissionState::Ongoing);
    assert_eq!(mission.target, Coordinates { latitude: 10, longitude: 20 });
    assert_eq!(pumps.outgoing.try_recv().unwrap(), ProtocolMessage::MissionAccept);
    assert!(pumps.outgoing.try_recv().is_err());
}

#[test]
fn updater_skips_agents_without_session() {
    let (connection, pumps) = open_session(2);
    let mut linked = Agent::new(Drone::new(2));
    linked.attach(connection);
    let mut agents = vec![Agent::new(Drone::new(1)), linked];
    pumps.incoming.try_send(request(1, 1)).unwrap();

    let report = system_mission_updater(&mut agents);

    assert_eq!(report.len(), 2);
    assert!(report[0].received.is_empty());
    assert!(report[0].replies.is_empty());
    assert!(agents[0].mission.is_none());
    assert_eq!(report[1].received.len(), 1);
    assert!(agents[1].mission.is_some());
}

#[test]
fn updater_takes_a_full_channel_in_one_round() {
    let (connection, pumps) = open_session(2);
    let mut agent = Agent::new(Drone::new(1));
    agent.attach(connection);
    let mut agents = vec![agent];
    for _ in 0..CHANNEL_CAPACITY {
        pumps.incoming.try_send(ProtocolMessage::MissionAcceptAck).unwrap();
    }
    assert!(pumps.incoming.try_send(ProtocolMessage::MissionAcceptAck).is_err());

    let report = system_mission_updater(&mut agents);

    assert_eq!(report[0].received.len(), CHANNEL_CAPACITY);
    assert!(report[0].replies.is_empty());
    assert!(agents[0].mission.is_none());
    assert!(system_mission_updater(&mut agents)[0].received.is_empty());
}

#[test]
fn lost_reply_does_not_stop_the_mission() {
    let (connection, pumps) = open_session(2);
    let mut agent = Agent::new(Drone::new(1));
    agent.attach(connection);
    let mut agents = vec![agent];
    // The write pump is gone: the outbound channel is dead.
    drop(pumps.outgoing);
    pumps.incoming.try_send(request(1, 1)).unwrap();

    let report = system_mission_updater(&mut agents);

    assert_eq!(report[0].replies.len(), 1);
    assert_eq!(report[0].replies[0].message, ProtocolMessage::MissionAccept);
    assert!(!report[0].replies[0].accepted);
    assert_eq!(agents[0].mission.as_ref().unwrap().state, MissionState::AwaitingAcceptAck);
}

#[test]
fn flight_moves_only_ongoing_missions_with_session() {
    let (connection, mut pumps) = open_session(2);
    let mut waiting = Agent::new(drone_at(1, 0, 0));
    waiting.attach(connection);
    waiting.mission = Some(Mission {
        state: MissionState::AwaitingAcceptAck,
        target: Coordinates { latitude: 100, longitude: 100 },
        waypoints: vec![],
    });
    let mut unlinked = Agent::new(drone_at(2, 0, 0));
    unlinked.mission = Some(ongoing(100, 100));
    let idle = Agent::new(drone_at(3, 5, 5));
    let mut agents = vec![waiting, unlinked, idle];

    let report = system_mission_update_coordinates(&mut agents, 10);

    assert_eq!(report, vec![None, None, None]);
    assert_eq!(agents[0].drone.coordinates, Coordinates { latitude: 0, longitude: 0 });
    assert_eq!(agents[0].mission.as_ref().unwrap().state, MissionState::AwaitingAcceptAck);
    assert_eq!(agents[1].drone.coordinates, Coordinates { latitude: 0, longitude: 0 });
    assert_eq!(agents[1].mission.as_ref().unwrap().state, MissionState::Ongoing);
    assert_eq!(agents[2].drone.coordinates, Coordinates { latitude: 5, longitude: 5 });
    assert!(pumps.outgoing.try_recv().is_err());
}

#[test]
fn flight_steps_each_axis_and_reports_arrival() {
    let (connection, mut pumps) = open_session(2);
    let mut agent = Agent::new(drone_at(1, 0, 100));
    agent.attach(connection);
    agent.mission = Some(ongoing(25, 70));
    let mut agents = vec![agent];

    // Step 10: latitude 0 -> 10, longitude 100 -> 90.
    let report = system_mission_update_coordinates(&mut agents, 10);
    assert_eq!(report, vec![None]);
    assert_eq!(agents[0].drone.coordinates, Coordinates { latitude: 10, longitude: 90 });
    assert_eq!(agents[0].mission.as_ref().unwrap().state, MissionState::Ongoing);

    // 10 -> 20, 90 -> 80: latitude is 5 from the target, longitude 10: not
    // nearer than a step on both axes.
    let report = system_mission_update_coordinates(&mut agents, 10);
    assert_eq!(report, vec![None]);
    assert_eq!(agents[0].drone.coordinates, Coordinates { latitude: 20, longitude: 80 });
    assert_eq!(agents[0].mission.as_ref().unwrap().state, MissionState::Ongoing);

    // 20 -> 25 (on the target), 80 -> 70 (on the target): arrived.
    let report = system_mission_update_coordinates(&mut agents, 10);
    assert_eq!(report.len(), 1);
    let delivery = report[0].unwrap();
    assert_eq!(delivery.message, ProtocolMessage::MissionFinished);
    assert!(delivery.accepted);
    assert_eq!(agents[0].drone.coordinates, Coordinates { latitude: 25, longitude: 70 });
    assert_eq!(agents[0].mission.as_ref().unwrap().state, MissionState::AwaitingFinishedAck);
    assert_eq!(pumps.outgoing.try_recv().unwrap(), ProtocolMessage::MissionFinished);

    // Nothing moves or is sent while the acknowledgment is awaited.
    let report = system_mission_update_coordinates(&mut agents, 10);
    assert_eq!(report, vec![None]);
    assert!(pumps.outgoing.try_recv().is_err());
}

#[test]
fn flight_ends_within_a_step_of_the_target() {
    let (connection, _pumps) = open_session(2);
    let mut agent = Agent::new(drone_at(1, 0, 0));
    agent.attach(connection);
    agent.mission = Some(ongoing(15, 0));
    let mut agents = vec![agent];

    // One step of 10 leaves 5 to go, which is nearer than a step.
    let report = system_mission_update_coordinates(&mut agents, 10);
    assert_eq!(report[0].unwrap().message, ProtocolMessage::MissionFinished);
    assert_eq!(agents[0].drone.coordinates, Coordinates { latitude: 10, longitude: 0 });
    assert_eq!(agents[0].mission.as_ref().unwrap().state, MissionState::AwaitingFinishedAck);
}

#[test]
fn flight_with_no_time_passed_never_arrives() {
    let (connection, _pumps) = open_session(2);
    let mut agent = Agent::new(drone_at(1, 3, 3));
    agent.attach(connection);
    agent.mission = Some(ongoing(3, 3));
    let mut agents = vec![agent];

    let report = system_mission_update_coordinates(&mut agents, 0);
    assert_eq!(report, vec![None]);
    assert_eq!(agents[0].mission.as_ref().unwrap().state, MissionState::Ongoing);
}

#[test]
fn mission_updates_go_out_once_per_period() {
    let (connection, mut pumps) = open_session(2);
    let mut flying = Agent::new(drone_at(1, 11, 22));
    flying.attach(connection);
    flying.mission = Some(ongoing(100, 100));
    let (other, mut other_pumps) = open_session(3);
    let mut waiting = Agent::new(drone_at(2, 1, 1));
    waiting.attach(other);
    waiting.mission = Some(Mission {
        state: MissionState::AwaitingFinishedAck,
        target: Coordinates { latitude: 1, longitude: 1 },
        waypoints: vec![],
    });
    let agents = vec![flying, waiting, Agent::new(Drone::new(3))];
    let mut timer = MissionUpdateTimer::new(5_000_000);

    assert!(system_mission_update_sender(&mut timer, 5_999_999, &agents).is_empty());
    assert_eq!(timer.last_time(), 5_000_000);
    assert!(pumps.outgoing.try_recv().is_err());

    let updates = system_mission_update_sender(&mut timer, 6_000_000, &agents);
    assert_eq!(timer.last_time(), 6_000_000);
    assert_eq!(updates.len(), 3);
    let update = updates[0].unwrap();
    assert_eq!(update.message, ProtocolMessage::MissionUpdate {
        current_latitude: 11,
        current_longitude: 22,
    });
    assert!(update.accepted);
    assert_eq!(updates[1], None);
    assert_eq!(updates[2], None);
    assert_eq!(pumps.outgoing.try_recv().unwrap(), ProtocolMessage::MissionUpdate {
        current_latitude: 11,
        current_longitude: 22,
    });
    assert!(pumps.outgoing.try_recv().is_err());
    assert!(other_pumps.outgoing.try_recv().is_err());

    assert!(system_mission_update_sender(&mut timer, 6_500_000, &agents).is_empty());
    assert_eq!(MissionUpdateTimer::default().last_time(), 0);
}
