use alglobo::bully::{BullyState, State, LEADER_ELECTION_TIMEOUT_MS};
use alglobo::control_message::{ControlMessage, PeerId};
use alglobo::leader_election::LeaderElection;

/// Hands every datagram of `sends` addressed to `replica` to it, as the
/// network would, and returns what the replica sends back.
fn deliver(
    sends: &[(PeerId, ControlMessage)],
    from: PeerId,
    replica: &mut BullyState,
    now: u64,
) -> Vec<(PeerId, ControlMessage)> {
    let mut out = Vec::new();
    for (to, msg) in sends {
        if *to == replica.id {
            out.extend(replica.process_message(*msg, from, now));
        }
    }
    out
}

#[test]
fn convergence_three_replicas_elect_highest() {
    let mut r1 = BullyState::new(1);
    let mut r2 = BullyState::new(2);
    let mut r3 = BullyState::new(3);

    // Every replica starts with no prior leader and opens an election.
    let s1 = r1.find_new_leader(0);
    let s2 = r2.find_new_leader(0);
    let s3 = r3.find_new_leader(0);
    // The highest id asks only peers that do not exist.
    assert!(s3.iter().all(|(to, _)| *to > 3));

    // Deliver the election requests among the three live replicas.
    let a2 = deliver(&s1, 1, &mut r2, 1);
    let a3 = deliver(&s1, 1, &mut r3, 1);
    let b3 = deliver(&s2, 2, &mut r3, 2);
    // Higher replicas veto the lower candidacies.
    assert_eq!(a2, vec![(1, ControlMessage::Okay)]);
    assert_eq!(a3, vec![(1, ControlMessage::Okay)]);
    assert_eq!(b3, vec![(2, ControlMessage::Okay)]);
    deliver(&a2, 2, &mut r1, 2);
    deliver(&a3, 3, &mut r1, 3);
    deliver(&b3, 3, &mut r2, 3);
    assert_eq!(r1.current_state, State::WaitingForCoordinator);
    assert_eq!(r2.current_state, State::WaitingForCoordinator);

    // Nobody vetoed the highest replica: its window elapses.
    let late = LEADER_ELECTION_TIMEOUT_MS + 1;
    let announce = r3.on_tick(late);
    assert_eq!(r3.leader_id, Some(3));
    assert!(r3.is_leader());

    deliver(&announce, 3, &mut r1, late);
    deliver(&announce, 3, &mut r2, late);
    assert_eq!(r1.leader_id, Some(3));
    assert_eq!(r2.leader_id, Some(3));
    assert_eq!(r1.current_state, State::Idle);
    assert_eq!(r2.current_state, State::Idle);
    assert!(!r1.is_leader());
    assert!(!r2.is_leader());
}

#[test]
fn convergence_survives_lost_messages() {
    // The election datagrams of replicas 1 and 2 are all lost; the highest
    // replica still declares itself once its own window elapses.
    let mut r1 = BullyState::new(1);
    let mut r2 = BullyState::new(2);
    let mut r3 = BullyState::new(3);
    r1.find_new_leader(0);
    r2.find_new_leader(0);
    r3.find_new_leader(0);

    let late = LEADER_ELECTION_TIMEOUT_MS + 1;
    let announce = r3.on_tick(late);
    deliver(&announce, 3, &mut r1, late);
    deliver(&announce, 3, &mut r2, late);
    assert_eq!(r1.leader_id, Some(3));
    assert_eq!(r2.leader_id, Some(3));
    assert_eq!(r3.leader_id, Some(3));
}

#[test]
fn leader_failure_is_detected_and_next_highest_takes_over() {
    let mut r1 = BullyState::new(1);
    let mut r2 = BullyState::new(2);
    // Replica 3 led, then stopped responding; 1 and 2 still believe in it.
    r1.process_message(ControlMessage::Coordinator, 3, 0);
    r2.process_message(ControlMessage::Coordinator, 3, 0);
    assert!(!r1.is_leader());

    // Replica 1's health check times out: no Pong came back.
    let target = r1.begin_health_check();
    assert_eq!(target, 3);
    assert_eq!(r1.got_pong, None);
    let election = r1.evaluate_health_check(10);
    assert_eq!(r1.current_state, State::FindingLeader { since: 10 });
    assert_eq!(r1.leader_id, None);
    assert!(election.iter().all(|(to, _)| *to > 1));

    // Replica 2 vetoes and contends; replica 3 stays silent.
    let veto = deliver(&election, 1, &mut r2, 10);
    assert_eq!(veto[0], (1, ControlMessage::Okay));
    assert!(matches!(r2.current_state, State::FindingLeader { .. }));
    deliver(&veto, 2, &mut r1, 10);
    assert_eq!(r1.current_state, State::WaitingForCoordinator);

    // Replica 2's window elapses with no veto: it takes over.
    let late = 10 + LEADER_ELECTION_TIMEOUT_MS + 1;
    let announce = r2.on_tick(late);
    assert!(r2.is_leader());
    deliver(&announce, 2, &mut r1, late);
    assert_eq!(r1.leader_id, Some(2));
    assert!(!r1.is_leader());
}

#[test]
fn healthy_leader_keeps_its_followers() {
    let mut r1 = BullyState::new(1);
    r1.process_message(ControlMessage::Coordinator, 3, 0);
    let target = r1.begin_health_check();
    // The leader answers the ping.
    r1.process_message(ControlMessage::Pong, target, 5);
    let sends = r1.evaluate_health_check(5);
    assert!(sends.is_empty());
    assert_eq!(r1.leader_id, Some(3));
    assert_eq!(r1.current_state, State::Idle);
}

#[test]
fn pong_from_unexpected_peer_triggers_election() {
    let mut r1 = BullyState::new(1);
    r1.process_message(ControlMessage::Coordinator, 3, 0);
    r1.begin_health_check();
    r1.process_message(ControlMessage::Pong, 2, 5);
    let sends = r1.evaluate_health_check(5);
    assert!(!sends.is_empty());
    assert!(matches!(r1.current_state, State::FindingLeader { .. }));
}

#[test]
fn ping_is_answered_with_pong() {
    let mut r2 = BullyState::new(2);
    let sends = r2.process_message(ControlMessage::Ping, 1, 0);
    assert_eq!(sends, vec![(1, ControlMessage::Pong)]);
}

#[test]
fn graceful_quit_stops_every_replica() {
    let mut r1 = BullyState::new(1);
    let mut r2 = BullyState::new(2);
    let mut r3 = BullyState::new(3);
    assert!(!r1.has_finished());

    let quit = r1.graceful_quit();
    assert!(r1.has_finished());
    deliver(&quit, 1, &mut r2, 0);
    deliver(&quit, 1, &mut r3, 0);
    assert!(r2.has_finished());
    assert!(r3.has_finished());
}
