use std::collections::HashMap;
use tss_bridge_node::coordinator::{Outcome, SessionCoordinator};
use tss_bridge_node::message::{NodeState, SessionMessage};
use tss_bridge_node::worker::{
    EngineResult, KeyGenThreadMessage, KeyGenThreadOutput, KeyGenWorker, NextStep, WorkerPhase,
};

fn nothing() -> Outcome {
    Outcome { subscribe: None, publish: None, start: None }
}

fn joined(local: u8, t: u16, n: u16, session: u64) -> SessionCoordinator {
    let mut c = SessionCoordinator::new(vec![local], t, n, 1);
    let out = c.on_create(session);
    assert_eq!(out.publish, Some(SessionMessage::Joined(session)));
    c
}

#[test]
fn new_coordinator_is_joining() {
    let c = SessionCoordinator::new(vec![9], 2, 3, 77);
    assert_eq!(c.state(), NodeState::Joining(77));
    assert!(!c.is_leader());
    assert_eq!(c.member_count(), 0);
    assert_eq!(c.topic(), None);
    assert_eq!(c.key(), None);
}

#[test]
fn proposal_announces_its_own_session() {
    let (c, msg) = SessionCoordinator::propose(vec![9], 2, 3);
    assert!(matches!(msg, SessionMessage::Join(_)));
    assert_eq!(c.state(), NodeState::Joining(msg.session_id()));
    assert!(!c.is_leader());
    assert_eq!(c.topic(), None);
}

#[test]
fn proposals_draw_different_sessions() {
    let mut seen = Vec::new();
    for _ in 0..8 {
        let (_, msg) = SessionCoordinator::propose(vec![1], 2, 3);
        seen.push(msg.session_id());
    }
    seen.sort();
    seen.dedup();
    assert!(seen.len() > 1);
}

#[test]
fn larger_identity_becomes_leader_on_join() {
    let mut c = SessionCoordinator::new(vec![5], 2, 3, 1);
    let out = c.on_join(42, vec![4]);
    assert_eq!(
        out,
        Outcome { subscribe: None, publish: Some(SessionMessage::Create(42)), start: None }
    );
    assert!(c.is_leader());
    assert_eq!(c.state(), NodeState::Joining(42));
    assert_eq!(c.topic(), Some("tss_session_42".to_string()));
}

#[test]
fn smaller_identity_stays_follower_on_join() {
    let mut c = SessionCoordinator::new(vec![4], 2, 3, 1);
    let out = c.on_join(42, vec![5]);
    assert_eq!(out, nothing());
    assert!(!c.is_leader());
    assert_eq!(c.state(), NodeState::Joining(1));
    assert_eq!(c.topic(), None);
}

#[test]
fn own_join_elects_nobody() {
    let mut c = SessionCoordinator::new(vec![4], 2, 3, 1);
    assert_eq!(c.on_join(1, vec![4]), nothing());
    assert!(!c.is_leader());
}

#[test]
fn racing_peers_agree_on_one_leader() {
    let mut a = SessionCoordinator::new(vec![0x10, 0x01], 2, 2, 1);
    let mut b = SessionCoordinator::new(vec![0x10, 0x02], 2, 2, 2);
    let from_b = a.on_join(2, vec![0x10, 0x02]);
    let from_a = b.on_join(1, vec![0x10, 0x01]);
    assert_eq!(from_b, nothing());
    assert_eq!(from_a.publish, Some(SessionMessage::Create(1)));
    assert!(!a.is_leader());
    assert!(b.is_leader());
}

#[test]
fn bound_node_ignores_other_joins() {
    let mut c = SessionCoordinator::new(vec![5], 2, 3, 1);
    c.on_join(42, vec![4]);
    assert_eq!(c.on_join(43, vec![3]), nothing());
    assert_eq!(c.state(), NodeState::Joining(42));
    let mut f = joined(5, 2, 3, 42);
    assert_eq!(f.on_join(43, vec![3]), nothing());
    assert_eq!(f.state(), NodeState::JoinedSession(42));
    assert!(!f.is_leader());
}

#[test]
fn create_subscribes_and_announces() {
    let mut c = SessionCoordinator::new(vec![4], 2, 3, 1);
    let out = c.on_create(42);
    assert_eq!(
        out,
        Outcome {
            subscribe: Some("tss_session_42".to_string()),
            publish: Some(SessionMessage::Joined(42)),
            start: None,
        }
    );
    assert_eq!(c.state(), NodeState::JoinedSession(42));
    assert_eq!(c.topic(), Some("tss_session_42".to_string()));
}

#[test]
fn repeated_create_is_a_no_op() {
    let mut c = SessionCoordinator::new(vec![4], 2, 3, 1);
    let first = c.on_create(42);
    assert_eq!(first.publish, Some(SessionMessage::Joined(42)));
    let second = c.on_create(42);
    assert_eq!(second, nothing());
    assert_eq!(c.state(), NodeState::JoinedSession(42));
    assert_eq!(c.member_count(), 0);
}

#[test]
fn create_for_another_session_is_ignored_once_joined() {
    let mut c = joined(4, 2, 3, 42);
    assert_eq!(c.on_create(43), nothing());
    assert_eq!(c.state(), NodeState::JoinedSession(42));
}

#[test]
fn leader_ignores_create_of_another_session() {
    let mut c = SessionCoordinator::new(vec![5], 2, 3, 1);
    c.on_join(42, vec![4]);
    assert_eq!(c.on_create(43), nothing());
    assert_eq!(c.state(), NodeState::Joining(42));
    let out = c.on_create(42);
    assert_eq!(out.publish, Some(SessionMessage::Joined(42)));
    assert_eq!(c.state(), NodeState::JoinedSession(42));
}

#[test]
fn membership_starts_ceremony_at_exactly_n() {
    let mut c = joined(2, 2, 3, 42);
    assert_eq!(c.on_joined(42, vec![1]), nothing());
    assert_eq!(c.member_count(), 1);
    assert_eq!(c.on_joined(42, vec![2]), nothing());
    assert_eq!(c.member_count(), 2);
    assert_eq!(c.state(), NodeState::JoinedSession(42));
    assert_eq!(c.own_index(), None);
    let out = c.on_joined(42, vec![3]);
    assert_eq!(out, Outcome { subscribe: None, publish: None, start: Some((2, 3, 2)) });
    assert_eq!(c.member_count(), 3);
    assert_eq!(c.state(), NodeState::KeyGenRound1(42));
    assert_eq!(c.own_index(), Some(2));
    assert_eq!(c.on_joined(42, vec![4]), nothing());
    assert_eq!(c.member_count(), 3);
    assert_eq!(c.state(), NodeState::KeyGenRound1(42));
}

#[test]
fn duplicate_joined_is_ignored() {
    let mut c = joined(2, 2, 3, 42);
    c.on_joined(42, vec![2]);
    c.on_joined(42, vec![1]);
    assert_eq!(c.on_joined(42, vec![1]), nothing());
    assert_eq!(c.member_count(), 2);
    assert_eq!(c.state(), NodeState::JoinedSession(42));
    let out = c.on_joined(42, vec![7]);
    assert_eq!(out.start, Some((2, 3, 1)));
}

#[test]
fn joined_for_untracked_session_is_ignored() {
    let mut c = joined(2, 2, 3, 42);
    assert_eq!(c.on_joined(41, vec![1]), nothing());
    assert_eq!(c.member_count(), 0);
    let mut fresh = SessionCoordinator::new(vec![2], 2, 3, 42);
    assert_eq!(fresh.on_joined(42, vec![1]), nothing());
    assert_eq!(fresh.member_count(), 0);
}

#[test]
fn last_place_is_kept_for_this_node() {
    let mut c = joined(9, 2, 2, 42);
    assert_eq!(c.on_joined(42, vec![1]), nothing());
    assert_eq!(c.member_count(), 1);
    assert_eq!(c.on_joined(42, vec![2]), nothing());
    assert_eq!(c.member_count(), 1);
    let out = c.on_joined(42, vec![9]);
    assert_eq!(out.start, Some((2, 2, 2)));
    assert_eq!(c.state(), NodeState::KeyGenRound1(42));
}

#[test]
fn single_member_session_starts_with_own_joined() {
    let mut c = joined(9, 1, 1, 42);
    assert_eq!(c.on_joined(42, vec![1]), nothing());
    let out = c.on_joined(42, vec![9]);
    assert_eq!(out.start, Some((1, 1, 1)));
}

#[test]
fn key_makes_node_ready_for_signing() {
    let mut c = joined(1, 1, 1, 42);
    c.on_joined(42, vec![1]);
    assert_eq!(c.state(), NodeState::KeyGenRound1(42));
    let rest = c.on_worker_result(KeyGenThreadOutput::Commitments(vec![3]));
    assert_eq!(rest, Some(KeyGenThreadOutput::Commitments(vec![3])));
    assert_eq!(c.state(), NodeState::KeyGenRound1(42));
    let rest = c.on_worker_result(KeyGenThreadOutput::Key(vec![0xaa, 0xbb]));
    assert_eq!(rest, None);
    assert_eq!(c.state(), NodeState::ReadyForSigning(42));
    assert_eq!(c.key(), Some(&vec![0xaau8, 0xbb]));
    let rest = c.on_worker_result(KeyGenThreadOutput::Key(vec![0xcc]));
    assert_eq!(rest, Some(KeyGenThreadOutput::Key(vec![0xcc])));
    assert_eq!(c.key(), Some(&vec![0xaau8, 0xbb]));
}

#[test]
fn key_before_key_generation_is_handed_back() {
    let mut c = joined(1, 2, 3, 42);
    let rest = c.on_worker_result(KeyGenThreadOutput::Key(vec![1]));
    assert_eq!(rest, Some(KeyGenThreadOutput::Key(vec![1])));
    assert_eq!(c.state(), NodeState::JoinedSession(42));
    assert_eq!(c.key(), None);
}

#[test]
fn state_never_moves_back_within_a_session() {
    let mut c = SessionCoordinator::new(vec![5], 1, 2, 42);
    let script: Vec<(SessionMessage, Vec<u8>)> = vec![
        (SessionMessage::Join(42), vec![4]),
        (SessionMessage::Create(42), vec![5]),
        (SessionMessage::Join(42), vec![3]),
        (SessionMessage::Joined(42), vec![5]),
        (SessionMessage::Create(42), vec![4]),
        (SessionMessage::Joined(42), vec![4]),
        (SessionMessage::Create(42), vec![4]),
        (SessionMessage::Join(42), vec![1]),
        (SessionMessage::Joined(42), vec![3]),
    ];
    let mut last = c.state();
    for (msg, sender) in script {
        c.handle(msg, sender);
        let now = c.state();
        if now.session_id() == last.session_id() {
            assert!(now.progress() >= last.progress());
        }
        last = now;
    }
    assert_eq!(last, NodeState::KeyGenRound1(42));
}

fn fake_key(n: u16) -> Vec<u8> {
    vec![0x6b, n as u8]
}

#[test]
fn three_peers_two_of_three_end_to_end() {
    let ids: Vec<Vec<u8>> = vec![vec![0xa1], vec![0xb2], vec![0xc3]];
    let mut nodes: Vec<SessionCoordinator> = vec![
        SessionCoordinator::new(ids[0].clone(), 2, 3, 42),
        SessionCoordinator::new(ids[1].clone(), 2, 3, 1001),
        SessionCoordinator::new(ids[2].clone(), 2, 3, 1002),
    ];
    let mut bus: std::collections::VecDeque<(SessionMessage, Vec<u8>)> =
        std::collections::VecDeque::new();
    bus.push_back((SessionMessage::Join(42), ids[0].clone()));
    let mut created = 0;
    let mut joined_count = 0;
    let mut subscriptions: Vec<Vec<String>> = vec![Vec::new(), Vec::new(), Vec::new()];
    let mut starts: Vec<Option<(u16, u16, u16)>> = vec![None, None, None];
    while let Some((msg, sender)) = bus.pop_front() {
        for k in 0..3 {
            let out = nodes[k].handle(msg, sender.clone());
            if let Some(topic) = out.subscribe {
                subscriptions[k].push(topic);
            }
            if let Some(m) = out.publish {
                match m {
                    SessionMessage::Create(s) => {
                        assert_eq!(s, 42);
                        created += 1;
                    }
                    SessionMessage::Joined(s) => {
                        assert_eq!(s, 42);
                        joined_count += 1;
                    }
                    SessionMessage::Join(_) => panic!("no second proposal"),
                }
                bus.push_back((m, ids[k].clone()));
            }
            if let Some(s) = out.start {
                assert_eq!(starts[k], None);
                starts[k] = Some(s);
            }
        }
    }
    assert!(!nodes[0].is_leader());
    assert!(nodes[2].is_leader());
    assert!(created >= 1);
    assert_eq!(joined_count, 3);
    for k in 0..3 {
        assert_eq!(subscriptions[k], vec!["tss_session_42".to_string()]);
        assert_eq!(nodes[k].state(), NodeState::KeyGenRound1(42));
        assert_eq!(nodes[k].member_count(), 3);
    }
    assert_eq!(starts, vec![Some((2, 3, 1)), Some((2, 3, 2)), Some((2, 3, 3))]);

    let mut workers: Vec<Option<KeyGenWorker>> = Vec::new();
    let mut inbox: Vec<Vec<KeyGenThreadMessage>> = vec![Vec::new(), Vec::new(), Vec::new()];
    for k in 0..3 {
        let (t, n, i) = starts[k].unwrap();
        let (w, step) = KeyGenWorker::new().on_command(KeyGenThreadMessage::Start(t, n, i));
        assert!(matches!(step.next, NextStep::GenerateCoefficients(_)));
        let (w, step) = w.on_engine_result(EngineResult::Coefficients(vec![0xc0, i as u8]));
        assert_eq!(step.output, Some(KeyGenThreadOutput::Commitments(vec![0xc0, i as u8])));
        for other in 0..3 {
            if other != k {
                inbox[other].push(KeyGenThreadMessage::Commitment((i, vec![0xc0, i as u8])));
            }
        }
        workers.push(Some(w));
    }
    let mut share_inbox: Vec<Vec<KeyGenThreadMessage>> = vec![Vec::new(), Vec::new(), Vec::new()];
    for k in 0..3 {
        let own = (k + 1) as u16;
        let mut w = workers[k].take().unwrap();
        let mut frozen = None;
        for cmd in inbox[k].drain(..) {
            assert_eq!(frozen, None);
            let (next, step) = w.on_command(cmd);
            w = next;
            if let NextStep::GenerateSecretShares(m) = step.next {
                frozen = Some(m);
            }
        }
        let frozen = frozen.unwrap();
        assert_eq!(frozen.len(), 2);
        assert!(!frozen.contains_key(&own));
        let mut shares = HashMap::new();
        for peer in frozen.keys() {
            shares.insert(*peer, vec![0x5e, own as u8, *peer as u8]);
        }
        let (next, step) = w.on_engine_result(EngineResult::SecretShares(shares));
        assert_eq!(next.phase(), WorkerPhase::CollectShares);
        match step.output {
            Some(KeyGenThreadOutput::SecretShares(m)) => {
                for (peer, share) in m {
                    share_inbox[(peer - 1) as usize]
                        .push(KeyGenThreadMessage::SecretShare((own, share)));
                }
            }
            _ => panic!("shares expected"),
        }
        workers[k] = Some(next);
    }
    for k in 0..3 {
        let mut w = workers[k].take().unwrap();
        let mut held = None;
        for cmd in share_inbox[k].drain(..) {
            let (next, step) = w.on_command(cmd);
            w = next;
            if let NextStep::CompleteKey(m) = step.next {
                held = Some(m);
            }
        }
        assert_eq!(held.unwrap().len(), 2);
        assert_eq!(w.phase(), WorkerPhase::Complete);
        let (w, step) = w.on_engine_result(EngineResult::Key(fake_key(3)));
        assert_eq!(w.phase(), WorkerPhase::Finished);
        assert_eq!(step.next, NextStep::Stop);
        let rest = nodes[k].on_worker_result(step.output.unwrap());
        assert_eq!(rest, None);
        assert_eq!(nodes[k].state(), NodeState::ReadyForSigning(42));
        assert_eq!(nodes[k].key(), Some(&fake_key(3)));
    }
}

#[test]
fn failed_ceremony_ends_the_session() {
    let mut c = joined(1, 1, 1, 42);
    c.on_worker_failure();
    assert!(!c.has_failed());
    c.on_joined(42, vec![1]);
    assert_eq!(c.state(), NodeState::KeyGenRound1(42));
    c.on_worker_failure();
    assert!(c.has_failed());
    let rest = c.on_worker_result(KeyGenThreadOutput::Key(vec![1]));
    assert_eq!(rest, Some(KeyGenThreadOutput::Key(vec![1])));
    assert_eq!(c.state(), NodeState::KeyGenRound1(42));
    assert_eq!(c.key(), None);
    assert_eq!(c.on_join(43, vec![0]), nothing());
    assert_eq!(c.on_create(43), nothing());
    assert_eq!(c.on_joined(42, vec![2]), nothing());
    assert_eq!(c.state(), NodeState::KeyGenRound1(42));
}
