use peernet::clock::Timestamp;
use peernet::network::peer::{Peer, PeerController, Status};

const NOW: Timestamp = Timestamp { secs: 1_700_000_000, nanos: 5 };
const LATER: Timestamp = Timestamp { secs: 1_700_000_060, nanos: 0 };

const ALL: [Status; 8] = [
    Status::Idle,
    Status::OutConnecting,
    Status::OutHandshaking,
    Status::OutAlive,
    Status::InHandshaking,
    Status::InAlive,
    Status::Banned,
    Status::Local,
];

fn ip(text: &str) -> String {
    text.to_string()
}

fn two_peers() -> PeerController {
    PeerController::from(vec![ip("10.0.0.1"), ip("10.0.0.2")])
}

fn counts(controller: &PeerController) -> [u64; 7] {
    [
        controller.idle(),
        controller.out_connecting(),
        controller.out_handshaking(),
        controller.out_alive(),
        controller.in_handshaking(),
        controller.in_alive(),
        controller.banned(),
    ]
}

#[test]
fn new_peer_is_idle_and_unseen() {
    let peer = Peer::new();
    assert_eq!(*peer.status(), Status::Idle);
    assert_eq!(peer.last_alive, None);
    assert_eq!(peer.last_failure, None);
    assert_eq!(Peer::from(Status::InAlive), Peer {
        status: Status::InAlive,
        last_alive: None,
        last_failure: None,
    });
}

#[test]
fn banned_peer_refuses_incoming_handshake_and_is_stamped() {
    let mut peer = Peer::from(Status::Banned);
    assert_eq!(peer.set_status_at(Status::InHandshaking, NOW), Err("Peer banned".to_string()));
    assert_eq!(*peer.status(), Status::Banned);
    assert_eq!(peer.last_failure, Some(NOW));
    assert_eq!(peer.last_alive, None);
}

#[test]
fn connected_peer_refuses_incoming_handshake_without_stamp() {
    for status in [Status::InAlive, Status::OutAlive] {
        let mut peer = Peer::from(status);
        assert_eq!(
            peer.set_status_at(Status::InHandshaking, NOW),
            Err("Already connected".to_string())
        );
        assert_eq!(peer, Peer::from(status));
    }
}

#[test]
fn every_other_move_is_taken() {
    for from in ALL {
        for to in ALL {
            let refused = to == Status::InHandshaking
                && matches!(from, Status::Banned | Status::InAlive | Status::OutAlive);
            let mut peer = Peer::from(from);
            let answer = peer.set_status_at(to, NOW);
            if refused {
                assert!(answer.is_err());
                assert_eq!(peer.status, from);
            } else {
                assert_eq!(answer, Ok(from));
                assert_eq!(peer.status, to);
            }
            let alive = matches!(to, Status::InAlive | Status::OutAlive);
            assert_eq!(peer.last_alive, if alive { Some(NOW) } else { None });
            let failure = to == Status::Banned
                || (from, to) == (Status::InHandshaking, Status::Idle)
                || (from, to) == (Status::Banned, Status::InHandshaking);
            assert_eq!(peer.last_failure, if failure { Some(NOW) } else { None });
        }
    }
}

#[test]
fn stamps_are_kept_until_the_next_one() {
    let mut peer = Peer::new();
    peer.set_status_at(Status::InAlive, NOW).unwrap();
    peer.set_status_at(Status::Banned, LATER).unwrap();
    peer.set_status_at(Status::Idle, LATER).unwrap();
    assert_eq!(peer, Peer {
        status: Status::Idle,
        last_alive: Some(NOW),
        last_failure: Some(LATER),
    });
}

#[test]
fn clock_is_read_for_a_stamp() {
    let before = chrono::Utc::now().timestamp();
    let mut peer = Peer::new();
    assert_eq!(peer.set_status(Status::OutAlive), Ok(Status::Idle));
    let after = chrono::Utc::now().timestamp();
    let stamp = peer.last_alive.unwrap();
    assert!(before <= stamp.secs && stamp.secs <= after);
    assert!(stamp.nanos < 1_000_000_000);
    assert_eq!(peer.last_failure, None);
}

#[test]
fn moves_without_stamp_read_no_clock() {
    let mut peer = Peer::new();
    assert_eq!(peer.set_status(Status::OutConnecting), Ok(Status::Idle));
    assert_eq!(peer, Peer::from(Status::OutConnecting));
    assert_eq!(peer.set_status(Status::Local), Ok(Status::OutConnecting));
    assert_eq!(peer, Peer::from(Status::Local));
}

#[test]
fn status_names() {
    for status in ALL {
        assert_eq!(status.name(), format!("{:?}", status));
    }
}

#[test]
fn listed_peers_are_idle() {
    let controller = two_peers();
    assert_eq!(counts(&controller), [2, 0, 0, 0, 0, 0, 0]);
    assert_eq!(controller.peer_status(&ip("10.0.0.1")), Some(Status::Idle));
    assert_eq!(controller.is_idle(&ip("10.0.0.2")), Some(true));
    assert_eq!(controller.peer_status(&ip("10.0.0.3")), None);
    assert_eq!(controller.is_idle(&ip("10.0.0.3")), None);
}

#[test]
fn empty_controller_knows_nobody() {
    let controller = PeerController::new();
    assert_eq!(counts(&controller), [0; 7]);
    assert_eq!(controller.best_idle_peer_ip(), None);
    assert!(controller.best_peers().is_empty());
}

#[test]
fn address_listed_twice_is_known_once_and_counted_twice() {
    let controller = PeerController::from(vec![ip("a"), ip("b"), ip("a")]);
    assert_eq!(controller.idle(), 3);
    let mut ips = controller.best_peers();
    ips.sort();
    assert_eq!(ips, vec![ip("a"), ip("b")]);
}

#[test]
fn peers_ip_lists_each_peer_once() {
    let controller = two_peers();
    let mut ips: Vec<String> = controller.peers_ip().into_iter().cloned().collect();
    ips.sort();
    assert_eq!(ips, vec![ip("10.0.0.1"), ip("10.0.0.2")]);
}

#[test]
fn outgoing_connection_comes_full_circle() {
    let mut controller = two_peers();
    let a = ip("10.0.0.1");
    controller.on_peer_out_connecting(&a).unwrap();
    assert_eq!(counts(&controller), [1, 1, 0, 0, 0, 0, 0]);
    controller.on_peer_out_handshaking(&a).unwrap();
    assert_eq!(counts(&controller), [1, 0, 1, 0, 0, 0, 0]);
    controller.on_peer_out_alive(&a).unwrap();
    assert_eq!(counts(&controller), [1, 0, 0, 1, 0, 0, 0]);
    assert_eq!(controller.is_idle(&a), Some(false));
    controller.on_peer_failed(&a).unwrap();
    assert_eq!(counts(&controller), [2, 0, 0, 0, 0, 0, 0]);
    assert_eq!(controller.peer_status(&a), Some(Status::Idle));
}

#[test]
fn incoming_connection_comes_full_circle() {
    let mut controller = two_peers();
    let a = ip("10.0.0.1");
    controller.on_peer_connect(&a).unwrap();
    assert_eq!(counts(&controller), [1, 0, 0, 0, 1, 0, 0]);
    controller.on_peer_in_alive(&a).unwrap();
    assert_eq!(counts(&controller), [1, 0, 0, 0, 0, 1, 0]);
    controller.on_peer_failed(&a).unwrap();
    assert_eq!(counts(&controller), [2, 0, 0, 0, 0, 0, 0]);
}

#[test]
fn refused_connection_changes_no_count() {
    let mut controller = two_peers();
    let a = ip("10.0.0.1");
    controller.feedback_peer_banned(&a).unwrap();
    assert_eq!(controller.on_peer_connect(&a), Err("Peer banned".to_string()));
    assert_eq!(counts(&controller), [1, 0, 0, 0, 0, 0, 1]);
    assert_eq!(controller.peer_status(&a), Some(Status::Banned));
    let b = ip("10.0.0.2");
    controller.on_peer_out_alive(&b).unwrap();
    assert_eq!(controller.on_peer_connect(&b), Err("Already connected".to_string()));
    assert_eq!(counts(&controller), [0, 0, 0, 1, 0, 0, 1]);
}

#[test]
fn unknown_peer_is_taken_in() {
    let mut controller = PeerController::new();
    let a = ip("10.0.0.9");
    assert_eq!(controller.update_peer_status_at(&a, Status::InHandshaking, NOW), Ok(()));
    assert_eq!(controller.peer_status(&a), Some(Status::InHandshaking));
    assert_eq!(counts(&controller), [0, 0, 0, 0, 1, 0, 0]);
    assert_eq!(controller.best_peers(), vec![a]);
}

#[test]
fn moving_to_the_same_status_keeps_the_counts() {
    let mut controller = two_peers();
    let a = ip("10.0.0.1");
    controller.on_peer_in_alive(&a).unwrap();
    controller.on_peer_in_alive(&a).unwrap();
    assert_eq!(counts(&controller), [1, 0, 0, 0, 0, 1, 0]);
}

#[test]
fn move_asked_again_is_answered_alike_and_changes_nothing_more() {
    for from in ALL {
        for to in ALL {
            if from == Status::Local || to == Status::Local {
                continue;
            }
            let mut controller = two_peers();
            let a = ip("10.0.0.1");
            controller.update_peer_status_at(&a, from, NOW).unwrap();
            let first = controller.update_peer_status_at(&a, to, NOW);
            let (status, after) = (controller.peer_status(&a), counts(&controller));
            assert_eq!(controller.update_peer_status_at(&a, to, LATER), first);
            assert_eq!(controller.update_peer_status(&a, to), first);
            assert_eq!(controller.peer_status(&a), status);
            assert_eq!(controller.peer_status(&ip("10.0.0.2")), Some(Status::Idle));
            assert_eq!(counts(&controller), after);
        }
    }
}

#[test]
fn every_peer_is_counted_once() {
    let mut controller = two_peers();
    for (n, status) in ALL.into_iter().filter(|status| *status != Status::Local).enumerate() {
        for address in ["10.0.0.1", "10.0.0.9"] {
            let _ = controller.update_peer_status(&ip(address), status);
            let _ = controller.update_peer_status(&ip(&format!("10.0.1.{}", n)), status);
            let total: u64 = counts(&controller).into_iter().sum();
            assert_eq!(total, controller.best_peers().len() as u64);
        }
    }
    assert_eq!(controller.best_peers().len(), 10);
    controller.flag_as_local(&ip("10.0.0.2"));
    let total: u64 = counts(&controller).into_iter().sum();
    assert_eq!(total, 10);
}

#[test]
fn flagging_takes_a_known_address_out_and_keeps_the_counts() {
    let mut controller = two_peers();
    let a = ip("10.0.0.1");
    controller.flag_as_local(&a);
    assert_eq!(controller.peer_status(&a), Some(Status::Local));
    assert_eq!(controller.idle(), 2);
    assert_eq!(controller.best_idle_peer_ip(), Some(ip("10.0.0.2")));
    assert!(!controller.is_updatable(&a, Status::Idle));
    assert!(controller.is_updatable(&ip("10.0.0.2"), Status::Idle));
    controller.flag_as_local(&ip("10.0.0.2"));
    assert_eq!(controller.best_idle_peer_ip(), None);
    assert_eq!(controller.idle(), 2);
}

#[test]
fn flagging_an_unknown_address_does_nothing() {
    let mut controller = two_peers();
    controller.flag_as_local(&ip("192.168.0.1"));
    assert_eq!(controller.peer_status(&ip("192.168.0.1")), None);
    assert_eq!(controller.best_peers().len(), 2);
}

#[test]
fn idle_peer_is_found_while_there_is_one() {
    let mut controller = two_peers();
    let first = controller.best_idle_peer_ip().unwrap();
    controller.on_peer_out_connecting(&first).unwrap();
    let second = controller.best_idle_peer_ip().unwrap();
    assert_ne!(first, second);
    controller.on_peer_out_connecting(&second).unwrap();
    assert_eq!(controller.best_idle_peer_ip(), None);
}
