use peernet::event::PeerEvent;
use peernet::network::controller::{
    is_stale, load_peers, NetworkController, NetworkControllerEvent,
};
use peernet::network::peer::Status;

fn ip(text: &str) -> String {
    text.to_string()
}

fn three_peers() -> NetworkController {
    NetworkController::new(
        vec![ip("10.0.0.1"), ip("10.0.0.2"), ip("10.0.0.3")],
        &ip("192.168.0.1"),
        &ip("8.8.8.8"),
    )
}

#[test]
fn peers_file_is_read() {
    assert_eq!(
        load_peers(" [\"10.0.0.1\", \"10.0.0.2\"]\n").unwrap(),
        vec![ip("10.0.0.1"), ip("10.0.0.2")]
    );
    assert!(load_peers("[]").unwrap().is_empty());
}

#[test]
fn malformed_peers_file_is_refused() {
    for content in ["", "10.0.0.1", "{\"a\": 1}", "[1]", "[\"a\"][\"b\"]"] {
        let error = load_peers(content).unwrap_err();
        let expected = serde_json::from_str::<Vec<String>>(content).unwrap_err();
        assert_eq!(error.0.to_string(), expected.to_string());
    }
}

#[test]
fn own_addresses_are_flagged() {
    let controller = NetworkController::new(
        vec![ip("10.0.0.1"), ip("192.168.0.1"), ip("8.8.8.8")],
        &ip("192.168.0.1"),
        &ip("8.8.8.8"),
    );
    let peers = controller.peers();
    assert_eq!(peers.peer_status(&ip("10.0.0.1")), Some(Status::Idle));
    assert_eq!(peers.peer_status(&ip("192.168.0.1")), Some(Status::Local));
    assert_eq!(peers.peer_status(&ip("8.8.8.8")), Some(Status::Local));
    assert_eq!(peers.idle(), 3);
}

#[test]
fn file_is_stale_if_it_names_an_unknown_address() {
    let known = vec![ip("a"), ip("b")];
    assert!(!is_stale(&vec![ip("b"), ip("a"), ip("b")], &known));
    assert!(!is_stale(&Vec::new(), &known));
    assert!(is_stale(&vec![ip("a"), ip("c")], &known));
    assert!(is_stale(&vec![ip("a")], &Vec::new()));
}

#[test]
fn peers_file_is_written_anew_if_stale() {
    let controller = three_peers();
    assert!(controller.peers_file_update("[\"10.0.0.2\"]").unwrap().is_none());
    assert!(controller.peers_file_update("nonsense").is_err());
    let text = controller.peers_file_update("[\"10.0.0.2\",\"10.0.0.7\"]").unwrap().unwrap();
    let mut ips = load_peers(&text).unwrap();
    ips.sort();
    assert_eq!(ips, vec![ip("10.0.0.1"), ip("10.0.0.2"), ip("10.0.0.3")]);
}

#[test]
fn connections_are_planned_up_to_the_target() {
    let mut controller = three_peers();
    assert_eq!(controller.plan_out_connections(2), Some(2));
    assert_eq!(controller.plan_out_connections(3), Some(3));
    assert_eq!(controller.plan_out_connections(10), Some(3));
    assert_eq!(controller.plan_out_connections(0), Some(0));
    controller.begin_out_connections(2);
    assert_eq!(controller.plan_out_connections(2), Some(0));
    assert_eq!(controller.plan_out_connections(4), Some(1));
    controller.begin_out_connections(1);
    assert_eq!(controller.plan_out_connections(9), None);
}

#[test]
fn chosen_peers_are_distinct_and_connecting() {
    let mut controller = three_peers();
    let chosen = controller.begin_out_connections(2);
    assert_eq!(chosen.len(), 2);
    assert_ne!(chosen[0], chosen[1]);
    for ip in &chosen {
        assert_eq!(controller.peers().peer_status(ip), Some(Status::OutConnecting));
    }
    assert_eq!(controller.peers().idle(), 1);
    assert_eq!(controller.peers().out_connecting(), 2);
    assert!(controller.begin_out_connections(0).is_empty());
}

#[test]
fn fewer_idle_peers_than_wanted() {
    let mut controller = NetworkController::new(
        vec![ip("10.0.0.1"), ip("192.168.0.1")],
        &ip("192.168.0.1"),
        &ip("8.8.8.8"),
    );
    assert_eq!(controller.plan_out_connections(5), Some(2));
    assert_eq!(controller.begin_out_connections(2), vec![ip("10.0.0.1")]);
    assert_eq!(controller.peers().idle(), 1);
}

#[test]
fn attempt_to_connect_ends() {
    let mut controller = three_peers();
    let chosen = controller.begin_out_connections(2);
    controller.on_connect_result(&chosen[0], true);
    controller.on_connect_result(&chosen[1], false);
    assert_eq!(controller.peers().peer_status(&chosen[0]), Some(Status::OutHandshaking));
    assert_eq!(controller.peers().peer_status(&chosen[1]), Some(Status::Idle));
    assert_eq!(controller.peers().out_connecting(), 0);
}

#[test]
fn limits_are_inclusive() {
    let mut controller = three_peers();
    assert!(controller.may_accept(0) && controller.may_finish_in(0));
    assert!(controller.may_finish_out(0));
    controller.on_accept(&ip("10.0.0.1")).unwrap();
    assert!(!controller.may_finish_in(0));
    assert!(controller.may_finish_in(1));
    controller.feedback_peer_alive(&ip("10.0.0.1")).unwrap();
    assert!(!controller.may_accept(0));
    assert!(controller.may_accept(1));
    controller.on_connect_result(&ip("10.0.0.2"), true);
    assert!(!controller.may_finish_out(0));
    assert!(controller.may_finish_out(1));
}

#[test]
fn only_idle_and_unknown_peers_are_let_in() {
    let mut controller = three_peers();
    assert_eq!(controller.on_accept(&ip("10.0.0.1")), Ok(()));
    assert_eq!(controller.on_accept(&ip("10.0.0.1")), Err(Status::InHandshaking));
    assert_eq!(controller.on_accept(&ip("77.7.7.7")), Ok(()));
    assert_eq!(controller.peers().peer_status(&ip("77.7.7.7")), Some(Status::InHandshaking));
    controller.feedback_peer_banned(&ip("10.0.0.2")).unwrap();
    assert_eq!(controller.on_accept(&ip("10.0.0.2")), Err(Status::Banned));
    assert_eq!(controller.peers().in_handshaking(), 2);
    assert_eq!(controller.peers().banned(), 1);
}

#[test]
fn own_address_is_turned_away() {
    let mut controller =
        NetworkController::new(vec![ip("192.168.0.1")], &ip("192.168.0.1"), &ip("8.8.8.8"));
    assert_eq!(controller.on_accept(&ip("192.168.0.1")), Err(Status::Local));
}

#[test]
fn candidate_connections_are_handed_on() {
    let event = NetworkControllerEvent::CandidateConnection(ip("10.0.0.1"), 7u8, true);
    match NetworkController::wait_event(Some(event)) {
        Ok(NetworkControllerEvent::CandidateConnection(peer, stream, is_outgoing)) => {
            assert_eq!((peer, stream, is_outgoing), (ip("10.0.0.1"), 7, true));
        }
        Err(_) => panic!("the event is lost"),
    }
    match NetworkController::wait_event::<u8>(None) {
        Ok(_) => panic!("there is no event"),
        Err(message) => assert_eq!(message, "wait_event: Channel closed"),
    }
}

#[test]
fn heard_peer_becomes_alive_on_its_side() {
    let mut controller = three_peers();
    controller.on_accept(&ip("10.0.0.1")).unwrap();
    controller.on_connect_result(&ip("10.0.0.2"), true);
    for _ in 0..2 {
        controller.feedback_peer_alive(&ip("10.0.0.1")).unwrap();
        controller.feedback_peer_alive(&ip("10.0.0.2")).unwrap();
        assert_eq!(controller.peers().peer_status(&ip("10.0.0.1")), Some(Status::InAlive));
        assert_eq!(controller.peers().peer_status(&ip("10.0.0.2")), Some(Status::OutAlive));
    }
    assert_eq!(controller.peers().in_alive(), 1);
    assert_eq!(controller.peers().out_alive(), 1);
}

#[test]
fn peer_that_is_not_connected_cannot_be_heard() {
    let mut controller = three_peers();
    assert_eq!(
        controller.feedback_peer_alive(&ip("10.0.0.1")),
        Err("Peer cannot switch from Idle to Alive".to_string())
    );
    controller.feedback_peer_banned(&ip("10.0.0.1")).unwrap();
    assert_eq!(
        controller.feedback_peer_alive(&ip("10.0.0.1")),
        Err("Peer cannot switch from Banned to Alive".to_string())
    );
    assert!(!controller.takes(&PeerEvent::Alive(ip("1.1.1.1"))));
}

#[test]
fn reports_are_taken_in() {
    let mut controller = three_peers();
    let a = ip("10.0.0.1");
    controller.on_accept(&a).unwrap();
    for (event, status) in [
        (PeerEvent::Alive(a.clone()), Status::InAlive),
        (PeerEvent::GoodIps(vec![ip("5.5.5.5")]), Status::InAlive),
        (PeerEvent::Misbehave(a.clone()), Status::Banned),
        (PeerEvent::Disconnected(a.clone()), Status::Idle),
    ] {
        assert!(controller.takes(&event));
        assert_eq!(controller.on_peer_event(event), Ok(None));
        assert_eq!(controller.peers().peer_status(&a), Some(status));
    }
    assert_eq!(controller.peers().peer_status(&ip("5.5.5.5")), None);
    assert_eq!(
        controller.on_peer_event(PeerEvent::Alive(a)),
        Err("Peer cannot switch from Idle to Alive".to_string())
    );
}

#[test]
fn addresses_are_handed_out() {
    let mut controller = three_peers();
    let mut ips = controller.on_peer_event(PeerEvent::GetGoodIps).unwrap().unwrap();
    ips.sort();
    assert_eq!(ips, vec![ip("10.0.0.1"), ip("10.0.0.2"), ip("10.0.0.3")]);
    let mut again = controller.get_good_peer_ips();
    again.sort();
    assert_eq!(again, ips);
    controller.feedback_peer_list(&ips);
    assert_eq!(controller.get_good_peer_ips().len(), 3);
}

#[test]
fn reports_about_own_address_are_not_taken() {
    let controller =
        NetworkController::new(vec![ip("192.168.0.1")], &ip("192.168.0.1"), &ip("8.8.8.8"));
    assert!(!controller.takes(&PeerEvent::Disconnected(ip("192.168.0.1"))));
    assert!(!controller.takes(&PeerEvent::Misbehave(ip("192.168.0.1"))));
    assert!(controller.takes(&PeerEvent::GetGoodIps));
}

#[test]
fn own_address_stays_local_whatever_is_reported() {
    let own = ip("192.168.0.1");
    let mut controller =
        NetworkController::new(vec![own.clone(), ip("10.0.0.1")], &own, &ip("8.8.8.8"));
    assert!(controller.takes(&PeerEvent::Alive(own.clone())));
    assert_eq!(
        controller.on_peer_event(PeerEvent::Alive(own.clone())),
        Err("Peer cannot switch from Local to Alive".to_string())
    );
    assert_eq!(controller.on_peer_event(PeerEvent::Misbehave(ip("10.0.0.1"))), Ok(None));
    assert_eq!(controller.peers().peer_status(&own), Some(Status::Local));
}

#[test]
fn report_made_again_is_answered_alike_and_changes_nothing_more() {
    let mut controller = three_peers();
    let a = ip("10.0.0.1");
    controller.on_accept(&a).unwrap();
    for report in
        [PeerEvent::Alive, PeerEvent::Misbehave, PeerEvent::Alive, PeerEvent::Disconnected]
    {
        let first = controller.on_peer_event(report(a.clone()));
        let status = controller.peers().peer_status(&a);
        let counts = |controller: &NetworkController| {
            let peers = controller.peers();
            (peers.idle(), peers.in_handshaking(), peers.in_alive(), peers.banned())
        };
        let after = counts(&controller);
        assert!(controller.takes(&report(a.clone())));
        assert_eq!(controller.on_peer_event(report(a.clone())), first);
        assert_eq!(controller.peers().peer_status(&a), status);
        assert_eq!(counts(&controller), after);
    }
    assert_eq!(controller.peers().peer_status(&a), Some(Status::Idle));
}

#[test]
fn lost_peer_that_was_unknown_becomes_known() {
    let mut controller = three_peers();
    controller.feedback_peer_failed(&ip("6.6.6.6")).unwrap();
    assert_eq!(controller.peers().peer_status(&ip("6.6.6.6")), Some(Status::Idle));
    assert_eq!(controller.peers().idle(), 4);
}
