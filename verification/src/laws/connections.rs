//! The connections that are opened and accepted, and what is made of what they report.
use vstd::prelude::*;
use crate::event::PeerEvent;
use crate::network::controller::{
    is_stale, load_peers, NetworkController, NetworkControllerEvent, PeersFileError,
};
use crate::network::counts::Tally;
use crate::network::peer::{Peer, PeerController, Status, IP};
use crate::network::table::PeerTable;

verus! {

/// The file of peers is read as the list that its text holds, and refused if it holds none.
pub proof fn law_peers_file_is_read(content: &str, ips: Result<Vec<IP>, PeersFileError>)
    requires
        call_ensures(load_peers, (content,), ips),
    ensures
        ips is Ok <==> crate::json::json_strings(content@) is Some,
        ips matches Ok(ips) ==> crate::json::json_strings(content@) == Some(
            crate::text::texts(ips@),
        ),
{
}

/// Whether an address is among some.
pub open spec fn is_among(ip: Seq<char>, ips: Seq<IP>) -> bool {
    exists|i: int| 0 <= i < ips.len() && #[trigger] ips[i]@ == ip
}

/// The file of peers is stale if it names an address that is not among the known ones.
pub proof fn law_stale_files(listed: Vec<IP>, current: Vec<IP>, stale: bool)
    requires
        call_ensures(is_stale, (&listed, &current), stale),
    ensures
        !stale <==> forall|i: int|
            0 <= i < listed@.len() ==> is_among((#[trigger] listed@[i])@, current@),
{
    let named = crate::text::texts(listed@);
    let known = crate::text::texts(current@);
    assert forall|i: int| 0 <= i < listed@.len() implies known.contains(#[trigger] named[i])
        == is_among(listed@[i]@, current@) by {
        if known.contains(named[i]) {
            assert(current@[known.index_of(named[i])]@ == listed@[i]@);
        }
        if is_among(listed@[i]@, current@) {
            let j = choose|j: int|
                0 <= j < current@.len() && #[trigger] current@[j]@ == listed@[i]@;
            assert(known[j] == named[i]);
        }
    }
    if stale {
        let i = choose|i: int| 0 <= i < named.len() && !known.contains(#[trigger] named[i]);
        assert(!is_among(listed@[i]@, current@));
    } else {
        assert forall|i: int| 0 <= i < listed@.len() implies is_among(
            (#[trigger] listed@[i])@,
            current@,
        ) by {
            assert(known.contains(named[i]));
        }
    }
}

/// The file of peers is written anew if it names an address that is not known, and then it holds
/// every known address once.
pub proof fn law_peers_file_is_kept(
    controller: NetworkController,
    content: &str,
    update: Result<Option<String>, PeersFileError>,
)
    requires
        call_ensures(NetworkController::peers_file_update, (&controller, content), update),
    ensures
        update is Err <==> crate::json::json_strings(content@) is None,
        update matches Ok(update) ==> {
            let named = crate::json::json_strings(content@)->0;
            &&& update is None <==> forall|i: int|
                0 <= i < named.len() ==> controller@.peers.contains_key(#[trigger] named[i])
            &&& update matches Some(text) ==> {
                let written = crate::json::json_strings(text@);
                &&& written is Some
                &&& crate::laws::peers::lists_all(controller@, written->0)
                &&& text@ == crate::json::json_text(written->0)
            }
        },
{
    if let Ok(Some(text)) = update {
        let ips = choose|ips: Seq<Seq<char>>| #[trigger]
            controller@.lists(ips) && text@ == crate::json::json_text(ips)
                && crate::json::json_strings(text@) == Some(ips);
        crate::laws::peers::law_lists(controller@, ips);
    }
}

/// The node starts with the listed peers, all unseen. Its own addresses are local and the others
/// idle, and every entry of the list is counted as idle.
pub proof fn law_the_node_knows_itself(
    listed: Vec<IP>,
    local_ip: IP,
    public_ip: IP,
    controller: NetworkController,
)
    requires
        call_ensures(NetworkController::new, (listed, &local_ip, &public_ip), controller),
    ensures
        controller.wf(),
        forall|ip: Seq<char>| #[trigger]
            controller@.peers.contains_key(ip) <==> exists|i: int|
                0 <= i < listed@.len() && #[trigger] listed@[i]@ == ip,
        forall|ip: Seq<char>| #[trigger]
            controller@.peers.contains_key(ip) ==> controller@.peers[ip] == (Peer {
                status: if ip == local_ip@ || ip == public_ip@ {
                    Status::Local
                } else {
                    Status::Idle
                },
                last_alive: None,
                last_failure: None,
            }),
        controller@.tally == (Tally {
            idle: listed@.len() as int,
            out_connecting: 0,
            out_handshaking: 0,
            out_alive: 0,
            in_handshaking: 0,
            in_alive: 0,
            banned: 0,
        }),
{
    crate::laws::peers::lemma_listing(listed@);
    let table = PeerTable::listing(crate::text::texts(listed@));
    assert forall|ip: Seq<char>| #[trigger]
        controller@.peers.contains_key(ip) <==> table.peers.contains_key(ip) by {}
}

/// The peers that are looked at are the ones that are kept.
pub proof fn law_peers_are_shown(controller: NetworkController, peers: PeerController)
    requires
        call_ensures(NetworkController::peers, (&controller,), &peers),
    ensures
        peers@ == controller@,
{
}

/// As many connections are opened as the target leaves room for and idle peers are counted: no
/// more than either, and as many as the smaller.
pub proof fn law_planned_connections(
    controller: NetworkController,
    target: u64,
    to_connect: Option<u64>,
)
    requires
        call_ensures(NetworkController::plan_out_connections, (&controller, target), to_connect),
        controller@.tally.out_alive + controller@.tally.out_connecting <= target,
    ensures
        ({
            let tally = controller@.tally;
            &&& to_connect is None <==> tally.idle == 0
            &&& to_connect matches Some(amount) ==> {
                &&& amount <= tally.idle
                &&& tally.out_alive + tally.out_connecting + amount <= target
                &&& amount == tally.idle || tally.out_alive + tally.out_connecting + amount
                    == target
            }
        }),
{
}

/// The peers that the node begins to connect to are idle ones, each chosen once, and as many as
/// are wanted or as there are. They are connecting from then on; no other peer is touched.
pub proof fn law_chosen_peers_are_connecting(
    controller: &mut NetworkController,
    wanted: u64,
    chosen: Vec<IP>,
)
    requires
        call_ensures(NetworkController::begin_out_connections, (controller, wanted), chosen),
        old(controller).wf(),
    ensures
        final(controller).wf(),
        forall|i: int, j: int|
            0 <= i < j < chosen@.len() ==> (#[trigger] chosen@[i])@ != (#[trigger] chosen@[j])@,
        forall|i: int|
            0 <= i < chosen@.len() ==> {
                let ip = (#[trigger] chosen@[i])@;
                &&& crate::laws::peers::status_of(old(controller)@, ip) == Some(Status::Idle)
                &&& final(controller)@.peers.contains_key(ip)
                &&& final(controller)@.peers[ip] == (Peer {
                    status: Status::OutConnecting,
                    last_alive: old(controller)@.peers[ip].last_alive,
                    last_failure: old(controller)@.peers[ip].last_failure,
                })
            },
        forall|ip: Seq<char>|
            (forall|i: int| 0 <= i < chosen@.len() ==> (#[trigger] chosen@[i])@ != ip) ==> {
                &&& #[trigger] final(controller)@.peers.contains_key(ip) <==> old(
                    controller,
                )@.peers.contains_key(ip)
                &&& old(controller)@.peers.contains_key(ip) ==> final(controller)@.peers[ip] == old(
                    controller,
                )@.peers[ip]
            },
        chosen@.len() <= wanted,
        chosen@.len() < wanted ==> forall|ip: Seq<char>| #[trigger]
            crate::laws::peers::status_of(final(controller)@, ip) != Some(Status::Idle),
        final(controller)@.tally == (Tally {
            idle: old(controller)@.tally.idle - chosen@.len(),
            out_connecting: old(controller)@.tally.out_connecting + chosen@.len(),
            ..old(controller)@.tally
        }),
{
    let before = old(controller)@;
    let after = final(controller)@;
    let picked = crate::text::texts(chosen@);
    let idle = before.in_status(Status::Idle);
    assert forall|i: int| 0 <= i < chosen@.len() implies before.in_status(Status::Idle).contains(
        (#[trigger] chosen@[i])@,
    ) && picked.contains(chosen@[i]@) by {
        assert(picked[i] == chosen@[i]@);
        assert(picked.to_set().contains(picked[i]));
    }
    assert forall|i: int, j: int| 0 <= i < j < chosen@.len() implies (#[trigger] chosen@[i])@ != (
    #[trigger] chosen@[j])@ by {
        assert(picked[i] != picked[j]);
    }
    assert forall|ip: Seq<char>|
        (forall|i: int| 0 <= i < chosen@.len() ==> (#[trigger] chosen@[i])@ != ip) implies {
        &&& #[trigger] after.peers.contains_key(ip) <==> before.peers.contains_key(ip)
        &&& before.peers.contains_key(ip) ==> after.peers[ip] == before.peers[ip]
    } by {
        if picked.contains(ip) {
            let i = picked.index_of(ip);
            assert(chosen@[i]@ == ip);
        }
    }
    if chosen@.len() < wanted {
        before.peers.dom().lemma_len_filter(
            |ip: Seq<char>| before.peers[ip].status == Status::Idle,
        );
        picked.unique_seq_to_set();
        vstd::set_lib::lemma_subset_equality(picked.to_set(), idle);
        assert forall|ip: Seq<char>| #[trigger]
            crate::laws::peers::status_of(after, ip) != Some(Status::Idle) by {
            if before.peers.contains_key(ip) && before.peers[ip].status == Status::Idle {
                assert(idle.contains(ip));
                assert(picked.to_set().contains(ip));
                assert(picked.contains(ip));
            }
        }
    }
}

/// A peer that was reached shakes hands; one that was not is idle again.
pub proof fn law_attempts_to_connect_end(
    controller: &mut NetworkController,
    ip: IP,
    connected: bool,
)
    requires
        call_ensures(NetworkController::on_connect_result, (controller, &ip, connected), ()),
        crate::laws::peers::status_of(old(controller)@, ip@) != Some(Status::Local),
    ensures
        final(controller).wf(),
        connected ==> crate::laws::peers::asked_now(
            old(controller)@,
            final(controller)@,
            ip@,
            Status::OutHandshaking,
        ),
        !connected ==> crate::laws::peers::asked_now(
            old(controller)@,
            final(controller)@,
            ip@,
            Status::Idle,
        ),
{
    let to = if connected {
        Status::OutHandshaking
    } else {
        Status::Idle
    };
    crate::laws::peers::lemma_asked_now(old(controller)@, final(controller)@, ip@, to);
}

/// A limit is passed once it is exceeded, and not when it is reached.
pub proof fn law_limits(
    controller: NetworkController,
    limit: u64,
    finish_out: bool,
    accept: bool,
    finish_in: bool,
)
    requires
        call_ensures(NetworkController::may_finish_out, (&controller, limit), finish_out),
        call_ensures(NetworkController::may_accept, (&controller, limit), accept),
        call_ensures(NetworkController::may_finish_in, (&controller, limit), finish_in),
    ensures
        !finish_out <==> controller@.tally.out_handshaking > limit,
        !accept <==> controller@.tally.in_alive > limit,
        !finish_in <==> controller@.tally.in_handshaking > limit,
{
}

/// A peer that calls is let in if it is idle or unknown, and then shakes hands. Any other is told
/// its status, and nothing changes.
pub proof fn law_callers_are_let_in(
    controller: &mut NetworkController,
    ip: IP,
    admitted: Result<(), Status>,
)
    requires
        call_ensures(NetworkController::on_accept, (controller, &ip), admitted),
    ensures
        final(controller).wf(),
        ({
            let from = crate::laws::peers::status_of(old(controller)@, ip@);
            &&& admitted is Ok <==> from is None || from == Some(Status::Idle)
            &&& admitted matches Err(status) ==> from == Some(status) && final(controller)@ == old(
                controller,
            )@
            &&& admitted is Ok ==> crate::laws::peers::asked_now(
                old(controller)@,
                final(controller)@,
                ip@,
                Status::InHandshaking,
            )
        }),
{
    let from = crate::laws::peers::status_of(old(controller)@, ip@);
    if from is None || from == Some(Status::Idle) {
        crate::laws::peers::lemma_asked_now(
            old(controller)@,
            final(controller)@,
            ip@,
            Status::InHandshaking,
        );
    }
}

/// A candidate connection is handed on as it came. Once the channel is closed there are none.
pub proof fn law_candidates_are_handed_on<S>(
    received: Option<NetworkControllerEvent<S>>,
    event: Result<NetworkControllerEvent<S>, String>,
)
    requires
        call_ensures(NetworkController::wait_event::<S>, (received,), event),
    ensures
        received is Some <==> event is Ok,
        event matches Ok(event) ==> received == Some(event),
        event matches Err(message) ==> message@ == "wait_event: Channel closed"@,
{
}

/// The side on which a peer is alive when it is heard: the one on which it shakes hands or is
/// connected. Any other peer cannot be heard.
pub open spec fn alive_on(from: Status) -> Option<Status> {
    if from == Status::InHandshaking || from == Status::InAlive {
        Some(Status::InAlive)
    } else if from == Status::OutHandshaking || from == Status::OutAlive {
        Some(Status::OutAlive)
    } else {
        None
    }
}

/// What comes of hearing a known peer.
pub open spec fn heard(
    before: PeerTable,
    after: PeerTable,
    ip: Seq<char>,
    refusal: Option<Seq<char>>,
) -> bool {
    let from = before.peers[ip].status;
    match alive_on(from) {
        Some(to) => refusal is None && crate::laws::peers::asked_now(before, after, ip, to),
        None => after == before && refusal == Some(
            "Peer cannot switch from "@ + from.name_text() + " to Alive"@,
        ),
    }
}

/// A peer that is heard is alive on its side; one that cannot be heard is left as it was.
pub proof fn law_heard_peers_are_alive(
    controller: &mut NetworkController,
    ip: IP,
    answer: Result<(), String>,
)
    requires
        call_ensures(NetworkController::feedback_peer_alive, (controller, &ip), answer),
        old(controller)@.peers.contains_key(ip@),
    ensures
        final(controller).wf(),
        heard(
            old(controller)@,
            final(controller)@,
            ip@,
            match answer {
                Ok(()) => None,
                Err(message) => Some(message@),
            },
        ),
{
    lemma_told_alive(old(controller)@, final(controller)@, ip@);
}

/// What a contract says of a report that a peer is alive comes to.
proof fn lemma_told_alive(before: PeerTable, after: PeerTable, ip: Seq<char>)
    requires
        before.peers.contains_key(ip),
        exists|now: crate::clock::Timestamp|
            now.is_reading() && after == #[trigger] before.told(
                crate::event::PeerReport::Alive(ip),
                now,
            ),
    ensures
        match alive_on(before.peers[ip].status) {
            Some(to) => crate::laws::peers::asked_now(before, after, ip, to),
            None => after == before,
        },
{
    let now = choose|now: crate::clock::Timestamp|
        now.is_reading() && after == #[trigger] before.told(
            crate::event::PeerReport::Alive(ip),
            now,
        );
    if let Some(to) = alive_on(before.peers[ip].status) {
        assert(after == before.updated(ip, to, now));
        crate::laws::peers::lemma_asked_now(before, after, ip, to);
    }
}

/// A peer whose connection is gone is idle; one that broke the rules is banned.
pub proof fn law_feedback_moves_peers(
    failed: &mut NetworkController,
    failed_answer: Result<(), String>,
    banned: &mut NetworkController,
    banned_answer: Result<(), String>,
    ip: IP,
)
    requires
        call_ensures(NetworkController::feedback_peer_failed, (failed, &ip), failed_answer),
        call_ensures(NetworkController::feedback_peer_banned, (banned, &ip), banned_answer),
        crate::laws::peers::status_of(old(failed)@, ip@) != Some(Status::Local),
        crate::laws::peers::status_of(old(banned)@, ip@) != Some(Status::Local),
    ensures
        failed_answer is Ok && banned_answer is Ok,
        final(failed).wf() && final(banned).wf(),
        crate::laws::peers::asked_now(old(failed)@, final(failed)@, ip@, Status::Idle),
        crate::laws::peers::asked_now(old(banned)@, final(banned)@, ip@, Status::Banned),
{
    crate::laws::peers::lemma_asked_now(old(failed)@, final(failed)@, ip@, Status::Idle);
    crate::laws::peers::lemma_asked_now(old(banned)@, final(banned)@, ip@, Status::Banned);
}

/// A peer that asks for addresses is handed every known one, once.
pub proof fn law_good_addresses(controller: NetworkController, ips: Vec<IP>)
    requires
        call_ensures(NetworkController::get_good_peer_ips, (&controller,), ips),
    ensures
        crate::laws::peers::lists_all(controller@, Seq::new(ips@.len(), |i: int| ips@[i]@)),
{
    let texts = Seq::new(ips@.len(), |i: int| ips@[i]@);
    assert(texts =~= crate::text::texts(ips@));
    crate::laws::peers::law_lists(controller@, texts);
}

/// A report is taken in unless it is about a peer that is local, or that is said to be alive and is
/// not known, or a count that it would raise is full. That a local peer is alive is taken in, and
/// refused.
pub proof fn law_reports_that_are_taken(
    controller: NetworkController,
    event: PeerEvent,
    taken: bool,
)
    requires
        call_ensures(NetworkController::takes, (&controller, &event), taken),
    ensures
        ({
            let table = controller@;
            taken <==> match event {
                PeerEvent::Alive(ip) => table.peers.contains_key(ip@) && (match alive_on(
                    table.peers[ip@].status,
                ) {
                    Some(to) => table.peers[ip@].status == to || table.tally.of(to) < u64::MAX,
                    None => true,
                }),
                PeerEvent::Disconnected(ip) => {
                    let from = crate::laws::peers::status_of(table, ip@);
                    from != Some(Status::Local) && (from == Some(Status::Idle) || table.tally.idle
                        < u64::MAX)
                },
                PeerEvent::Misbehave(ip) => {
                    let from = crate::laws::peers::status_of(table, ip@);
                    from != Some(Status::Local) && (from == Some(Status::Banned)
                        || table.tally.banned < u64::MAX)
                },
                PeerEvent::GoodIps(_) => true,
                PeerEvent::GetGoodIps => true,
            }
        }),
        taken <==> controller@.takes(event@),
{
}

/// What is made of each report: a peer that is heard is alive, one that is gone is idle, one that
/// misbehaves is banned, and a list of addresses changes nothing. Only a request for addresses is
/// answered with some, and then with every known one.
pub proof fn law_reports_are_taken_in(
    controller: &mut NetworkController,
    event: PeerEvent,
    answer: Result<Option<Vec<IP>>, String>,
)
    requires
        call_ensures(NetworkController::on_peer_event, (controller, event), answer),
        match event {
            PeerEvent::Alive(ip) => old(controller)@.peers.contains_key(ip@),
            PeerEvent::Disconnected(ip) => crate::laws::peers::status_of(old(controller)@, ip@)
                != Some(Status::Local),
            PeerEvent::Misbehave(ip) => crate::laws::peers::status_of(old(controller)@, ip@)
                != Some(Status::Local),
            PeerEvent::GoodIps(_) => true,
            PeerEvent::GetGoodIps => true,
        },
    ensures
        final(controller).wf(),
        match event {
            PeerEvent::Alive(ip) => heard(
                old(controller)@,
                final(controller)@,
                ip@,
                match answer {
                    Ok(_) => None,
                    Err(message) => Some(message@),
                },
            ),
            PeerEvent::Disconnected(ip) => answer is Ok && crate::laws::peers::asked_now(
                old(controller)@,
                final(controller)@,
                ip@,
                Status::Idle,
            ),
            PeerEvent::Misbehave(ip) => answer is Ok && crate::laws::peers::asked_now(
                old(controller)@,
                final(controller)@,
                ip@,
                Status::Banned,
            ),
            PeerEvent::GoodIps(_) => answer is Ok && final(controller)@ == old(controller)@,
            PeerEvent::GetGoodIps => answer is Ok && final(controller)@ == old(controller)@,
        },
        answer matches Ok(handed) ==> {
            &&& handed is Some <==> event is GetGoodIps
            &&& handed matches Some(ips) ==> crate::laws::peers::lists_all(
                old(controller)@,
                Seq::new(ips@.len(), |i: int| ips@[i]@),
            )
        },
{
    let before = old(controller)@;
    let after = final(controller)@;
    let now = choose|now: crate::clock::Timestamp|
        now.is_reading() && after == #[trigger] before.told(event@, now);
    match event {
        PeerEvent::Alive(ip) => {
            lemma_told_alive(before, after, ip@);
        },
        PeerEvent::Disconnected(ip) => {
            assert(after == before.updated(ip@, Status::Idle, now));
            crate::laws::peers::lemma_asked_now(before, after, ip@, Status::Idle);
        },
        PeerEvent::Misbehave(ip) => {
            assert(after == before.updated(ip@, Status::Banned, now));
            crate::laws::peers::lemma_asked_now(before, after, ip@, Status::Banned);
        },
        PeerEvent::GoodIps(_) | PeerEvent::GetGoodIps => {},
    }
    if let Ok(Some(ips)) = answer {
        let texts = Seq::new(ips@.len(), |i: int| ips@[i]@);
        assert(texts =~= crate::text::texts(ips@));
        crate::laws::peers::law_lists(before, texts);
    }
}

} // verus!
