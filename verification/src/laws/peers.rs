//! The known peers, and the status of each.
use vstd::prelude::*;
use crate::clock::Timestamp;
use crate::network::counts::{StatusCounts, Tally};
use crate::network::peer::{Peer, PeerController, Status, IP};
use crate::network::table::PeerTable;

verus! {

/// One where something holds, and nothing where it does not.
pub open spec fn one_if(holds: bool) -> int {
    if holds {
        1
    } else {
        0
    }
}

/// The status under an address: none where the address is not known.
pub open spec fn status_of(table: PeerTable, ip: Seq<char>) -> Option<Status> {
    if table.peers.contains_key(ip) {
        Some(table.peers[ip].status)
    } else {
        None
    }
}

/// The counts after one peer came from a status, if it was known, to another.
pub open spec fn counted(before: Tally, after: Tally, from: Option<Status>, to: Status) -> bool {
    &&& after.idle == before.idle + one_if(to == Status::Idle) - one_if(from == Some(Status::Idle))
    &&& after.out_connecting == before.out_connecting + one_if(to == Status::OutConnecting)
        - one_if(from == Some(Status::OutConnecting))
    &&& after.out_handshaking == before.out_handshaking + one_if(to == Status::OutHandshaking)
        - one_if(from == Some(Status::OutHandshaking))
    &&& after.out_alive == before.out_alive + one_if(to == Status::OutAlive) - one_if(
        from == Some(Status::OutAlive),
    )
    &&& after.in_handshaking == before.in_handshaking + one_if(to == Status::InHandshaking)
        - one_if(from == Some(Status::InHandshaking))
    &&& after.in_alive == before.in_alive + one_if(to == Status::InAlive) - one_if(
        from == Some(Status::InAlive),
    )
    &&& after.banned == before.banned + one_if(to == Status::Banned) - one_if(
        from == Some(Status::Banned),
    )
}

/// No peer but one was touched.
pub open spec fn others_untouched(before: PeerTable, after: PeerTable, ip: Seq<char>) -> bool {
    forall|other: Seq<char>|
        other != ip ==> {
            &&& #[trigger] after.peers.contains_key(other) <==> before.peers.contains_key(other)
            &&& before.peers.contains_key(other) ==> after.peers[other] == before.peers[other]
        }
}

/// A peer that is connected, or banned, turns an incoming handshake away.
pub open spec fn turned_away(from: Option<Status>, to: Status) -> bool {
    &&& to == Status::InHandshaking
    &&& from == Some(Status::Banned) || from == Some(Status::InAlive) || from == Some(
        Status::OutAlive,
    )
}

/// The stamps of a peer after it was asked at a moment to go from one status to another: it was
/// alive if it is now connected, and it failed if it is banned, was banned when it called, or gave
/// up an incoming handshake.
pub open spec fn stamped(before: Peer, after: Peer, to: Status, now: Timestamp) -> bool {
    &&& after.last_alive == if to == Status::InAlive || to == Status::OutAlive {
        Some(now)
    } else {
        before.last_alive
    }
    &&& after.last_failure == if to == Status::Banned || before.status == Status::Banned && to
        == Status::InHandshaking || before.status == Status::InHandshaking && to == Status::Idle {
        Some(now)
    } else {
        before.last_failure
    }
}

/// One peer was asked to take a status at some moment. It took it, and was counted out of the
/// status that it left and into the other; or it was turned away and kept its status, and no count
/// changed. A peer that was not known is now known, with no stamp.
pub open spec fn asked(
    before: PeerTable,
    after: PeerTable,
    ip: Seq<char>,
    to: Status,
    now: Timestamp,
) -> bool {
    let from = status_of(before, ip);
    &&& others_untouched(before, after, ip)
    &&& after.peers.contains_key(ip)
    &&& from is None ==> after.peers[ip] == (Peer {
        status: to,
        last_alive: None,
        last_failure: None,
    })
    &&& from is Some ==> stamped(before.peers[ip], after.peers[ip], to, now)
    &&& if turned_away(from, to) {
        status_of(after, ip) == from && after.tally == before.tally
    } else {
        status_of(after, ip) == Some(to) && counted(before.tally, after.tally, from, to)
    }
}

/// What is answered when a peer is asked to take a status.
pub open spec fn is_answer(from: Option<Status>, to: Status, answer: Result<(), String>) -> bool {
    &&& answer is Err <==> turned_away(from, to)
    &&& answer matches Err(message) ==> message@ == if from == Some(Status::Banned) {
        "Peer banned"@
    } else {
        "Already connected"@
    }
}

/// A move on a table is what was asked.
pub proof fn law_moves(table: PeerTable, ip: Seq<char>, to: Status, now: Timestamp)
    requires
        to != Status::Local,
        status_of(table, ip) != Some(Status::Local),
    ensures
        asked(table, table.updated(ip, to, now), ip, to, now),
        table.answer(ip, to) is Err <==> turned_away(status_of(table, ip), to),
{
}

/// A status is looked up under its address.
pub proof fn law_statuses_are_looked_up(table: PeerTable, ip: Seq<char>, status: Status)
    ensures
        table.status(ip) == status_of(table, ip),
        table.in_status(status).contains(ip) <==> status_of(table, ip) == Some(status),
{
}

/// A count that is raised is the only one that changes. Local peers are not counted.
pub proof fn law_counts_are_separate(tally: Tally, status: Status, by: int, other: Status)
    ensures
        status != Status::Local ==> tally.plus(status, by).of(status) == tally.of(status) + by,
        other != status ==> tally.plus(status, by).of(other) == tally.of(other),
        tally.plus(Status::Local, by) == tally,
        tally.of(Status::Idle) == tally.idle,
        tally.of(Status::OutConnecting) == tally.out_connecting,
        tally.of(Status::OutHandshaking) == tally.out_handshaking,
        tally.of(Status::OutAlive) == tally.out_alive,
        tally.of(Status::InHandshaking) == tally.in_handshaking,
        tally.of(Status::InAlive) == tally.in_alive,
        tally.of(Status::Banned) == tally.banned,
        tally.total() == tally.of(Status::Idle) + tally.of(Status::OutConnecting) + tally.of(
            Status::OutHandshaking,
        ) + tally.of(Status::OutAlive) + tally.of(Status::InHandshaking) + tally.of(Status::InAlive)
            + tally.of(Status::Banned),
{
}

/// The counters are looked at one by one.
pub proof fn law_views_of_counts(counts: StatusCounts)
    ensures
        counts@.idle == counts.idle,
        counts@.out_connecting == counts.out_connecting,
        counts@.out_handshaking == counts.out_handshaking,
        counts@.out_alive == counts.out_alive,
        counts@.in_handshaking == counts.in_handshaking,
        counts@.in_alive == counts.in_alive,
        counts@.banned == counts.banned,
{
}

/// One peer is counted out of a status, or into one, or as many are counted as idle at once.
pub proof fn law_counters_count(
    left: &mut StatusCounts,
    entered: &mut StatusCounts,
    status: Status,
    idle: u64,
    counts: StatusCounts,
)
    requires
        call_ensures(StatusCounts::leave, (left, status), ()),
        call_ensures(StatusCounts::enter, (entered, status), ()),
        call_ensures(StatusCounts::of_idle, (idle,), counts),
        status != Status::Local,
    ensures
        counted(final(left)@, old(left)@, None, status),
        counted(old(entered)@, final(entered)@, None, status),
        counts.idle == idle,
        counts@.total() == idle,
        counts@ == Tally::zero().plus(Status::Idle, idle as int),
{
}

/// Counts are exact when each is the number of the peers in its status, and they cover the peers
/// when none is less than that.
pub proof fn law_exact_counts(table: PeerTable, status: Status)
    requires
        status != Status::Local,
    ensures
        table.exact() ==> table.tally.of(status) == table.in_status(status).len(),
        table.wf() ==> table.tally.of(status) >= table.in_status(status).len(),
{
    assert(table.surplus(status) == table.tally.of(status) - table.in_status(status).len());
}

/// A move can be carried out unless the peer is local or the count that it would raise is full.
pub proof fn law_possible_moves(controller: PeerController, ip: IP, to: Status, updatable: bool)
    requires
        call_ensures(PeerController::is_updatable, (&controller, &ip, to), updatable),
        to != Status::Local,
    ensures
        ({
            let from = status_of(controller@, ip@);
            updatable <==> from != Some(Status::Local) && (from == Some(to) || turned_away(from, to)
                || controller@.tally.of(to) < u64::MAX)
        }),
        updatable <==> controller@.updatable(ip@, to),
{
}

/// A new peer is idle, and one that is made with a status has it. Neither has been seen.
pub proof fn law_new_peers(idle: Peer, status: Status, peer: Peer)
    requires
        call_ensures(Peer::new, (), idle),
        call_ensures(Peer::from, (status,), peer),
    ensures
        idle.status == Status::Idle,
        peer.status == status,
        idle.last_alive is None && idle.last_failure is None,
        peer.last_alive is None && peer.last_failure is None,
{
}

/// A peer tells the status that it is in.
pub proof fn law_peers_tell_their_status(peer: Peer, status: Status)
    requires
        call_ensures(Peer::status, (&peer,), &status),
    ensures
        status == peer.status,
{
}

/// A peer that is asked to take a status takes it and answers with the one it leaves, unless it
/// turns an incoming handshake away.
pub proof fn law_peers_take_a_status(
    peer: &mut Peer,
    to: Status,
    now: Timestamp,
    answer: Result<Status, String>,
)
    requires
        call_ensures(Peer::set_status_at, (peer, to, now), answer),
    ensures
        stamped(*old(peer), *final(peer), to, now),
        answer is Err <==> turned_away(Some(old(peer).status), to),
        answer is Err ==> final(peer).status == old(peer).status,
        answer is Ok ==> final(peer).status == to,
        answer matches Ok(left) ==> left == old(peer).status,
        answer matches Err(message) ==> message@ == if old(peer).status == Status::Banned {
            "Peer banned"@
        } else {
            "Already connected"@
        },
{
}

/// The same, at a moment that the clock shows.
pub proof fn law_peers_take_a_status_now(
    peer: &mut Peer,
    to: Status,
    answer: Result<Status, String>,
)
    requires
        call_ensures(Peer::set_status, (peer, to), answer),
    ensures
        exists|now: Timestamp|
            0 <= now.secs && now.nanos < 1_000_000_000 && #[trigger] stamped(
                *old(peer),
                *final(peer),
                to,
                now,
            ),
        answer is Err <==> turned_away(Some(old(peer).status), to),
        answer is Err ==> final(peer).status == old(peer).status,
        answer is Ok ==> final(peer).status == to,
        answer matches Ok(left) ==> left == old(peer).status,
        answer matches Err(message) ==> message@ == if old(peer).status == Status::Banned {
            "Peer banned"@
        } else {
            "Already connected"@
        },
{
    let now = choose|now: Timestamp|
        now.is_reading() && *final(peer) == #[trigger] old(peer).moved(to, now);
    assert(stamped(*old(peer), *final(peer), to, now));
}

/// A controller that is new knows nobody and counts nobody.
pub proof fn law_new_controllers(controller: PeerController)
    requires
        call_ensures(PeerController::new, (), controller),
    ensures
        forall|ip: Seq<char>| !controller@.peers.contains_key(ip),
        controller@.tally == (Tally {
            idle: 0,
            out_connecting: 0,
            out_handshaking: 0,
            out_alive: 0,
            in_handshaking: 0,
            in_alive: 0,
            banned: 0,
        }),
        controller.wf(),
{
    assert(controller@.peers.dom() =~= Set::empty());
}

/// A controller that is made from a list knows the listed peers and no others. All are idle and
/// unseen, and as many idle peers are counted as there are entries.
pub proof fn law_listed_peers(ips: Vec<IP>, controller: PeerController)
    requires
        call_ensures(PeerController::from, (ips,), controller),
    ensures
        forall|ip: Seq<char>| #[trigger]
            controller@.peers.contains_key(ip) <==> exists|i: int|
                0 <= i < ips@.len() && #[trigger] ips@[i]@ == ip,
        forall|ip: Seq<char>| #[trigger]
            controller@.peers.contains_key(ip) ==> controller@.peers[ip] == (Peer {
                status: Status::Idle,
                last_alive: None,
                last_failure: None,
            }),
        controller@.tally == (Tally {
            idle: ips@.len() as int,
            out_connecting: 0,
            out_handshaking: 0,
            out_alive: 0,
            in_handshaking: 0,
            in_alive: 0,
            banned: 0,
        }),
        controller.wf(),
{
    lemma_listing(ips@);
}

/// What a table knows that is built from a list.
pub proof fn lemma_listing(ips: Seq<IP>)
    ensures
        ({
            let table = PeerTable::listing(crate::text::texts(ips));
            &&& forall|ip: Seq<char>| #[trigger]
                table.peers.contains_key(ip) <==> exists|i: int|
                    0 <= i < ips.len() && #[trigger] ips[i]@ == ip
            &&& forall|ip: Seq<char>| #[trigger]
                table.peers.contains_key(ip) ==> table.peers[ip] == (Peer {
                    status: Status::Idle,
                    last_alive: None,
                    last_failure: None,
                })
            &&& table.tally == (Tally {
                idle: ips.len() as int,
                out_connecting: 0,
                out_handshaking: 0,
                out_alive: 0,
                in_handshaking: 0,
                in_alive: 0,
                banned: 0,
            })
        }),
{
    let listed = crate::text::texts(ips);
    let table = PeerTable::listing(listed);
    assert forall|ip: Seq<char>| #[trigger]
        table.peers.contains_key(ip) <==> exists|i: int|
            0 <= i < ips.len() && #[trigger] ips[i]@ == ip by {
        if table.peers.contains_key(ip) {
            let i = listed.index_of(ip);
            assert(ips[i]@ == ip);
        }
        if exists|i: int| 0 <= i < ips.len() && #[trigger] ips[i]@ == ip {
            let i = choose|i: int| 0 <= i < ips.len() && #[trigger] ips[i]@ == ip;
            assert(listed[i] == ip);
        }
    }
}

/// A peer that is asked to take a status at a moment, and what is answered.
pub proof fn law_updates_at(
    controller: &mut PeerController,
    ip: IP,
    to: Status,
    now: Timestamp,
    answer: Result<(), String>,
)
    requires
        call_ensures(PeerController::update_peer_status_at, (controller, &ip, to, now), answer),
        to != Status::Local,
        status_of(old(controller)@, ip@) != Some(Status::Local),
    ensures
        final(controller).wf(),
        asked(old(controller)@, final(controller)@, ip@, to, now),
        is_answer(status_of(old(controller)@, ip@), to, answer),
{
    law_moves(old(controller)@, ip@, to, now);
}

/// Asked to take a status, at a moment that the clock shows.
pub open spec fn asked_now(
    before: PeerTable,
    after: PeerTable,
    ip: Seq<char>,
    to: Status,
) -> bool {
    exists|now: Timestamp|
        0 <= now.secs && now.nanos < 1_000_000_000 && #[trigger] asked(before, after, ip, to, now)
}

/// What a contract says of a move at some moment comes to.
pub proof fn lemma_asked_now(before: PeerTable, after: PeerTable, ip: Seq<char>, to: Status)
    requires
        to != Status::Local,
        status_of(before, ip) != Some(Status::Local),
        exists|now: Timestamp|
            now.is_reading() && after == #[trigger] before.updated(ip, to, now),
    ensures
        asked_now(before, after, ip, to),
{
    let now = choose|now: Timestamp|
        now.is_reading() && after == #[trigger] before.updated(ip, to, now);
    law_moves(before, ip, to, now);
    assert(asked(before, after, ip, to, now));
}

/// A peer that is asked to take a status now, and what is answered.
pub proof fn law_updates(
    controller: &mut PeerController,
    ip: IP,
    to: Status,
    answer: Result<(), String>,
)
    requires
        call_ensures(PeerController::update_peer_status, (controller, &ip, to), answer),
        to != Status::Local,
        status_of(old(controller)@, ip@) != Some(Status::Local),
    ensures
        final(controller).wf(),
        asked_now(old(controller)@, final(controller)@, ip@, to),
        is_answer(status_of(old(controller)@, ip@), to, answer),
{
    lemma_asked_now(old(controller)@, final(controller)@, ip@, to);
}

/// A peer that opens a connection shakes hands, unless it is connected already or banned.
pub proof fn law_callers_shake_hands(
    controller: &mut PeerController,
    ip: IP,
    answer: Result<(), String>,
)
    requires
        call_ensures(PeerController::on_peer_connect, (controller, &ip), answer),
        status_of(old(controller)@, ip@) != Some(Status::Local),
    ensures
        final(controller).wf(),
        asked_now(old(controller)@, final(controller)@, ip@, Status::InHandshaking),
        is_answer(status_of(old(controller)@, ip@), Status::InHandshaking, answer),
{
    lemma_asked_now(old(controller)@, final(controller)@, ip@, Status::InHandshaking);
}

/// A peer that the node calls is connecting.
pub proof fn law_called_peers_are_connecting(
    controller: &mut PeerController,
    ip: IP,
    answer: Result<(), String>,
)
    requires
        call_ensures(PeerController::on_peer_out_connecting, (controller, &ip), answer),
        status_of(old(controller)@, ip@) != Some(Status::Local),
    ensures
        final(controller).wf(),
        asked_now(old(controller)@, final(controller)@, ip@, Status::OutConnecting),
        answer is Ok,
{
    lemma_asked_now(old(controller)@, final(controller)@, ip@, Status::OutConnecting);
}

/// A peer that the node has reached is shaking hands.
pub proof fn law_reached_peers_shake_hands(
    controller: &mut PeerController,
    ip: IP,
    answer: Result<(), String>,
)
    requires
        call_ensures(PeerController::on_peer_out_handshaking, (controller, &ip), answer),
        status_of(old(controller)@, ip@) != Some(Status::Local),
    ensures
        final(controller).wf(),
        asked_now(old(controller)@, final(controller)@, ip@, Status::OutHandshaking),
        answer is Ok,
{
    lemma_asked_now(old(controller)@, final(controller)@, ip@, Status::OutHandshaking);
}

/// A peer that called and was heard is alive.
pub proof fn law_heard_callers_are_alive(
    controller: &mut PeerController,
    ip: IP,
    answer: Result<(), String>,
)
    requires
        call_ensures(PeerController::on_peer_in_alive, (controller, &ip), answer),
        status_of(old(controller)@, ip@) != Some(Status::Local),
    ensures
        final(controller).wf(),
        asked_now(old(controller)@, final(controller)@, ip@, Status::InAlive),
        answer is Ok,
{
    lemma_asked_now(old(controller)@, final(controller)@, ip@, Status::InAlive);
}

/// A peer that was called and was heard is alive.
pub proof fn law_heard_called_peers_are_alive(
    controller: &mut PeerController,
    ip: IP,
    answer: Result<(), String>,
)
    requires
        call_ensures(PeerController::on_peer_out_alive, (controller, &ip), answer),
        status_of(old(controller)@, ip@) != Some(Status::Local),
    ensures
        final(controller).wf(),
        asked_now(old(controller)@, final(controller)@, ip@, Status::OutAlive),
        answer is Ok,
{
    lemma_asked_now(old(controller)@, final(controller)@, ip@, Status::OutAlive);
}

/// A peer that failed is idle again.
pub proof fn law_failed_peers_are_idle(
    controller: &mut PeerController,
    ip: IP,
    answer: Result<(), String>,
)
    requires
        call_ensures(PeerController::on_peer_failed, (controller, &ip), answer),
        status_of(old(controller)@, ip@) != Some(Status::Local),
    ensures
        final(controller).wf(),
        asked_now(old(controller)@, final(controller)@, ip@, Status::Idle),
        answer is Ok,
{
    lemma_asked_now(old(controller)@, final(controller)@, ip@, Status::Idle);
}

/// A peer that broke the rules is banned.
pub proof fn law_banned_peers_are_banned(
    controller: &mut PeerController,
    ip: IP,
    answer: Result<(), String>,
)
    requires
        call_ensures(PeerController::feedback_peer_banned, (controller, &ip), answer),
        status_of(old(controller)@, ip@) != Some(Status::Local),
    ensures
        final(controller).wf(),
        asked_now(old(controller)@, final(controller)@, ip@, Status::Banned),
        answer is Ok,
{
    lemma_asked_now(old(controller)@, final(controller)@, ip@, Status::Banned);
}

/// A table in which an address was flagged: the peer under it, if there is one, is local and keeps
/// its stamps; nothing else changed, nor any count.
pub open spec fn flagged(before: PeerTable, after: PeerTable, ip: Seq<char>) -> bool {
    &&& others_untouched(before, after, ip)
    &&& after.tally == before.tally
    &&& after.peers.contains_key(ip) <==> before.peers.contains_key(ip)
    &&& before.peers.contains_key(ip) ==> {
        &&& after.peers[ip].status == Status::Local
        &&& after.peers[ip].last_alive == before.peers[ip].last_alive
        &&& after.peers[ip].last_failure == before.peers[ip].last_failure
    }
}

/// An address that is flagged is local from then on, if it is known.
pub proof fn law_flagged_peers_are_local(controller: &mut PeerController, ip: IP)
    requires
        call_ensures(PeerController::flag_as_local, (controller, &ip), ()),
    ensures
        final(controller).wf(),
        flagged(old(controller)@, final(controller)@, ip@),
{
}

/// A list that holds every known address once and no other.
pub open spec fn lists_all(table: PeerTable, ips: Seq<Seq<char>>) -> bool {
    &&& forall|ip: Seq<char>| #[trigger]
        table.peers.contains_key(ip) <==> exists|i: int|
            0 <= i < ips.len() && #[trigger] ips[i] == ip
    &&& forall|i: int, j: int|
        0 <= i < j < ips.len() ==> #[trigger] ips[i] != #[trigger] ips[j]
}

/// What a table says that a list holds, it holds.
pub proof fn law_lists(table: PeerTable, ips: Seq<Seq<char>>)
    ensures
        table.lists(ips) <==> lists_all(table, ips),
{
    if table.lists(ips) {
        assert forall|ip: Seq<char>| #[trigger]
            table.peers.contains_key(ip) <==> exists|i: int|
                0 <= i < ips.len() && #[trigger] ips[i] == ip by {
            assert(ips.to_set().contains(ip) <==> ips.contains(ip));
            if ips.contains(ip) {
                assert(ips[ips.index_of(ip)] == ip);
            }
        }
    }
    if lists_all(table, ips) {
        assert(ips.to_set() =~= table.peers.dom()) by {
            assert forall|ip: Seq<char>| ips.to_set().contains(ip) <==> table.peers.dom().contains(
                ip,
            ) by {
                assert(table.peers.contains_key(ip) <==> exists|i: int|
                    0 <= i < ips.len() && #[trigger] ips[i] == ip);
            }
        }
    }
}

/// Every known address is handed out, once.
pub proof fn law_all_peers_are_handed_out(
    controller: PeerController,
    ips: Vec<IP>,
    borrowed: Vec<&IP>,
)
    requires
        call_ensures(PeerController::best_peers, (&controller,), ips),
        call_ensures(PeerController::peers_ip, (&controller,), borrowed),
    ensures
        lists_all(controller@, Seq::new(ips@.len(), |i: int| ips@[i]@)),
        lists_all(controller@, Seq::new(borrowed@.len(), |i: int| borrowed@[i]@)),
{
    let owned_texts = Seq::new(ips@.len(), |i: int| ips@[i]@);
    let borrowed_texts = Seq::new(borrowed@.len(), |i: int| borrowed@[i]@);
    assert(owned_texts =~= crate::text::texts(ips@));
    assert(borrowed_texts =~= borrowed@.map_values(|ip: &IP| ip@));
    law_lists(controller@, owned_texts);
    law_lists(controller@, borrowed_texts);
}

/// An idle peer is found if and only if there is one.
pub proof fn law_idle_peers_are_found(controller: PeerController, found: Option<IP>)
    requires
        call_ensures(PeerController::best_idle_peer_ip, (&controller,), found),
    ensures
        found matches Some(ip) ==> status_of(controller@, ip@) == Some(Status::Idle),
        found is None ==> forall|ip: Seq<char>| #[trigger]
            status_of(controller@, ip) != Some(Status::Idle),
{
    if found is None {
        assert forall|ip: Seq<char>| #[trigger]
            status_of(controller@, ip) != Some(Status::Idle) by {
            assert(controller@.status(ip) == status_of(controller@, ip));
        }
    }
}

/// The status of a peer, and whether it is idle, is told if it is known.
pub proof fn law_statuses_are_told(
    controller: PeerController,
    ip: IP,
    status: Option<Status>,
    idle: Option<bool>,
)
    requires
        call_ensures(PeerController::peer_status, (&controller, &ip), status),
        call_ensures(PeerController::is_idle, (&controller, &ip), idle),
    ensures
        status == status_of(controller@, ip@),
        idle is Some <==> status is Some,
        idle matches Some(idle) ==> (idle <==> status == Some(Status::Idle)),
{
}

/// Each count is told as it stands.
pub proof fn law_counts_are_told(
    controller: PeerController,
    idle: u64,
    out_connecting: u64,
    out_handshaking: u64,
    out_alive: u64,
    in_handshaking: u64,
    in_alive: u64,
    banned: u64,
)
    requires
        call_ensures(PeerController::idle, (&controller,), idle),
        call_ensures(PeerController::out_connecting, (&controller,), out_connecting),
        call_ensures(PeerController::out_handshaking, (&controller,), out_handshaking),
        call_ensures(PeerController::out_alive, (&controller,), out_alive),
        call_ensures(PeerController::in_handshaking, (&controller,), in_handshaking),
        call_ensures(PeerController::in_alive, (&controller,), in_alive),
        call_ensures(PeerController::banned, (&controller,), banned),
    ensures
        controller@.tally == (Tally {
            idle: idle as int,
            out_connecting: out_connecting as int,
            out_handshaking: out_handshaking as int,
            out_alive: out_alive as int,
            in_handshaking: in_handshaking as int,
            in_alive: in_alive as int,
            banned: banned as int,
        }),
{
}

} // verus!
