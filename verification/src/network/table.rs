//! The table of peers as a mathematical value, and what holds of it.
use vstd::prelude::*;
use crate::clock::Timestamp;
use crate::event::PeerReport;
use crate::network::counts::Tally;
use crate::network::peer::{Peer, Status};

verus! {

/// The known peers by address, and the counts that are kept beside them.
pub struct PeerTable {
    pub peers: Map<Seq<char>, Peer>,
    pub tally: Tally,
}

impl PeerTable {
    /// A table of idle peers, one for each address of a list. The count of idle peers is the
    /// length of the list, an address that occurs twice being counted twice.
    pub open spec fn listing(ips: Seq<Seq<char>>) -> PeerTable {
        PeerTable {
            peers: Map::new(
                |ip: Seq<char>| ips.contains(ip),
                |ip: Seq<char>| Peer::fresh(Status::Idle),
            ),
            tally: Tally::zero().plus(Status::Idle, ips.len() as int),
        }
    }

    /// The status of a peer, if it is known.
    pub open spec fn status(self, ip: Seq<char>) -> Option<Status> {
        if self.peers.contains_key(ip) {
            Some(self.peers[ip].status)
        } else {
            None
        }
    }

    /// A list holds every known address once, in whatever order.
    pub open spec fn lists(self, ips: Seq<Seq<char>>) -> bool {
        ips.no_duplicates() && ips.to_set() == self.peers.dom()
    }

    /// Every address of a list is known.
    pub open spec fn knows_all(self, ips: Seq<Seq<char>>) -> bool {
        forall|i: int| 0 <= i < ips.len() ==> self.peers.contains_key(#[trigger] ips[i])
    }

    /// The addresses of the peers in one status.
    pub open spec fn in_status(self, status: Status) -> Set<Seq<char>> {
        self.peers.dom().filter(|ip: Seq<char>| self.peers[ip].status == status)
    }

    /// By how much the count of a status exceeds the number of peers in it.
    pub open spec fn surplus(self, status: Status) -> int {
        self.tally.of(status) - self.in_status(status).len()
    }

    /// No count falls short of the peers that it stands for.
    pub open spec fn wf(self) -> bool {
        &&& self.peers.dom().finite()
        &&& forall|status: Status| status != Status::Local ==> #[trigger] self.surplus(status) >= 0
    }

    /// Every count is the number of peers in its status.
    pub open spec fn exact(self) -> bool {
        forall|status: Status| status != Status::Local ==> #[trigger] self.surplus(status) == 0
    }

    /// No known address is the node's own.
    pub open spec fn without_local(self) -> bool {
        forall|ip: Seq<char>| #[trigger] self.status(ip) != Some(Status::Local)
    }

    /// The same peers are in the same statuses, and as many are counted in each. Only the stamps
    /// of the peers may differ.
    pub open spec fn stands_like(self, other: PeerTable) -> bool {
        &&& self.tally == other.tally
        &&& forall|ip: Seq<char>| #[trigger] self.status(ip) == other.status(ip)
    }

    /// A move can be carried out: a local peer makes none, and the count of the status that is
    /// entered must have room for one more.
    pub open spec fn updatable(self, ip: Seq<char>, to: Status) -> bool {
        match self.status(ip) {
            Some(from) => {
                &&& from != Status::Local
                &&& from.refuses(to) || from == to || self.tally.of(to) < u64::MAX
            },
            None => self.tally.of(to) < u64::MAX,
        }
    }

    /// The table after a peer was asked at `now` to move to a status. A peer that is not known
    /// is taken in, with no stamp.
    pub open spec fn updated(self, ip: Seq<char>, to: Status, now: Timestamp) -> PeerTable {
        match self.status(ip) {
            Some(from) => PeerTable {
                peers: self.peers.insert(ip, self.peers[ip].moved(to, now)),
                tally: if from.refuses(to) {
                    self.tally
                } else {
                    self.tally.plus(from, -1).plus(to, 1)
                },
            },
            None => PeerTable {
                peers: self.peers.insert(ip, Peer::fresh(to)),
                tally: self.tally.plus(to, 1),
            },
        }
    }

    /// What is answered to a request to move a peer to a status.
    pub open spec fn answer(self, ip: Seq<char>, to: Status) -> Result<(), Seq<char>> {
        match self.status(ip) {
            Some(from) => match from.answer(to) {
                Ok(_) => Ok(()),
                Err(message) => Err(message),
            },
            None => Ok(()),
        }
    }

    /// The table after an address was found to be the node's own. The counts stay as they are.
    pub open spec fn flagged(self, ip: Seq<char>) -> PeerTable {
        if self.peers.contains_key(ip) {
            PeerTable {
                peers: self.peers.insert(ip, Peer { status: Status::Local, ..self.peers[ip] }),
                ..self
            }
        } else {
            self
        }
    }

    /// What a connection reports can be taken in.
    pub open spec fn takes(self, report: PeerReport) -> bool {
        match report {
            PeerReport::Alive(ip) => match self.status(ip) {
                Some(status) => match status.when_heard() {
                    Some(to) => self.updatable(ip, to),
                    None => true,
                },
                None => false,
            },
            PeerReport::Disconnected(ip) => self.updatable(ip, Status::Idle),
            PeerReport::Misbehave(ip) => self.updatable(ip, Status::Banned),
            PeerReport::GoodIps(_) | PeerReport::GetGoodIps => true,
        }
    }

    /// The table after a connection reported something at `now`.
    pub open spec fn told(self, report: PeerReport, now: Timestamp) -> PeerTable {
        match report {
            PeerReport::Alive(ip) => match self.peers[ip].status.when_heard() {
                Some(to) => self.updated(ip, to, now),
                None => self,
            },
            PeerReport::Disconnected(ip) => self.updated(ip, Status::Idle, now),
            PeerReport::Misbehave(ip) => self.updated(ip, Status::Banned, now),
            PeerReport::GoodIps(_) | PeerReport::GetGoodIps => self,
        }
    }

    /// What is answered to a report: a peer that is neither connected nor shaking hands cannot be
    /// heard.
    pub open spec fn reply(self, report: PeerReport) -> Result<(), Seq<char>> {
        match report {
            PeerReport::Alive(ip) => match self.peers[ip].status.when_heard() {
                Some(_) => Ok(()),
                None => Err(
                    "Peer cannot switch from "@ + self.peers[ip].status.name_text() + " to Alive"@,
                ),
            },
            _ => Ok(()),
        }
    }

    /// The table after the node began to connect to some idle peers.
    pub open spec fn connecting(self, ips: Seq<Seq<char>>) -> PeerTable {
        PeerTable {
            peers: Map::new(
                |ip: Seq<char>| self.peers.contains_key(ip),
                |ip: Seq<char>|
                    if ips.contains(ip) {
                        Peer { status: Status::OutConnecting, ..self.peers[ip] }
                    } else {
                        self.peers[ip]
                    },
            ),
            tally: self.tally.plus(Status::Idle, -ips.len()).plus(
                Status::OutConnecting,
                ips.len() as int,
            ),
        }
    }
}

/// Giving one peer another status moves its address between the sets, and nothing else.
proof fn lemma_in_status_insert(table: PeerTable, ip: Seq<char>, peer: Peer, status: Status)
    requires
        table.peers.dom().finite(),
    ensures
        ({
            let after = PeerTable { peers: table.peers.insert(ip, peer), ..table };
            &&& table.in_status(status).finite()
            &&& after.in_status(status) == if peer.status == status {
                table.in_status(status).insert(ip)
            } else {
                table.in_status(status).remove(ip)
            }
        }),
{
    let after = PeerTable { peers: table.peers.insert(ip, peer), ..table };
    table.peers.dom().lemma_len_filter(|ip: Seq<char>| table.peers[ip].status == status);
    if peer.status == status {
        assert(after.in_status(status) =~= table.in_status(status).insert(ip));
    } else {
        assert(after.in_status(status) =~= table.in_status(status).remove(ip));
    }
}

/// Every known peer is in one status, so that the peers in all of them make up the known ones.
proof fn lemma_statuses_partition(table: PeerTable)
    requires
        table.peers.dom().finite(),
    ensures
        table.peers.dom().len() == table.in_status(Status::Idle).len() + table.in_status(
            Status::OutConnecting,
        ).len() + table.in_status(Status::OutHandshaking).len() + table.in_status(
            Status::OutAlive,
        ).len() + table.in_status(Status::InHandshaking).len() + table.in_status(
            Status::InAlive,
        ).len() + table.in_status(Status::Banned).len() + table.in_status(Status::Local).len(),
    decreases table.peers.dom().len(),
{
    if table.peers.dom().is_empty() {
        assert forall|status: Status| #[trigger] table.in_status(status).len() == 0 by {
            assert(table.in_status(status) =~= Set::empty());
        }
    } else {
        let ip = table.peers.dom().choose();
        let peer = table.peers[ip];
        let fewer = PeerTable { peers: table.peers.remove(ip), ..table };
        lemma_statuses_partition(fewer);
        assert(fewer.peers.insert(ip, peer) =~= table.peers);
        assert forall|status: Status| #[trigger]
            table.in_status(status).len() == fewer.in_status(status).len() + if peer.status
                == status {
                1int
            } else {
                0
            } by {
            lemma_in_status_insert(fewer, ip, peer, status);
            assert(!fewer.in_status(status).contains(ip));
        }
    }
}

/// A move keeps what each count exceeds its peers by: a table that counts exactly goes on doing
/// so, and one that counts an address too many goes on counting exactly that much too many.
pub proof fn law_update_keeps_surplus(table: PeerTable, ip: Seq<char>, to: Status, now: Timestamp)
    requires
        table.peers.dom().finite(),
        to != Status::Local,
        table.status(ip) != Some(Status::Local),
    ensures
        forall|status: Status|
            status != Status::Local ==> #[trigger] table.updated(ip, to, now).surplus(status)
                == table.surplus(status),
        table.updated(ip, to, now).peers.dom().finite(),
        table.wf() ==> table.updated(ip, to, now).wf(),
        table.exact() ==> table.updated(ip, to, now).exact(),
{
    let after = table.updated(ip, to, now);
    let peer = after.peers[ip];
    assert forall|status: Status| status != Status::Local implies #[trigger] after.surplus(status)
        == table.surplus(status) by {
        lemma_in_status_insert(table, ip, peer, status);
        let moved = PeerTable { peers: table.peers.insert(ip, peer), ..table };
        assert(after.in_status(status) =~= moved.in_status(status));
        assert(table.in_status(status).contains(ip) <==> table.status(ip) == Some(status));
    }
}

/// The count of the status that a peer leaves is never zero, so that it can be lowered by one.
pub proof fn law_left_count_is_positive(table: PeerTable, ip: Seq<char>, from: Status)
    requires
        table.wf(),
        from != Status::Local,
        table.status(ip) == Some(from),
    ensures
        table.tally.of(from) > 0,
{
    assert(table.surplus(from) >= 0);
    assert(table.in_status(from).contains(ip));
    table.peers.dom().lemma_len_filter(|ip: Seq<char>| table.peers[ip].status == from);
    if table.in_status(from).len() == 0 {
        assert(table.in_status(from) =~= Set::empty());
    }
}

/// Where the counts are exact, every known peer is counted once, but for the local ones, which are
/// not counted. Where they are not, no fewer peers are counted.
pub proof fn law_every_peer_is_counted_once(table: PeerTable)
    requires
        table.peers.dom().finite(),
    ensures
        table.exact() && table.without_local() ==> table.tally.total() == table.peers.dom().len(),
        table.exact() ==> table.tally.total() + table.in_status(Status::Local).len()
            == table.peers.dom().len(),
        table.wf() ==> table.tally.total() + table.in_status(Status::Local).len()
            >= table.peers.dom().len(),
{
    lemma_statuses_partition(table);
    let gap = table.surplus(Status::Idle) + table.surplus(Status::OutConnecting) + table.surplus(
        Status::OutHandshaking,
    ) + table.surplus(Status::OutAlive) + table.surplus(Status::InHandshaking) + table.surplus(
        Status::InAlive,
    ) + table.surplus(Status::Banned);
    assert(table.tally.total() + table.in_status(Status::Local).len() == table.peers.dom().len()
        + gap);
    if table.without_local() {
        assert forall|ip: Seq<char>| !table.in_status(Status::Local).contains(ip) by {
            assert(table.status(ip) != Some(Status::Local));
        }
        assert(table.in_status(Status::Local) =~= Set::empty());
    }
}

/// Among peers that are not local, a move, granted or refused, leaves exact counts exact: every
/// known peer, and one that was taken in by the move, is still counted once.
pub proof fn law_update_counts_every_peer_once(
    table: PeerTable,
    ip: Seq<char>,
    to: Status,
    now: Timestamp,
)
    requires
        table.peers.dom().finite(),
        table.exact(),
        table.without_local(),
        to != Status::Local,
    ensures
        table.updated(ip, to, now).exact(),
        table.updated(ip, to, now).without_local(),
        table.updated(ip, to, now).tally.total() == table.updated(ip, to, now).peers.dom().len(),
{
    let after = table.updated(ip, to, now);
    assert(table.status(ip) != Some(Status::Local));
    law_update_keeps_surplus(table, ip, to, now);
    assert forall|other: Seq<char>| #[trigger] after.status(other) != Some(Status::Local) by {
        assert(table.status(other) != Some(Status::Local));
    }
    law_every_peer_is_counted_once(after);
}

/// A move that was granted is granted when it is asked for again, and one that was refused is
/// refused again. The second time no status and no count changes.
pub proof fn law_update_asked_again(
    table: PeerTable,
    ip: Seq<char>,
    to: Status,
    now: Timestamp,
    later: Timestamp,
)
    requires
        to != Status::Local,
        table.status(ip) != Some(Status::Local),
    ensures
        ({
            let once = table.updated(ip, to, now);
            &&& once.updatable(ip, to)
            &&& once.answer(ip, to) == table.answer(ip, to)
            &&& once.updated(ip, to, later).stands_like(once)
        }),
{
}

/// A report that is made twice is answered both times alike. The second time no status and no
/// count changes.
pub proof fn law_report_made_again(
    table: PeerTable,
    report: PeerReport,
    now: Timestamp,
    later: Timestamp,
)
    requires
        table.takes(report),
    ensures
        ({
            let once = table.told(report, now);
            &&& once.takes(report)
            &&& once.reply(report) == table.reply(report)
            &&& once.told(report, later).stands_like(once)
        }),
{
}

/// A peer that is reported to misbehave is banned, whatever it was in.
pub proof fn law_misbehaving_peer_is_banned(table: PeerTable, ip: Seq<char>, now: Timestamp)
    requires
        table.takes(PeerReport::Misbehave(ip)),
    ensures
        table.told(PeerReport::Misbehave(ip), now).status(ip) == Some(Status::Banned),
{
}

/// A peer whose connection is lost is idle again, whatever it was in.
pub proof fn law_lost_peer_is_idle(table: PeerTable, ip: Seq<char>, now: Timestamp)
    requires
        table.takes(PeerReport::Disconnected(ip)),
    ensures
        table.told(PeerReport::Disconnected(ip), now).status(ip) == Some(Status::Idle),
{
}

/// Every table that is built from a list of addresses counts at least its peers, and counts them
/// exactly if and only if no address occurs twice.
pub proof fn law_listing(ips: Seq<Seq<char>>)
    ensures
        PeerTable::listing(ips).wf(),
        PeerTable::listing(ips).exact() <==> ips.no_duplicates(),
{
    let table = PeerTable::listing(ips);
    assert(table.peers.dom() =~= ips.to_set());
    ips.lemma_cardinality_of_set();
    assert(table.in_status(Status::Idle) =~= ips.to_set());
    assert forall|status: Status| status != Status::Idle && status != Status::Local implies
        #[trigger] table.surplus(status) == 0 by {
        assert(table.in_status(status) =~= Set::empty());
    }
    assert(table.surplus(Status::Idle) == ips.len() - ips.to_set().len());
    if ips.no_duplicates() {
        ips.unique_seq_to_set();
    }
    if ips.to_set().len() == ips.len() {
        ips.lemma_no_dup_set_cardinality();
    }
}

/// Flagging an address as local takes its peer out of the peers of its status and leaves the
/// count of that status as it is.
pub proof fn law_flagging(table: PeerTable, ip: Seq<char>)
    requires
        table.peers.dom().finite(),
    ensures
        table.flagged(ip).peers.dom() == table.peers.dom(),
        forall|status: Status|
            status != Status::Local ==> #[trigger] table.flagged(ip).surplus(status)
                == table.surplus(status) + if table.status(ip) == Some(status) {
                1int
            } else {
                0
            },
        table.wf() ==> table.flagged(ip).wf(),
{
    let after = table.flagged(ip);
    assert(after.peers.dom() =~= table.peers.dom());
    assert forall|status: Status| status != Status::Local implies #[trigger] after.surplus(status)
        == table.surplus(status) + if table.status(ip) == Some(status) {
        1int
    } else {
        0
    } by {
        if table.peers.contains_key(ip) {
            lemma_in_status_insert(table, ip, after.peers[ip], status);
            assert(table.in_status(status).contains(ip) <==> table.status(ip) == Some(status));
        }
    }
}

/// A local peer stays local: neither a move that the table can carry out nor a report that it can
/// take in changes it, flagging leaves it local, and as it is not idle it is never chosen to be
/// connected to.
pub proof fn law_local_stays_local(
    table: PeerTable,
    local: Seq<char>,
    ip: Seq<char>,
    to: Status,
    now: Timestamp,
    report: PeerReport,
    chosen: Seq<Seq<char>>,
)
    requires
        table.status(local) == Some(Status::Local),
    ensures
        table.updatable(ip, to) ==> table.updated(ip, to, now).status(local) == Some(Status::Local),
        table.takes(report) ==> table.told(report, now).status(local) == Some(Status::Local),
        table.flagged(ip).status(local) == Some(Status::Local),
        !table.in_status(Status::Idle).contains(local),
        chosen.to_set().subset_of(table.in_status(Status::Idle)) ==> table.connecting(
            chosen,
        ).status(local) == Some(Status::Local),
{
    if chosen.contains(local) {
        assert(chosen.to_set().contains(local));
    }
}

/// Only a request for an incoming handshake is ever refused, and only by a peer that is banned or
/// connected. A refused request leaves every status and every count as it was.
pub proof fn law_refusal(table: PeerTable, ip: Seq<char>, to: Status, now: Timestamp)
    ensures
        table.answer(ip, to) is Err <==> {
            &&& to == Status::InHandshaking
            &&& {
                ||| table.status(ip) == Some(Status::Banned)
                ||| table.status(ip) == Some(Status::InAlive)
                ||| table.status(ip) == Some(Status::OutAlive)
            }
        },
        table.answer(ip, to) is Err ==> {
            &&& table.updated(ip, to, now).tally == table.tally
            &&& forall|other: Seq<char>| #[trigger]
                table.updated(ip, to, now).status(other) == table.status(other)
        },
        table.answer(ip, to) is Ok ==> table.updated(ip, to, now).status(ip) == Some(to),
{
}

/// A move concerns one peer: every other is left as it was.
pub proof fn law_update_is_local(
    table: PeerTable,
    ip: Seq<char>,
    to: Status,
    now: Timestamp,
    other: Seq<char>,
)
    requires
        other != ip,
    ensures
        table.updated(ip, to, now).peers.contains_key(other) <==> table.peers.contains_key(other),
        table.peers.contains_key(other) ==> table.updated(ip, to, now).peers[other]
            == table.peers[other],
{
}

/// No peer is ever forgotten: moving, flagging and connecting keep every address.
pub proof fn law_peers_are_kept(
    table: PeerTable,
    ip: Seq<char>,
    to: Status,
    now: Timestamp,
    report: PeerReport,
    chosen: Seq<Seq<char>>,
)
    ensures
        table.peers.dom().subset_of(table.updated(ip, to, now).peers.dom()),
        table.peers.dom().subset_of(table.told(report, now).peers.dom()),
        table.flagged(ip).peers.dom() == table.peers.dom(),
        table.connecting(chosen).peers.dom() == table.peers.dom(),
{
    assert(table.flagged(ip).peers.dom() =~= table.peers.dom());
    assert(table.connecting(chosen).peers.dom() =~= table.peers.dom());
}

/// Where the counts are exact, a count of idle peers above zero means that there is one.
pub proof fn law_counted_idle_peer_exists(table: PeerTable)
    requires
        table.exact(),
        table.tally.idle > 0,
    ensures
        exists|ip: Seq<char>| #[trigger] table.status(ip) == Some(Status::Idle),
{
    assert(table.surplus(Status::Idle) == 0);
    let idle = table.in_status(Status::Idle);
    assert(idle.len() > 0);
    if forall|ip: Seq<char>| !idle.contains(ip) {
        assert(idle =~= Set::empty());
    }
    let ip = choose|ip: Seq<char>| idle.contains(ip);
    assert(table.status(ip) == Some(Status::Idle));
}

/// Where the open and the opening connections to peers were within a target, they still are after
/// the node began to connect to no more peers than were missing.
pub proof fn law_target_is_kept(table: PeerTable, target: int, chosen: Seq<Seq<char>>)
    requires
        chosen.len() <= target - table.tally.out_alive - table.tally.out_connecting,
    ensures
        table.connecting(chosen).tally.out_alive + table.connecting(chosen).tally.out_connecting
            <= target,
{
}

/// Beginning to connect to one more idle peer is a move of that peer.
pub proof fn law_connecting_is_moving(
    table: PeerTable,
    chosen: Seq<Seq<char>>,
    ip: Seq<char>,
    now: Timestamp,
)
    requires
        table.status(ip) == Some(Status::Idle),
        !chosen.contains(ip),
    ensures
        table.connecting(chosen.push(ip)) == table.connecting(chosen).updated(
            ip,
            Status::OutConnecting,
            now,
        ),
        table.connecting(Seq::empty()) == table,
{
    let more = chosen.push(ip);
    assert forall|other: Seq<char>| #[trigger]
        more.contains(other) <==> (chosen.contains(other) || other == ip) by {
        assert(more[chosen.len() as int] == ip);
        if chosen.contains(other) {
            assert(more[chosen.index_of(other)] == other);
        }
    }
    let moved = table.connecting(chosen).updated(ip, Status::OutConnecting, now);
    assert(table.connecting(more).peers =~= moved.peers);
    assert(table.connecting(Seq::empty()).peers =~= table.peers);
}

/// Beginning to connect to distinct idle peers keeps what each count exceeds its peers by.
pub proof fn law_connecting_keeps_surplus(table: PeerTable, chosen: Seq<Seq<char>>)
    requires
        table.peers.dom().finite(),
        chosen.no_duplicates(),
        forall|i: int|
            0 <= i < chosen.len() ==> table.status(#[trigger] chosen[i]) == Some(Status::Idle),
    ensures
        table.connecting(chosen).peers.dom() == table.peers.dom(),
        forall|status: Status|
            status != Status::Local ==> #[trigger] table.connecting(chosen).surplus(status)
                == table.surplus(status),
    decreases chosen.len(),
{
    assert(table.connecting(chosen).peers.dom() =~= table.peers.dom());
    if chosen.len() == 0 {
        assert(table.connecting(chosen).peers =~= table.peers);
    } else {
        let fewer = chosen.drop_last();
        let ip = chosen.last();
        let any = Timestamp { secs: 0, nanos: 0 };
        assert(chosen =~= fewer.push(ip));
        assert(!fewer.contains(ip));
        assert forall|i: int| 0 <= i < fewer.len() implies table.status(#[trigger] fewer[i])
            == Some(Status::Idle) by {
            assert(fewer[i] == chosen[i]);
        }
        law_connecting_keeps_surplus(table, fewer);
        law_connecting_is_moving(table, fewer, ip, any);
        law_update_keeps_surplus(table.connecting(fewer), ip, Status::OutConnecting, any);
    }
}

/// Whatever a connection reports, no count comes to fall short of its peers, and exact counts stay
/// exact.
pub proof fn law_report_keeps_surplus(table: PeerTable, report: PeerReport, now: Timestamp)
    requires
        table.wf(),
        table.takes(report),
    ensures
        table.told(report, now).wf(),
        table.exact() ==> table.told(report, now).exact(),
{
    let after = table.told(report, now);
    match report {
        PeerReport::Alive(ip) => {
            match table.peers[ip].status.when_heard() {
                Some(to) => {
                    law_update_keeps_surplus(table, ip, to, now);
                },
                None => {},
            }
        },
        PeerReport::Disconnected(ip) => {
            law_update_keeps_surplus(table, ip, Status::Idle, now);
        },
        PeerReport::Misbehave(ip) => {
            law_update_keeps_surplus(table, ip, Status::Banned, now);
        },
        PeerReport::GoodIps(_) | PeerReport::GetGoodIps => {},
    }
    assert forall|status: Status| status != Status::Local implies #[trigger] after.surplus(status)
        == table.surplus(status) by {}
}

/// A connection that the node opens to an idle peer, hears it over and loses leads the peer
/// through every outgoing status and back, and every count to what it was.
pub proof fn law_outgoing_connection_comes_full_circle(
    table: PeerTable,
    ip: Seq<char>,
    now: Timestamp,
)
    requires
        table.status(ip) == Some(Status::Idle),
    ensures
        ({
            let connecting = table.updated(ip, Status::OutConnecting, now);
            let shaking = connecting.updated(ip, Status::OutHandshaking, now);
            let heard = shaking.told(PeerReport::Alive(ip), now);
            let gone = heard.told(PeerReport::Disconnected(ip), now);
            &&& heard.status(ip) == Some(Status::OutAlive)
            &&& heard.tally == table.tally.plus(Status::Idle, -1).plus(Status::OutAlive, 1)
            &&& gone.status(ip) == Some(Status::Idle)
            &&& gone.tally == table.tally
        }),
{
}

/// A connection that an idle peer opens, is heard over and loses leads the peer through every
/// incoming status and back, and every count to what it was.
pub proof fn law_incoming_connection_comes_full_circle(
    table: PeerTable,
    ip: Seq<char>,
    now: Timestamp,
)
    requires
        table.status(ip) == Some(Status::Idle),
    ensures
        ({
            let shaking = table.updated(ip, Status::InHandshaking, now);
            let heard = shaking.told(PeerReport::Alive(ip), now);
            let gone = heard.told(PeerReport::Disconnected(ip), now);
            &&& heard.status(ip) == Some(Status::InAlive)
            &&& heard.tally == table.tally.plus(Status::Idle, -1).plus(Status::InAlive, 1)
            &&& gone.status(ip) == Some(Status::Idle)
            &&& gone.tally == table.tally
        }),
{
}

/// Once a peer is banned it cannot be heard, and a connection that it opens is refused.
pub proof fn law_banned_peer_is_not_heard(table: PeerTable, ip: Seq<char>, now: Timestamp)
    requires
        table.status(ip) == Some(Status::Banned),
    ensures
        table.reply(PeerReport::Alive(ip)) is Err,
        table.told(PeerReport::Alive(ip), now) == table,
        table.answer(ip, Status::InHandshaking) == Err::<(), _>("Peer banned"@),
        table.updated(ip, Status::InHandshaking, now).status(ip) == Some(Status::Banned),
{
}

} // verus!
