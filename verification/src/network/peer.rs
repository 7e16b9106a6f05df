//! The peers that the node knows, and the status of each.
use vstd::prelude::*;
use vstd::hash_map::StringHashMap;
use crate::clock::{utc_now, Timestamp};
use crate::network::counts::StatusCounts;
use crate::network::table::PeerTable;

verus! {

/// The address of a peer, as text.
pub type IP = String;

/// What the node is doing with a peer.
#[derive(Clone, Copy, PartialEq, Eq, Structural, Debug)]
pub enum Status {
    Idle,
    OutConnecting,
    OutHandshaking,
    OutAlive,
    InHandshaking,
    InAlive,
    Banned,
    Local,
}

impl Status {
    /// A banned or connected peer does not start an incoming handshake. No other move is refused.
    pub open spec fn refuses(self, to: Status) -> bool {
        to == Status::InHandshaking && (self == Status::Banned || self == Status::InAlive || self
            == Status::OutAlive)
    }

    /// The moves that count as a failure of the peer.
    pub open spec fn stamps_failure(self, to: Status) -> bool {
        ||| self == Status::Banned && to == Status::InHandshaking
        ||| self == Status::InHandshaking && to == Status::Idle
        ||| to == Status::Banned
    }

    /// The moves that show the peer to be alive.
    pub open spec fn stamps_alive(self, to: Status) -> bool {
        to == Status::InAlive || to == Status::OutAlive
    }

    /// The status that a peer takes when it is heard: only one that is connected or shaking hands
    /// can be.
    pub open spec fn when_heard(self) -> Option<Status> {
        match self {
            Status::InAlive | Status::InHandshaking => Some(Status::InAlive),
            Status::OutAlive | Status::OutHandshaking => Some(Status::OutAlive),
            _ => None,
        }
    }

    /// The name of the status.
    pub open spec fn name_text(self) -> Seq<char> {
        match self {
            Status::Idle => "Idle"@,
            Status::OutConnecting => "OutConnecting"@,
            Status::OutHandshaking => "OutHandshaking"@,
            Status::OutAlive => "OutAlive"@,
            Status::InHandshaking => "InHandshaking"@,
            Status::InAlive => "InAlive"@,
            Status::Banned => "Banned"@,
            Status::Local => "Local"@,
        }
    }

    /// The name of the status.
    pub fn name(self) -> (name: &'static str)
        ensures
            name@ == self.name_text(),
    {
        match self {
            Status::Idle => "Idle",
            Status::OutConnecting => "OutConnecting",
            Status::OutHandshaking => "OutHandshaking",
            Status::OutAlive => "OutAlive",
            Status::InHandshaking => "InHandshaking",
            Status::InAlive => "InAlive",
            Status::Banned => "Banned",
            Status::Local => "Local",
        }
    }

    /// What a peer in this status answers to a move: the status it leaves, or why it stays.
    pub open spec fn answer(self, to: Status) -> Result<Status, Seq<char>> {
        if !self.refuses(to) {
            Ok(self)
        } else if self == Status::Banned {
            Err("Peer banned"@)
        } else {
            Err("Already connected"@)
        }
    }
}

/// One peer: its status, and when it was last seen alive and last seen to fail.
#[derive(Clone, Copy, PartialEq, Eq, Structural, Debug)]
pub struct Peer {
    pub status: Status,
    pub last_alive: Option<Timestamp>,
    pub last_failure: Option<Timestamp>,
}

impl Peer {
    /// A peer of which nothing has been seen yet.
    pub open spec fn fresh(status: Status) -> Peer {
        Peer { status, last_alive: None, last_failure: None }
    }

    /// The peer after it was asked at `now` to move to a status.
    pub open spec fn moved(self, to: Status, now: Timestamp) -> Peer {
        Peer {
            status: if self.status.refuses(to) {
                self.status
            } else {
                to
            },
            last_alive: if self.status.stamps_alive(to) {
                Some(now)
            } else {
                self.last_alive
            },
            last_failure: if self.status.stamps_failure(to) {
                Some(now)
            } else {
                self.last_failure
            },
        }
    }

    pub fn new() -> (peer: Self)
        ensures
            peer == Peer::fresh(Status::Idle),
    {
        Peer { status: Status::Idle, last_alive: None, last_failure: None }
    }

    pub fn from(status: Status) -> (peer: Self)
        ensures
            peer == Peer::fresh(status),
    {
        Peer { status, last_alive: None, last_failure: None }
    }

    /// Moves the peer to a status and returns the status it leaves. The clock is read only where
    /// the move is worth a stamp.
    pub fn set_status(&mut self, status: Status) -> (old_status: Result<Status, String>)
        ensures
            exists|now: Timestamp|
                now.is_reading() && *final(self) == #[trigger] old(self).moved(status, now),
            crate::text::answer_view(old_status) == old(self).status.answer(status),
    {
        let stamped: bool = match (self.status, status) {
            (Status::Banned, Status::InHandshaking) => true,
            (Status::InHandshaking, Status::Idle) => true,
            (_, Status::InAlive | Status::OutAlive | Status::Banned) => true,
            (_, _) => false,
        };
        if stamped {
            let now = utc_now();
            self.set_status_at(status, now)
        } else {
            proof {
                // Without a stamp the peer comes out the same whatever the clock shows.
                let any = Timestamp { secs: 0, nanos: 0 };
                assert(any.is_reading());
                assert(self.moved(status, any).last_alive == self.last_alive);
            }
            self.enter(status)
        }
    }

    /// [`set_status`](Peer::set_status) with the clock's reading handed in.
    pub fn set_status_at(&mut self, status: Status, now: Timestamp) -> (old_status: Result<
        Status,
        String,
    >)
        ensures
            *final(self) == old(self).moved(status, now),
            crate::text::answer_view(old_status) == old(self).status.answer(status),
    {
        match (self.status, status) {
            (Status::Banned, Status::InHandshaking) => {
                self.last_failure = Some(now);
            },
            (Status::InHandshaking, Status::Idle) => {
                self.last_failure = Some(now);
            },
            (_, Status::InAlive | Status::OutAlive) => {
                self.last_alive = Some(now);
            },
            (_, Status::Banned) => {
                self.last_failure = Some(now);
            },
            (_, _) => {},
        }
        self.enter(status)
    }

    /// Takes the status where nothing refuses it, and stamps nothing.
    fn enter(&mut self, status: Status) -> (old_status: Result<Status, String>)
        ensures
            *final(self) == (Peer {
                status: if old(self).status.refuses(status) {
                    old(self).status
                } else {
                    status
                },
                ..*old(self)
            }),
            crate::text::answer_view(old_status) == old(self).status.answer(status),
    {
        match (self.status, status) {
            (Status::Banned, Status::InHandshaking) => Err("Peer banned".to_string()),
            (Status::InAlive | Status::OutAlive, Status::InHandshaking) => Err(
                "Already connected".to_string(),
            ),
            (_, _) => {
                let old_status = self.status;
                self.status = status;
                Ok(old_status)
            },
        }
    }

    pub fn status(&self) -> (status: &Status)
        ensures
            *status == self.status,
    {
        &self.status
    }
}

/// The known peers, with a count for each status.
///
/// The addresses are also kept in the order in which they became known: that is the order in
/// which the peers are walked.
pub struct PeerController {
    peers: StringHashMap<Peer>,
    ips: Vec<IP>,
    counts: StatusCounts,
}

impl View for PeerController {
    type V = PeerTable;

    closed spec fn view(&self) -> PeerTable {
        PeerTable { peers: self.peers@, tally: self.counts@ }
    }
}

impl PeerController {
    /// The list of addresses holds each known peer once.
    pub closed spec fn indexed(&self) -> bool {
        &&& crate::text::texts(self.ips@).no_duplicates()
        &&& forall|ip: Seq<char>| #[trigger]
            crate::text::texts(self.ips@).contains(ip) <==> self.peers@.contains_key(ip)
    }

    /// What every controller keeps.
    pub open spec fn wf(&self) -> bool {
        self.indexed() && self@.wf()
    }

    pub fn new() -> (controller: Self)
        ensures
            controller.wf(),
            controller@ == PeerTable::listing(Seq::empty()),
    {
        let controller = PeerController {
            peers: StringHashMap::new(),
            ips: Vec::new(),
            counts: StatusCounts::of_idle(0),
        };
        proof {
            crate::network::table::law_listing(Seq::empty());
            assert(controller@.peers =~= PeerTable::listing(Seq::empty()).peers);
        }
        controller
    }

    /// A controller that knows the listed peers, all idle.
    pub fn from(peers_ips: Vec<IP>) -> (controller: Self)
        ensures
            controller.wf(),
            controller@ == PeerTable::listing(crate::text::texts(peers_ips@)),
    {
        let len = peers_ips.len();
        let mut controller = PeerController {
            peers: StringHashMap::new(),
            ips: Vec::new(),
            counts: StatusCounts::of_idle(len as u64),
        };
        let ghost listed = crate::text::texts(peers_ips@);
        assert(controller.peers@ =~= PeerTable::listing(listed.take(0)).peers);
        for i in 0..len
            invariant
                len == peers_ips@.len(),
                listed == crate::text::texts(peers_ips@),
                controller.indexed(),
                controller.counts@ == PeerTable::listing(listed).tally,
                controller.peers@ == PeerTable::listing(listed.take(i as int)).peers,
        {
            let ip = &peers_ips[i];
            assert(listed[i as int] == ip@);
            assert(listed.take(i + 1) =~= listed.take(i as int).push(ip@));
            controller.add(ip, Peer::new());
            assert(controller.peers@ =~= PeerTable::listing(listed.take(i + 1)).peers) by {
                assert forall|other: Seq<char>| #[trigger]
                    listed.take(i + 1).contains(other) <==> (listed.take(i as int).contains(other)
                        || other == ip@) by {
                    assert(listed.take(i + 1)[i as int] == ip@);
                    if listed.take(i as int).contains(other) {
                        let k = listed.take(i as int).index_of(other);
                        assert(listed.take(i + 1)[k] == other);
                    }
                }
            }
        }
        assert(listed.take(len as int) =~= listed);
        proof {
            crate::network::table::law_listing(listed);
        }
        controller
    }

    /// Puts a peer under an address, known before or not.
    fn add(&mut self, ip: &IP, peer: Peer)
        requires
            old(self).indexed(),
        ensures
            final(self).indexed(),
            final(self).peers@ == old(self).peers@.insert(ip@, peer),
            final(self).counts == old(self).counts,
    {
        let ghost before = crate::text::texts(self.ips@);
        if !self.peers.contains_key(ip.as_str()) {
            self.ips.push(ip.clone());
            proof {
                let after = crate::text::texts(self.ips@);
                assert(after =~= before.push(ip@));
                assert(!before.contains(ip@));
                assert forall|other: Seq<char>| #[trigger]
                    after.contains(other) <==> (before.contains(other) || other == ip@) by {
                    assert(after[before.len() as int] == ip@);
                    if before.contains(other) {
                        assert(after[before.index_of(other)] == other);
                    }
                }
            }
        }
        self.peers.insert(ip.clone(), peer);
    }

    /// The peer opened a connection to the node. Only this move can be refused.
    pub fn on_peer_connect(&mut self, ip: &IP) -> (answer: Result<(), String>)
        requires
            old(self).wf(),
            old(self)@.updatable(ip@, Status::InHandshaking),
        ensures
            final(self).wf(),
            exists|now: Timestamp|
                now.is_reading() && final(self)@ == #[trigger] old(self)@.updated(
                    ip@,
                    Status::InHandshaking,
                    now,
                ),
            crate::text::answer_view(answer) == old(self)@.answer(ip@, Status::InHandshaking),
    {
        self.update_peer_status(ip, Status::InHandshaking)
    }

    /// The node began to connect to the peer.
    pub fn on_peer_out_connecting(&mut self, ip: &IP) -> (answer: Result<(), String>)
        requires
            old(self).wf(),
            old(self)@.updatable(ip@, Status::OutConnecting),
        ensures
            final(self).wf(),
            forall|now: Timestamp|
                final(self)@ == #[trigger] old(self)@.updated(ip@, Status::OutConnecting, now),
            exists|now: Timestamp|
                now.is_reading() && final(self)@ == #[trigger] old(self)@.updated(
                    ip@,
                    Status::OutConnecting,
                    now,
                ),
            answer is Ok,
    {
        self.update_peer_status(ip, Status::OutConnecting)
    }

    /// The connection to the peer is open, and the handshake has begun.
    pub fn on_peer_out_handshaking(&mut self, ip: &IP) -> (answer: Result<(), String>)
        requires
            old(self).wf(),
            old(self)@.updatable(ip@, Status::OutHandshaking),
        ensures
            final(self).wf(),
            forall|now: Timestamp|
                final(self)@ == #[trigger] old(self)@.updated(ip@, Status::OutHandshaking, now),
            exists|now: Timestamp|
                now.is_reading() && final(self)@ == #[trigger] old(self)@.updated(
                    ip@,
                    Status::OutHandshaking,
                    now,
                ),
            answer is Ok,
    {
        self.update_peer_status(ip, Status::OutHandshaking)
    }

    /// The peer that opened the connection was heard.
    pub fn on_peer_in_alive(&mut self, ip: &IP) -> (answer: Result<(), String>)
        requires
            old(self).wf(),
            old(self)@.updatable(ip@, Status::InAlive),
        ensures
            final(self).wf(),
            exists|now: Timestamp|
                now.is_reading() && final(self)@ == #[trigger] old(self)@.updated(
                    ip@,
                    Status::InAlive,
                    now,
                ),
            answer is Ok,
    {
        self.update_peer_status(ip, Status::InAlive)
    }

    /// The peer that the node connected to was heard.
    pub fn on_peer_out_alive(&mut self, ip: &IP) -> (answer: Result<(), String>)
        requires
            old(self).wf(),
            old(self)@.updatable(ip@, Status::OutAlive),
        ensures
            final(self).wf(),
            exists|now: Timestamp|
                now.is_reading() && final(self)@ == #[trigger] old(self)@.updated(
                    ip@,
                    Status::OutAlive,
                    now,
                ),
            answer is Ok,
    {
        self.update_peer_status(ip, Status::OutAlive)
    }

    /// The connection to the peer is gone, or never came about.
    pub fn on_peer_failed(&mut self, ip: &IP) -> (answer: Result<(), String>)
        requires
            old(self).wf(),
            old(self)@.updatable(ip@, Status::Idle),
        ensures
            final(self).wf(),
            exists|now: Timestamp|
                now.is_reading() && final(self)@ == #[trigger] old(self)@.updated(
                    ip@,
                    Status::Idle,
                    now,
                ),
            answer is Ok,
    {
        self.update_peer_status(ip, Status::Idle)
    }

    /// The peer broke the rules.
    pub fn feedback_peer_banned(&mut self, ip: &IP) -> (answer: Result<(), String>)
        requires
            old(self).wf(),
            old(self)@.updatable(ip@, Status::Banned),
        ensures
            final(self).wf(),
            exists|now: Timestamp|
                now.is_reading() && final(self)@ == #[trigger] old(self)@.updated(
                    ip@,
                    Status::Banned,
                    now,
                ),
            answer is Ok,
    {
        self.update_peer_status(ip, Status::Banned)
    }

    /// [`update_peer_status`](PeerController::update_peer_status) with the clock's reading handed
    /// in.
    pub fn update_peer_status_at(&mut self, ip: &IP, status: Status, now: Timestamp) -> (answer:
        Result<(), String>)
        requires
            old(self).wf(),
            status != Status::Local,
            old(self)@.updatable(ip@, status),
        ensures
            final(self).wf(),
            final(self)@ == old(self)@.updated(ip@, status, now),
            old(self)@.exact() ==> final(self)@.exact(),
            crate::text::answer_view(answer) == old(self)@.answer(ip@, status),
    {
        match self.known(ip) {
            Some(mut peer) => {
                let outcome = peer.set_status_at(status, now);
                self.settle(ip, status, peer, outcome, Ghost(now))
            },
            None => {
                self.take_in(ip, status);
                Ok(())
            },
        }
    }

    /// Asks a peer to move to a status, or takes in a peer that is not known. A peer that refuses
    /// keeps its status, and the counts stay as they are. Exact counts stay exact either way.
    pub fn update_peer_status(&mut self, ip: &IP, status: Status) -> (answer: Result<(), String>)
        requires
            old(self).wf(),
            status != Status::Local,
            old(self)@.updatable(ip@, status),
        ensures
            final(self).wf(),
            exists|now: Timestamp|
                now.is_reading() && final(self)@ == #[trigger] old(self)@.updated(ip@, status, now),
            old(self)@.exact() ==> final(self)@.exact(),
            crate::text::answer_view(answer) == old(self)@.answer(ip@, status),
    {
        match self.known(ip) {
            Some(mut peer) => {
                let outcome = peer.set_status(status);
                let ghost now = choose|now: Timestamp|
                    now.is_reading() && peer == #[trigger] self@.peers[ip@].moved(status, now);
                self.settle(ip, status, peer, outcome, Ghost(now))
            },
            None => {
                self.take_in(ip, status);
                proof {
                    let any = Timestamp { secs: 0, nanos: 0 };
                    assert(any.is_reading());
                    assert(self@ == old(self)@.updated(ip@, status, any));
                }
                Ok(())
            },
        }
    }

    /// Whether a move can be carried out: a local peer makes none, and a full count takes no peer.
    pub fn is_updatable(&self, ip: &IP, status: Status) -> (updatable: bool)
        requires
            status != Status::Local,
        ensures
            updatable == self@.updatable(ip@, status),
    {
        let room: bool = match status {
            Status::Idle => self.counts.idle < u64::MAX,
            Status::OutConnecting => self.counts.out_connecting < u64::MAX,
            Status::OutHandshaking => self.counts.out_handshaking < u64::MAX,
            Status::OutAlive => self.counts.out_alive < u64::MAX,
            Status::InHandshaking => self.counts.in_handshaking < u64::MAX,
            Status::InAlive => self.counts.in_alive < u64::MAX,
            Status::Banned => self.counts.banned < u64::MAX,
            Status::Local => true,
        };
        match (self.peer_status(ip), status) {
            (None, _) => room,
            (Some(Status::Local), _) => false,
            (
                Some(Status::Banned | Status::InAlive | Status::OutAlive),
                Status::InHandshaking,
            ) => true,
            (Some(from), _) => from == status || room,
        }
    }

    /// The peer at an address.
    fn known(&self, ip: &IP) -> (peer: Option<Peer>)
        ensures
            peer == (if self@.peers.contains_key(ip@) {
                Some(self@.peers[ip@])
            } else {
                None
            }),
    {
        match self.peers.get(ip.as_str()) {
            Some(peer) => Some(*peer),
            None => None,
        }
    }

    /// Stores a known peer that was asked to move, and counts the move unless it was refused.
    fn settle(
        &mut self,
        ip: &IP,
        status: Status,
        peer: Peer,
        outcome: Result<Status, String>,
        Ghost(now): Ghost<Timestamp>,
    ) -> (answer: Result<(), String>)
        requires
            old(self).wf(),
            status != Status::Local,
            old(self)@.updatable(ip@, status),
            old(self)@.peers.contains_key(ip@),
            peer == old(self)@.peers[ip@].moved(status, now),
            crate::text::answer_view(outcome) == old(self)@.peers[ip@].status.answer(status),
        ensures
            final(self).wf(),
            final(self)@ == old(self)@.updated(ip@, status, now),
            old(self)@.exact() ==> final(self)@.exact(),
            crate::text::answer_view(answer) == old(self)@.answer(ip@, status),
    {
        proof {
            let from = self@.peers[ip@].status;
            crate::network::table::law_update_keeps_surplus(self@, ip@, status, now);
            crate::network::table::law_left_count_is_positive(self@, ip@, from);
        }
        self.add(ip, peer);
        let answer = match outcome {
            Ok(old_status) => {
                self.counts.leave(old_status);
                self.counts.enter(status);
                Ok(())
            },
            Err(message) => Err(message),
        };
        assert(self@.tally == old(self)@.updated(ip@, status, now).tally);
        answer
    }

    /// Takes in a peer that is not known.
    fn take_in(&mut self, ip: &IP, status: Status)
        requires
            old(self).wf(),
            status != Status::Local,
            old(self)@.updatable(ip@, status),
            !old(self)@.peers.contains_key(ip@),
        ensures
            final(self).wf(),
            forall|now: Timestamp| final(self)@ == #[trigger] old(self)@.updated(ip@, status, now),
            old(self)@.exact() ==> final(self)@.exact(),
    {
        proof {
            let never = Timestamp { secs: 0, nanos: 0 };
            crate::network::table::law_update_keeps_surplus(self@, ip@, status, never);
        }
        self.add(ip, Peer::from(status));
        self.counts.enter(status);
    }

    /// Marks an address as the node's own, if it is among the known ones, so that it is never
    /// connected to. The counts are not touched.
    pub fn flag_as_local(&mut self, ip: &IP)
        requires
            old(self).wf(),
        ensures
            final(self).wf(),
            final(self)@ == old(self)@.flagged(ip@),
    {
        proof {
            crate::network::table::law_flagging(self@, ip@);
        }
        match self.known(ip) {
            Some(mut peer) => {
                let _ = peer.set_status(Status::Local);
                self.add(ip, peer);
            },
            None => {},
        }
    }

    /// The addresses of all known peers.
    pub fn best_peers(&self) -> (ips: Vec<IP>)
        requires
            self.wf(),
        ensures
            self@.lists(crate::text::texts(ips@)),
            ips@.len() == self@.peers.dom().len(),
    {
        let mut ips: Vec<IP> = Vec::new();
        for i in 0..self.ips.len()
            invariant
                ips@ == self.ips@.take(i as int),
        {
            ips.push(self.ips[i].clone());
            assert(ips@ =~= self.ips@.take(i + 1));
        }
        assert(ips@ =~= self.ips@);
        assert(crate::text::texts(ips@).to_set() =~= self@.peers.dom());
        proof {
            crate::text::texts(ips@).unique_seq_to_set();
        }
        ips
    }

    /// The address of an idle peer, if there is one.
    pub fn best_idle_peer_ip(&self) -> (ip: Option<IP>)
        requires
            self.wf(),
        ensures
            match ip {
                Some(ip) => self@.status(ip@) == Some(Status::Idle),
                None => forall|ip: Seq<char>| #[trigger] self@.status(ip) != Some(Status::Idle),
            },
    {
        for i in 0..self.ips.len()
            invariant
                self.wf(),
                forall|j: int|
                    0 <= j < i ==> self@.status(#[trigger] crate::text::texts(self.ips@)[j])
                        != Some(Status::Idle),
        {
            let ip = &self.ips[i];
            assert(crate::text::texts(self.ips@)[i as int] == ip@);
            match self.known(ip) {
                Some(peer) => {
                    if *peer.status() == Status::Idle {
                        return Some(ip.clone());
                    }
                },
                None => {},
            }
        }
        assert forall|ip: Seq<char>| #[trigger] self@.status(ip) != Some(Status::Idle) by {
            if self@.peers.contains_key(ip) {
                let listed = crate::text::texts(self.ips@);
                assert(listed.contains(ip));
                assert(listed[listed.index_of(ip)] == ip);
            }
        }
        None
    }

    pub fn peer_status(&self, ip: &IP) -> (status: Option<Status>)
        ensures
            status == self@.status(ip@),
    {
        match self.known(ip) {
            Some(peer) => Some(*peer.status()),
            None => None,
        }
    }

    pub fn is_idle(&self, ip: &IP) -> (idle: Option<bool>)
        ensures
            idle == (match self@.status(ip@) {
                Some(status) => Some(status == Status::Idle),
                None => None,
            }),
    {
        match self.known(ip) {
            Some(peer) => Some(*peer.status() == Status::Idle),
            None => None,
        }
    }

    /// The addresses of all known peers, by reference.
    pub fn peers_ip(&self) -> (ips: Vec<&IP>)
        requires
            self.wf(),
        ensures
            self@.lists(ips@.map_values(|ip: &IP| ip@)),
    {
        let mut ips: Vec<&IP> = Vec::new();
        for i in 0..self.ips.len()
            invariant
                ips@.len() == i,
                forall|j: int| 0 <= j < i ==> *(#[trigger] ips@[j]) == self.ips@[j],
        {
            ips.push(&self.ips[i]);
        }
        assert(ips@.map_values(|ip: &IP| ip@) =~= crate::text::texts(self.ips@));
        assert(crate::text::texts(self.ips@).to_set() =~= self@.peers.dom());
        ips
    }

    pub fn idle(&self) -> (count: u64)
        ensures
            count == self@.tally.idle,
    {
        self.counts.idle
    }

    pub fn out_connecting(&self) -> (count: u64)
        ensures
            count == self@.tally.out_connecting,
    {
        self.counts.out_connecting
    }

    pub fn in_handshaking(&self) -> (count: u64)
        ensures
            count == self@.tally.in_handshaking,
    {
        self.counts.in_handshaking
    }

    pub fn out_handshaking(&self) -> (count: u64)
        ensures
            count == self@.tally.out_handshaking,
    {
        self.counts.out_handshaking
    }

    pub fn out_alive(&self) -> (count: u64)
        ensures
            count == self@.tally.out_alive,
    {
        self.counts.out_alive
    }

    pub fn in_alive(&self) -> (count: u64)
        ensures
            count == self@.tally.in_alive,
    {
        self.counts.in_alive
    }

    pub fn banned(&self) -> (count: u64)
        ensures
            count == self@.tally.banned,
    {
        self.counts.banned
    }
}

} // verus!
