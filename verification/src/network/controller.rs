//! Which connections the node opens and admits, and what it makes of what they report.
use vstd::prelude::*;
use crate::clock::Timestamp;
use crate::event::{PeerEvent, PeerReport};
use crate::json::{json_from_strings, strings_from_json};
use crate::network::peer::{PeerController, Status, IP};
use crate::network::table::PeerTable;

verus! {

/// A connection over which a handshake may begin: the address of the peer, the stream, and
/// whether the node opened it.
pub enum NetworkControllerEvent<S> {
    CandidateConnection(IP, S, bool),
}

/// The file of peers holds no list of addresses.
#[derive(Debug)]
pub struct PeersFileError(pub serde_json::Error);

/// Reads the list of addresses in the file of peers.
pub fn load_peers(content: &str) -> (ips: Result<Vec<IP>, PeersFileError>)
    ensures
        match ips {
            Ok(ips) => crate::json::json_strings(content@) == Some(crate::text::texts(ips@)),
            Err(_) => crate::json::json_strings(content@) is None,
        },
{
    match strings_from_json(content) {
        Ok(ips) => Ok(ips),
        Err(error) => Err(PeersFileError(error)),
    }
}

/// Whether a list of addresses names one that another list lacks.
pub open spec fn names_other(listed: Seq<Seq<char>>, current: Seq<Seq<char>>) -> bool {
    exists|i: int| 0 <= i < listed.len() && !current.contains(#[trigger] listed[i])
}

/// The file of peers as it is written: a list of the known addresses, in whatever order, from
/// which they can be read back.
pub open spec fn is_dump(table: PeerTable, text: Seq<char>) -> bool {
    exists|ips: Seq<Seq<char>>| #[trigger]
        table.lists(ips) && text == crate::json::json_text(ips) && crate::json::json_strings(text)
            == Some(ips)
}

/// Whether the file of peers must be written anew: it names an address that is not known.
pub fn is_stale(listed: &Vec<IP>, current: &Vec<IP>) -> (stale: bool)
    ensures
        stale == names_other(crate::text::texts(listed@), crate::text::texts(current@)),
{
    for i in 0..listed.len()
        invariant
            forall|j: int|
                0 <= j < i ==> crate::text::texts(current@).contains(
                    #[trigger] crate::text::texts(listed@)[j],
                ),
    {
        assert(crate::text::texts(listed@)[i as int] == listed@[i as int]@);
        if !contains_ip(current, &listed[i]) {
            return true;
        }
    }
    false
}

/// Whether a list holds an address.
fn contains_ip(ips: &Vec<IP>, ip: &IP) -> (found: bool)
    ensures
        found == crate::text::texts(ips@).contains(ip@),
{
    for i in 0..ips.len()
        invariant
            forall|j: int| 0 <= j < i ==> #[trigger] crate::text::texts(ips@)[j] != ip@,
    {
        assert(crate::text::texts(ips@)[i as int] == ips@[i as int]@);
        if ips[i] == *ip {
            return true;
        }
    }
    false
}

/// The peers of the node, and what is decided about them.
pub struct NetworkController {
    peers: PeerController,
}

impl View for NetworkController {
    type V = PeerTable;

    closed spec fn view(&self) -> PeerTable {
        self.peers@
    }
}

impl NetworkController {
    /// The peers are listed as they should be.
    pub closed spec fn indexed(&self) -> bool {
        self.peers.indexed()
    }

    /// What every controller keeps.
    pub open spec fn wf(&self) -> bool {
        self.indexed() && self@.wf()
    }

    /// A controller that knows the listed peers. The node's own addresses, as seen from within
    /// and from outside, are flagged so that it does not connect to itself.
    pub fn new(loc_peers: Vec<IP>, local_ip: &IP, public_ip: &IP) -> (controller: Self)
        ensures
            controller.wf(),
            controller@ == PeerTable::listing(crate::text::texts(loc_peers@)).flagged(
                local_ip@,
            ).flagged(public_ip@),
    {
        let mut peers = PeerController::from(loc_peers);
        peers.flag_as_local(local_ip);
        peers.flag_as_local(public_ip);
        NetworkController { peers }
    }

    /// The peers, to be looked at.
    pub fn peers(&self) -> (peers: &PeerController)
        ensures
            peers@ == self@,
            self.wf() ==> peers.wf(),
    {
        &self.peers
    }

    /// What the file of peers is to hold instead of `content`, if it is to be written anew.
    pub fn peers_file_update(&self, content: &str) -> (update: Result<
        Option<String>,
        PeersFileError,
    >)
        requires
            self.wf(),
        ensures
            update is Err <==> crate::json::json_strings(content@) is None,
            update matches Ok(None) ==> self@.knows_all(crate::json::json_strings(content@)->0),
            update matches Ok(Some(text)) ==> {
                &&& !self@.knows_all(crate::json::json_strings(content@)->0)
                &&& is_dump(self@, text@)
            },
    {
        match load_peers(content) {
            Err(error) => Err(error),
            Ok(listed) => {
                let current = self.peers.best_peers();
                let ghost known = crate::text::texts(current@);
                assert forall|ip: Seq<char>| #[trigger]
                    known.contains(ip) <==> self@.peers.contains_key(ip) by {
                    assert(known.to_set().contains(ip) <==> known.contains(ip));
                }
                let ghost named = crate::text::texts(listed@);
                if is_stale(&listed, &current) {
                    let text = json_from_strings(&current).unwrap();
                    proof {
                        let i = choose|i: int|
                            0 <= i < named.len() && !known.contains(#[trigger] named[i]);
                        assert(!self@.peers.contains_key(named[i]));
                        assert(self@.lists(known));
                    }
                    Ok(Some(text))
                } else {
                    assert(self@.knows_all(named));
                    Ok(None)
                }
            },
        }
    }

    /// How many connections to open so that `target_out_connections` are open or opening, as far
    /// as idle peers are counted. `None` where none is counted.
    pub fn plan_out_connections(&self, target_out_connections: u64) -> (to_connect: Option<u64>)
        requires
            self@.tally.out_alive + self@.tally.out_connecting <= target_out_connections,
        ensures
            to_connect is None <==> self@.tally.idle == 0,
            to_connect matches Some(amount) ==> {
                let available_slots = target_out_connections - self@.tally.out_alive
                    - self@.tally.out_connecting;
                amount == if self@.tally.idle > available_slots {
                    available_slots
                } else {
                    self@.tally.idle
                }
            },
    {
        let out_alive: u64 = self.peers.out_alive();
        let currently_out_co: u64 = self.peers.out_connecting();
        let available_slots: u64 = target_out_connections - out_alive - currently_out_co;
        let available_peer: u64 = self.peers.idle();
        if available_peer == 0 {
            None
        } else if available_peer > available_slots {
            Some(available_slots)
        } else {
            Some(available_peer)
        }
    }

    /// Begins to connect to `to_connect` idle peers, or to all of them where there are fewer, and
    /// returns their addresses.
    pub fn begin_out_connections(&mut self, to_connect: u64) -> (chosen: Vec<IP>)
        requires
            old(self).wf(),
            old(self)@.tally.out_connecting + to_connect <= u64::MAX || old(
                self,
            )@.tally.out_connecting + old(self)@.in_status(Status::Idle).len() <= u64::MAX,
        ensures
            final(self).wf(),
            final(self)@ == old(self)@.connecting(crate::text::texts(chosen@)),
            crate::text::texts(chosen@).no_duplicates(),
            crate::text::texts(chosen@).to_set().subset_of(old(self)@.in_status(Status::Idle)),
            chosen@.len() == (if old(self)@.in_status(Status::Idle).len() < to_connect {
                old(self)@.in_status(Status::Idle).len()
            } else {
                to_connect as nat
            }),
    {
        let mut chosen: Vec<IP> = Vec::new();
        let ghost idle = self@.in_status(Status::Idle);
        proof {
            let before = self@;
            before.peers.dom().lemma_len_filter(
                |ip: Seq<char>| before.peers[ip].status == Status::Idle,
            );
            assert(before.connecting(crate::text::texts(chosen@)).peers =~= before.peers);
        }
        let mut n: u64 = 0;
        while n < to_connect
            invariant
                self.wf(),
                n <= to_connect,
                n == chosen@.len(),
                idle == old(self)@.in_status(Status::Idle),
                idle.finite(),
                self@ == old(self)@.connecting(crate::text::texts(chosen@)),
                crate::text::texts(chosen@).no_duplicates(),
                crate::text::texts(chosen@).to_set().subset_of(idle),
                old(self)@.tally.out_connecting + to_connect <= u64::MAX || old(
                    self,
                )@.tally.out_connecting + idle.len() <= u64::MAX,
            ensures
                n == to_connect || crate::text::texts(chosen@).to_set() == idle,
            decreases to_connect - n,
        {
            let ghost picked = crate::text::texts(chosen@);
            match self.peers.best_idle_peer_ip() {
                None => {
                    assert forall|ip: Seq<char>| idle.contains(ip) implies picked.to_set().contains(
                        ip,
                    ) by {
                        assert(self@.status(ip) != Some(Status::Idle));
                    }
                    assert(picked.to_set() =~= idle);
                    break;
                },
                Some(ip) => {
                    proof {
                        assert(!picked.contains(ip@));
                        assert(idle.contains(ip@));
                        lemma_room_for_one(picked, ip@, idle);
                    }
                    let _ = self.peers.on_peer_out_connecting(&ip);
                    chosen.push(ip);
                    proof {
                        assert(crate::text::texts(chosen@) =~= picked.push(ip@));
                        let any = Timestamp { secs: 0, nanos: 0 };
                        crate::network::table::law_connecting_is_moving(
                            old(self)@,
                            picked,
                            ip@,
                            any,
                        );
                        assert(self@ == old(self)@.connecting(picked).updated(
                            ip@,
                            Status::OutConnecting,
                            any,
                        ));
                    }
                    n = n + 1;
                },
            }
        }
        proof {
            let picked = crate::text::texts(chosen@);
            picked.unique_seq_to_set();
            vstd::set_lib::lemma_len_subset(picked.to_set(), idle);
        }
        chosen
    }

    /// The attempt to connect to a peer has ended: with a stream, over which the handshake begins,
    /// or without one.
    pub fn on_connect_result(&mut self, ip: &IP, connected: bool)
        requires
            old(self).wf(),
            connected ==> old(self)@.updatable(ip@, Status::OutHandshaking),
            !connected ==> old(self)@.updatable(ip@, Status::Idle),
        ensures
            final(self).wf(),
            connected ==> forall|now: Timestamp|
                final(self)@ == #[trigger] old(self)@.updated(ip@, Status::OutHandshaking, now),
            connected ==> exists|now: Timestamp|
                now.is_reading() && final(self)@ == #[trigger] old(self)@.updated(
                    ip@,
                    Status::OutHandshaking,
                    now,
                ),
            !connected ==> exists|now: Timestamp|
                now.is_reading() && final(self)@ == #[trigger] old(self)@.updated(
                    ip@,
                    Status::Idle,
                    now,
                ),
    {
        let _ = if connected {
            self.peers.on_peer_out_handshaking(ip)
        } else {
            self.peers.on_peer_failed(ip)
        };
    }

    /// Whether handshakes over connections that the node opened may go on.
    pub fn may_finish_out(&self, max_simultaneous_out_connections: u64) -> (may: bool)
        ensures
            may == (self@.tally.out_handshaking <= max_simultaneous_out_connections),
    {
        self.peers.out_handshaking() <= max_simultaneous_out_connections
    }

    /// Whether the node may take another connection.
    pub fn may_accept(&self, max_inc_connections: u64) -> (may: bool)
        ensures
            may == (self@.tally.in_alive <= max_inc_connections),
    {
        self.peers.in_alive() <= max_inc_connections
    }

    /// Whether handshakes over connections that peers opened may go on.
    pub fn may_finish_in(&self, max_simultaneous_inc_connections: u64) -> (may: bool)
        ensures
            may == (self@.tally.in_handshaking <= max_simultaneous_inc_connections),
    {
        self.peers.in_handshaking() <= max_simultaneous_inc_connections
    }

    /// A peer opened a connection: it is let in if it is idle or not known yet. Any other is turned
    /// away with the status that it is in.
    pub fn on_accept(&mut self, ip: &IP) -> (admitted: Result<(), Status>)
        requires
            old(self).wf(),
            (old(self)@.status(ip@) is None || old(self)@.status(ip@) == Some(Status::Idle))
                ==> old(self)@.updatable(ip@, Status::InHandshaking),
        ensures
            final(self).wf(),
            match old(self)@.status(ip@) {
                None | Some(Status::Idle) => {
                    &&& admitted == Ok::<(), Status>(())
                    &&& forall|now: Timestamp|
                        final(self)@ == #[trigger] old(self)@.updated(
                            ip@,
                            Status::InHandshaking,
                            now,
                        )
                    &&& exists|now: Timestamp|
                        now.is_reading() && final(self)@ == #[trigger] old(self)@.updated(
                            ip@,
                            Status::InHandshaking,
                            now,
                        )
                },
                Some(status) => admitted == Err::<(), Status>(status) && final(self)@ == old(self)@,
            },
    {
        match self.peers.peer_status(ip) {
            Some(status) => {
                if status != Status::Idle {
                    return Err(status);
                }
            },
            None => {},
        }
        let _ = self.peers.on_peer_connect(ip);
        Ok(())
    }

    /// What the channel of candidate connections handed out: an event, or nothing once it is
    /// closed.
    pub fn wait_event<S>(received: Option<NetworkControllerEvent<S>>) -> (event: Result<
        NetworkControllerEvent<S>,
        String,
    >)
        ensures
            crate::text::answer_view(event) == (match received {
                Some(event) => Ok(event),
                None => Err("wait_event: Channel closed"@),
            }),
    {
        match received {
            Some(event) => Ok(event),
            None => Err("wait_event: Channel closed".to_string()),
        }
    }

    /// A peer was heard.
    pub fn feedback_peer_alive(&mut self, ip: &IP) -> (answer: Result<(), String>)
        requires
            old(self).wf(),
            old(self)@.takes(PeerReport::Alive(ip@)),
        ensures
            final(self).wf(),
            exists|now: Timestamp|
                now.is_reading() && final(self)@ == #[trigger] old(self)@.told(
                    PeerReport::Alive(ip@),
                    now,
                ),
            crate::text::answer_view(answer) == old(self)@.reply(PeerReport::Alive(ip@)),
    {
        let ghost any = Timestamp { secs: 0, nanos: 0 };
        let ghost report = PeerReport::Alive(ip@);
        assert(any.is_reading());
        let peer_status = self.peers.peer_status(ip).unwrap();
        let ghost before = self@;
        let answer = match peer_status {
            Status::InAlive | Status::InHandshaking => {
                let answer = self.peers.on_peer_in_alive(ip);
                proof {
                    let now = choose|now: Timestamp|
                        now.is_reading() && self@ == #[trigger] before.updated(
                            ip@,
                            Status::InAlive,
                            now,
                        );
                    assert(self@ == before.told(report, now));
                }
                answer
            },
            Status::OutAlive | Status::OutHandshaking => {
                let answer = self.peers.on_peer_out_alive(ip);
                proof {
                    let now = choose|now: Timestamp|
                        now.is_reading() && self@ == #[trigger] before.updated(
                            ip@,
                            Status::OutAlive,
                            now,
                        );
                    assert(self@ == before.told(report, now));
                }
                answer
            },
            _ => {
                let mut message = "Peer cannot switch from ".to_string();
                message.append(peer_status.name());
                message.append(" to Alive");
                assert(self@ == before.told(report, any));
                Err(message)
            },
        };
        answer
    }

    /// The connection to a peer is gone.
    pub fn feedback_peer_failed(&mut self, ip: &IP) -> (answer: Result<(), String>)
        requires
            old(self).wf(),
            old(self)@.updatable(ip@, Status::Idle),
        ensures
            final(self).wf(),
            exists|now: Timestamp|
                now.is_reading() && final(self)@ == #[trigger] old(self)@.updated(
                    ip@,
                    Status::Idle,
                    now,
                ),
            answer is Ok,
    {
        self.peers.on_peer_failed(ip)
    }

    /// A peer broke the rules.
    pub fn feedback_peer_banned(&mut self, ip: &IP) -> (answer: Result<(), String>)
        requires
            old(self).wf(),
            old(self)@.updatable(ip@, Status::Banned),
        ensures
            final(self).wf(),
            exists|now: Timestamp|
                now.is_reading() && final(self)@ == #[trigger] old(self)@.updated(
                    ip@,
                    Status::Banned,
                    now,
                ),
            answer is Ok,
    {
        self.peers.feedback_peer_banned(ip)
    }

    /// The addresses that are handed to a peer that asks for some.
    pub fn get_good_peer_ips(&self) -> (ips: Vec<IP>)
        requires
            self.wf(),
        ensures
            self@.lists(crate::text::texts(ips@)),
    {
        self.peers.best_peers()
    }

    /// A peer sent a list of addresses. Nothing is made of it.
    pub fn feedback_peer_list(&self, _peer_ip: &[IP]) {
    }

    /// Whether what a connection reports can be taken in.
    pub fn takes(&self, event: &PeerEvent) -> (taken: bool)
        ensures
            taken == self@.takes(event@),
    {
        match event {
            PeerEvent::Alive(ip) => match self.peers.peer_status(ip) {
                Some(Status::InAlive | Status::InHandshaking) => self.peers.is_updatable(
                    ip,
                    Status::InAlive,
                ),
                Some(Status::OutAlive | Status::OutHandshaking) => self.peers.is_updatable(
                    ip,
                    Status::OutAlive,
                ),
                Some(_) => true,
                None => false,
            },
            PeerEvent::Disconnected(ip) => self.peers.is_updatable(ip, Status::Idle),
            PeerEvent::Misbehave(ip) => self.peers.is_updatable(ip, Status::Banned),
            PeerEvent::GoodIps(_) | PeerEvent::GetGoodIps => true,
        }
    }

    /// Takes in what a connection reports, and returns the addresses that it asks for.
    pub fn on_peer_event(&mut self, event: PeerEvent) -> (answer: Result<Option<Vec<IP>>, String>)
        requires
            old(self).wf(),
            old(self)@.takes(event@),
        ensures
            final(self).wf(),
            exists|now: Timestamp|
                now.is_reading() && final(self)@ == #[trigger] old(self)@.told(event@, now),
            match (old(self)@.reply(event@), answer) {
                (Err(message), Err(error)) => error@ == message,
                (Ok(()), Ok(None)) => !(event is GetGoodIps),
                (Ok(()), Ok(Some(ips))) => event is GetGoodIps && old(self)@.lists(
                    crate::text::texts(ips@),
                ),
                _ => false,
            },
    {
        let ghost any = Timestamp { secs: 0, nanos: 0 };
        let ghost before = self@;
        assert(any.is_reading());
        match event {
            PeerEvent::Alive(ip) => match self.feedback_peer_alive(&ip) {
                Ok(()) => Ok(None),
                Err(message) => Err(message),
            },
            PeerEvent::Disconnected(ip) => {
                let _ = self.feedback_peer_failed(&ip);
                proof {
                    let now = choose|now: Timestamp|
                        now.is_reading() && self@ == #[trigger] before.updated(
                            ip@,
                            Status::Idle,
                            now,
                        );
                    assert(self@ == before.told(event@, now));
                }
                Ok(None)
            },
            PeerEvent::Misbehave(ip) => {
                let _ = self.feedback_peer_banned(&ip);
                proof {
                    let now = choose|now: Timestamp|
                        now.is_reading() && self@ == #[trigger] before.updated(
                            ip@,
                            Status::Banned,
                            now,
                        );
                    assert(self@ == before.told(event@, now));
                }
                Ok(None)
            },
            PeerEvent::GoodIps(peers_ip) => {
                self.feedback_peer_list(peers_ip.as_slice());
                assert(self@ == before.told(event@, any));
                Ok(None)
            },
            PeerEvent::GetGoodIps => {
                assert(self@ == before.told(event@, any));
                Ok(Some(self.get_good_peer_ips()))
            },
        }
    }
}

/// Some distinct idle peers do not use up the idle peers while one is not among them.
proof fn lemma_room_for_one(picked: Seq<Seq<char>>, ip: Seq<char>, idle: Set<Seq<char>>)
    requires
        idle.finite(),
        picked.no_duplicates(),
        picked.to_set().subset_of(idle),
        idle.contains(ip),
        !picked.contains(ip),
    ensures
        picked.len() < idle.len(),
        picked.push(ip).no_duplicates(),
        picked.push(ip).to_set().subset_of(idle),
{
    picked.unique_seq_to_set();
    vstd::set_lib::lemma_len_subset(picked.to_set().insert(ip), idle);
    assert(picked.push(ip).to_set() =~= picked.to_set().insert(ip)) by {
        picked.lemma_push_to_set_commute(ip);
    }
}

} // verus!
