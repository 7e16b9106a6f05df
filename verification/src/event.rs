//! The events that peers send each other.
use vstd::prelude::*;
use crate::network::IP;

verus! {

/// What one message between two nodes is about.
#[derive(Clone, Copy, PartialEq, Eq, Structural, Debug)]
pub enum ConsensusEvent {
    Handshake,
    Alive,
    Misbehave,
    GetGoodIps,
    GoodIps,
}

impl ConsensusEvent {
    /// The byte that stands for the event in a message.
    pub open spec fn code(self) -> u8 {
        match self {
            ConsensusEvent::Handshake => 1,
            ConsensusEvent::Alive => 2,
            ConsensusEvent::Misbehave => 3,
            ConsensusEvent::GetGoodIps => 4,
            ConsensusEvent::GoodIps => 5,
        }
    }

    /// The event that a byte stands for, if there is one.
    pub open spec fn of_code(id: u8) -> Option<ConsensusEvent> {
        if id == 1 {
            Some(ConsensusEvent::Handshake)
        } else if id == 2 {
            Some(ConsensusEvent::Alive)
        } else if id == 3 {
            Some(ConsensusEvent::Misbehave)
        } else if id == 4 {
            Some(ConsensusEvent::GetGoodIps)
        } else if id == 5 {
            Some(ConsensusEvent::GoodIps)
        } else {
            None
        }
    }

    pub fn to_u8(self) -> (id: u8)
        ensures
            id == self.code(),
    {
        match self {
            ConsensusEvent::Handshake => 1,
            ConsensusEvent::Alive => 2,
            ConsensusEvent::Misbehave => 3,
            ConsensusEvent::GetGoodIps => 4,
            ConsensusEvent::GoodIps => 5,
        }
    }

    pub fn from_u8(id: u8) -> (event: Result<Self, String>)
        ensures
            crate::text::answer_view(event) == (match ConsensusEvent::of_code(id) {
                Some(event) => Ok(event),
                None => Err("Unknow event"@),
            }),
    {
        match id {
            1 => Ok(ConsensusEvent::Handshake),
            2 => Ok(ConsensusEvent::Alive),
            3 => Ok(ConsensusEvent::Misbehave),
            4 => Ok(ConsensusEvent::GetGoodIps),
            5 => Ok(ConsensusEvent::GoodIps),
            _ => Err("Unknow event".to_string()),
        }
    }
}

/// What the connection to a peer tells the rest of the node.
#[derive(Debug)]
pub enum PeerEvent {
    Alive(IP),
    Disconnected(IP),
    Misbehave(IP),
    GoodIps(Vec<IP>),
    GetGoodIps,
}

/// [`PeerEvent`] with every string taken as its characters.
pub enum PeerReport {
    Alive(Seq<char>),
    Disconnected(Seq<char>),
    Misbehave(Seq<char>),
    GoodIps(Seq<Seq<char>>),
    GetGoodIps,
}

impl View for PeerEvent {
    type V = PeerReport;

    open spec fn view(&self) -> PeerReport {
        match self {
            PeerEvent::Alive(ip) => PeerReport::Alive(ip@),
            PeerEvent::Disconnected(ip) => PeerReport::Disconnected(ip@),
            PeerEvent::Misbehave(ip) => PeerReport::Misbehave(ip@),
            PeerEvent::GoodIps(ips) => PeerReport::GoodIps(crate::text::texts(ips@)),
            PeerEvent::GetGoodIps => PeerReport::GetGoodIps,
        }
    }
}

/// Every event is read back from its byte, and no byte stands for an event but that event's own.
pub proof fn law_event_codes(event: ConsensusEvent, id: u8)
    ensures
        ConsensusEvent::of_code(event.code()) == Some(event),
        ConsensusEvent::of_code(id) == Some(event) <==> id == event.code(),
{
}

} // verus!
