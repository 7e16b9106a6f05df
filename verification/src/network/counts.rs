//! How many peers are counted in each status.
use vstd::prelude::*;
use crate::network::peer::Status;

verus! {

/// The counts as mathematical numbers. Local peers are not counted.
pub struct Tally {
    pub idle: int,
    pub out_connecting: int,
    pub out_handshaking: int,
    pub out_alive: int,
    pub in_handshaking: int,
    pub in_alive: int,
    pub banned: int,
}

impl Tally {
    pub open spec fn zero() -> Tally {
        Tally {
            idle: 0,
            out_connecting: 0,
            out_handshaking: 0,
            out_alive: 0,
            in_handshaking: 0,
            in_alive: 0,
            banned: 0,
        }
    }

    /// The count of one status.
    pub open spec fn of(self, status: Status) -> int {
        match status {
            Status::Idle => self.idle,
            Status::OutConnecting => self.out_connecting,
            Status::OutHandshaking => self.out_handshaking,
            Status::OutAlive => self.out_alive,
            Status::InHandshaking => self.in_handshaking,
            Status::InAlive => self.in_alive,
            Status::Banned => self.banned,
            Status::Local => 0,
        }
    }

    /// How many peers are counted, whatever their status.
    pub open spec fn total(self) -> int {
        self.idle + self.out_connecting + self.out_handshaking + self.out_alive
            + self.in_handshaking + self.in_alive + self.banned
    }

    /// The counts with `by` more peers in one status.
    pub open spec fn plus(self, status: Status, by: int) -> Tally {
        match status {
            Status::Idle => Tally { idle: self.idle + by, ..self },
            Status::OutConnecting => Tally { out_connecting: self.out_connecting + by, ..self },
            Status::OutHandshaking => Tally { out_handshaking: self.out_handshaking + by, ..self },
            Status::OutAlive => Tally { out_alive: self.out_alive + by, ..self },
            Status::InHandshaking => Tally { in_handshaking: self.in_handshaking + by, ..self },
            Status::InAlive => Tally { in_alive: self.in_alive + by, ..self },
            Status::Banned => Tally { banned: self.banned + by, ..self },
            Status::Local => self,
        }
    }
}

/// One counter for each status but `Local`.
pub struct StatusCounts {
    pub idle: u64,
    pub out_connecting: u64,
    pub out_handshaking: u64,
    pub out_alive: u64,
    pub in_handshaking: u64,
    pub in_alive: u64,
    pub banned: u64,
}

impl View for StatusCounts {
    type V = Tally;

    open spec fn view(&self) -> Tally {
        Tally {
            idle: self.idle as int,
            out_connecting: self.out_connecting as int,
            out_handshaking: self.out_handshaking as int,
            out_alive: self.out_alive as int,
            in_handshaking: self.in_handshaking as int,
            in_alive: self.in_alive as int,
            banned: self.banned as int,
        }
    }
}

impl StatusCounts {
    /// Counts that hold a number of idle peers and no others.
    pub fn of_idle(idle: u64) -> (counts: Self)
        ensures
            counts@ == Tally::zero().plus(Status::Idle, idle as int),
    {
        StatusCounts {
            idle,
            out_connecting: 0,
            out_handshaking: 0,
            out_alive: 0,
            in_handshaking: 0,
            in_alive: 0,
            banned: 0,
        }
    }

    /// Counts one peer out of a status.
    pub fn leave(&mut self, status: Status)
        requires
            status != Status::Local,
            old(self)@.of(status) > 0,
        ensures
            final(self)@ == old(self)@.plus(status, -1),
    {
        match status {
            Status::Idle => {
                self.idle -= 1;
            },
            Status::OutConnecting => {
                self.out_connecting -= 1;
            },
            Status::OutHandshaking => {
                self.out_handshaking -= 1;
            },
            Status::OutAlive => {
                self.out_alive -= 1;
            },
            Status::InHandshaking => {
                self.in_handshaking -= 1;
            },
            Status::InAlive => {
                self.in_alive -= 1;
            },
            Status::Banned => {
                self.banned -= 1;
            },
            Status::Local => {},
        }
    }

    /// Counts one peer into a status.
    pub fn enter(&mut self, status: Status)
        requires
            status != Status::Local,
            old(self)@.of(status) < u64::MAX,
        ensures
            final(self)@ == old(self)@.plus(status, 1),
    {
        match status {
            Status::Idle => {
                self.idle += 1;
            },
            Status::OutConnecting => {
                self.out_connecting += 1;
            },
            Status::OutHandshaking => {
                self.out_handshaking += 1;
            },
            Status::OutAlive => {
                self.out_alive += 1;
            },
            Status::InHandshaking => {
                self.in_handshaking += 1;
            },
            Status::InAlive => {
                self.in_alive += 1;
            },
            Status::Banned => {
                self.banned += 1;
            },
            Status::Local => {},
        }
    }
}

} // verus!
