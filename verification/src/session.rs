//! The conversation with one connected peer.
//!
//! A [`Session`] decides; the program around it acts. Each [`Step`] says what to report to the
//! rest of the node and what to do next, and what came of that is handed to
//! [`step`](Session::step) as an [`Occurrence`].
use vstd::prelude::*;
use crate::event::{ConsensusEvent, PeerEvent, PeerReport};
use crate::frame::{decode_event, decode_size, HEADER_SIZE};
use crate::network::IP;
use crate::payload::{decode_good_ips, encode_event, PayloadError, PayloadFault};
use crate::text::tagged;

verus! {

/// How far the conversation has come.
#[derive(Clone, Copy, PartialEq, Eq, Structural, Debug)]
pub enum Phase {
    /// The node opened the connection and is sending its handshake.
    SendingHandshake,
    /// The peer opened the connection, and its handshake is awaited.
    AwaitingHandshake,
    /// Nothing is under way. The next message, or the next tick, is awaited.
    Listening,
    /// The peer is being asked for addresses.
    SendingRequest,
    /// The header of a message was read, and its payload is awaited.
    ReadingPayload(ConsensusEvent),
    /// The peer asked for addresses, and the rest of the node was asked for them.
    AwaitingGoodIps,
    /// The addresses are being sent.
    SendingGoodIps,
    /// The conversation is over.
    Closed,
}

/// What came of the last action.
pub enum Occurrence {
    /// The bytes were written.
    Written,
    /// They were not, and why.
    WriteFailed(String),
    /// A header was read.
    Header([u8; HEADER_SIZE]),
    /// None was, and why.
    HeaderFailed(String),
    /// It is time to ask the peer for addresses.
    Tick,
    /// The payload was read.
    Payload(Vec<u8>),
    /// It could not be read to its end. The buffer holds what was read, and zeros.
    PayloadFailed(Vec<u8>),
    /// The rest of the node handed out addresses.
    GoodIps(Vec<IP>),
    /// The rest of the node will not answer.
    ReplyLost,
}

/// What to do next.
pub enum Action {
    /// Write these bytes.
    Write(Vec<u8>),
    /// Read a header.
    ReadHeader,
    /// Read a header, or wait for the next tick, whichever comes first.
    Listen,
    /// Read a payload of this size.
    ReadPayload(u64),
    /// Ask the rest of the node for addresses.
    AskGoodIps,
    /// Drop the connection, for this reason.
    Close(String),
    /// Fail: the peer sent a message that should carry addresses and does not.
    Fail(PayloadError),
}

/// What to report, in this order, and what to do then.
pub struct Step {
    pub reports: Vec<PeerEvent>,
    pub action: Action,
}

/// [`Occurrence`] as a mathematical value.
pub enum Happening {
    Written,
    WriteFailed(Seq<char>),
    Header(Seq<u8>),
    HeaderFailed(Seq<char>),
    Tick,
    Payload(Seq<u8>),
    PayloadFailed(Seq<u8>),
    GoodIps(Seq<Seq<char>>),
    ReplyLost,
}

/// [`Action`] as a mathematical value.
pub enum Deed {
    Write(Seq<u8>),
    ReadHeader,
    Listen,
    ReadPayload(nat),
    AskGoodIps,
    Close(Seq<char>),
    Fail(PayloadFault),
}

/// What a session does: the phase that it enters, what it reports, and what is to be done.
pub struct Reaction {
    pub phase: Phase,
    pub reports: Seq<PeerReport>,
    pub deed: Deed,
}

impl View for Occurrence {
    type V = Happening;

    open spec fn view(&self) -> Happening {
        match self {
            Occurrence::Written => Happening::Written,
            Occurrence::WriteFailed(error) => Happening::WriteFailed(error@),
            Occurrence::Header(header) => Happening::Header(header@),
            Occurrence::HeaderFailed(error) => Happening::HeaderFailed(error@),
            Occurrence::Tick => Happening::Tick,
            Occurrence::Payload(bytes) => Happening::Payload(bytes@),
            Occurrence::PayloadFailed(bytes) => Happening::PayloadFailed(bytes@),
            Occurrence::GoodIps(ips) => Happening::GoodIps(crate::text::texts(ips@)),
            Occurrence::ReplyLost => Happening::ReplyLost,
        }
    }
}

impl View for Action {
    type V = Deed;

    open spec fn view(&self) -> Deed {
        match self {
            Action::Write(bytes) => Deed::Write(bytes@),
            Action::ReadHeader => Deed::ReadHeader,
            Action::Listen => Deed::Listen,
            Action::ReadPayload(size) => Deed::ReadPayload(*size as nat),
            Action::AskGoodIps => Deed::AskGoodIps,
            Action::Close(reason) => Deed::Close(reason@),
            Action::Fail(error) => Deed::Fail(error@),
        }
    }
}

/// Each report of a list as a mathematical value.
pub open spec fn reports_view(reports: Seq<PeerEvent>) -> Seq<PeerReport> {
    reports.map_values(|report: PeerEvent| report@)
}

impl Phase {
    /// What can come of the action that a phase waits for.
    pub open spec fn expects(self, happening: Happening) -> bool {
        match self {
            Phase::SendingHandshake | Phase::SendingRequest | Phase::SendingGoodIps => happening
                is Written || happening is WriteFailed,
            Phase::AwaitingHandshake => happening is Header || happening is HeaderFailed,
            Phase::Listening => happening is Tick || happening is Header || happening
                is HeaderFailed,
            Phase::ReadingPayload(_) => happening is Payload || happening is PayloadFailed,
            Phase::AwaitingGoodIps => happening is GoodIps || happening is ReplyLost,
            Phase::Closed => false,
        }
    }

    /// The action that a phase waits for.
    pub open spec fn waits_for(self, deed: Deed) -> bool {
        match self {
            Phase::SendingHandshake | Phase::SendingRequest | Phase::SendingGoodIps => deed
                is Write,
            Phase::AwaitingHandshake => deed is ReadHeader,
            Phase::Listening => deed is Listen,
            Phase::ReadingPayload(_) => deed is ReadPayload,
            Phase::AwaitingGoodIps => deed is AskGoodIps,
            Phase::Closed => deed is Close || deed is Fail,
        }
    }
}

/// The connection is lost: the rest of the node is told.
pub open spec fn lost(ip: Seq<char>, reason: Seq<char>) -> Reaction {
    Reaction {
        phase: Phase::Closed,
        reports: seq![PeerReport::Disconnected(ip)],
        deed: Deed::Close(crate::text::tagged_text(ip, reason)),
    }
}

/// The conversation goes on.
pub open spec fn listening(reports: Seq<PeerReport>) -> Reaction {
    Reaction { phase: Phase::Listening, reports, deed: Deed::Listen }
}

/// What is made of a list of addresses that was read from a message, or not. `said` is what was
/// reported of the message before.
pub open spec fn on_addresses(
    said: Seq<PeerReport>,
    ips: Result<Seq<Seq<char>>, PayloadFault>,
) -> Reaction {
    match ips {
        Ok(ips) => listening(said.push(PeerReport::GoodIps(ips))),
        Err(fault) => Reaction { phase: Phase::Closed, reports: said, deed: Deed::Fail(fault) },
    }
}

/// What is made of a whole message. `said` is what was reported of it before.
pub open spec fn on_message(
    ip: Seq<char>,
    said: Seq<PeerReport>,
    event: ConsensusEvent,
    payload: Option<Seq<u8>>,
) -> Reaction {
    match event {
        ConsensusEvent::Handshake => Reaction {
            phase: Phase::Closed,
            reports: said.push(PeerReport::Misbehave(ip)),
            deed: Deed::Close("HANSDSHAKE already done"@),
        },
        ConsensusEvent::Alive => listening(said.push(PeerReport::Alive(ip))),
        ConsensusEvent::Misbehave => listening(said.push(PeerReport::Misbehave(ip))),
        ConsensusEvent::GetGoodIps => Reaction {
            phase: Phase::AwaitingGoodIps,
            reports: said,
            deed: Deed::AskGoodIps,
        },
        ConsensusEvent::GoodIps => on_addresses(said, crate::payload::payload_ips(payload)),
    }
}

/// What is made of a header that was read while listening.
pub open spec fn on_header(ip: Seq<char>, header: Seq<u8>) -> Reaction {
    let alive = seq![PeerReport::Alive(ip)];
    match crate::frame::header_event(header) {
        None => listening(alive.push(PeerReport::Misbehave(ip))),
        Some(event) => if crate::frame::header_size(header) > 0 {
            Reaction {
                phase: Phase::ReadingPayload(event),
                reports: alive,
                deed: Deed::ReadPayload(crate::frame::header_size(header)),
            }
        } else {
            on_message(ip, alive, event, None)
        },
    }
}

/// How a session begins: the node sends a handshake over a connection that it opened, and awaits
/// one over a connection that the peer opened.
pub open spec fn opening(is_outgoing: bool) -> Reaction {
    if is_outgoing {
        Reaction {
            phase: Phase::SendingHandshake,
            reports: Seq::empty(),
            deed: Deed::Write(crate::frame::frame_bytes(ConsensusEvent::Handshake, None)),
        }
    } else {
        Reaction {
            phase: Phase::AwaitingHandshake,
            reports: Seq::empty(),
            deed: Deed::ReadHeader,
        }
    }
}

/// How a session goes on.
pub open spec fn react(ip: Seq<char>, phase: Phase, happening: Happening) -> Reaction
    recommends
        phase.expects(happening),
{
    let alive = seq![PeerReport::Alive(ip)];
    match (phase, happening) {
        (Phase::SendingHandshake, Happening::Written) => listening(alive),
        (Phase::AwaitingHandshake, Happening::Header(header)) => if crate::frame::header_event(
            header,
        ) == Some(ConsensusEvent::Handshake) {
            listening(alive)
        } else {
            lost(ip, "handshake failed"@)
        },
        (Phase::AwaitingHandshake, Happening::HeaderFailed(error)) => lost(
            ip,
            "stream closed during hanshake "@ + error,
        ),
        (Phase::Listening, Happening::Tick) => Reaction {
            phase: Phase::SendingRequest,
            reports: Seq::empty(),
            deed: Deed::Write(crate::frame::frame_bytes(ConsensusEvent::GetGoodIps, None)),
        },
        (Phase::Listening, Happening::Header(header)) => on_header(ip, header),
        (Phase::Listening, Happening::HeaderFailed(_)) => lost(ip, "stream closed"@),
        (Phase::ReadingPayload(event), Happening::Payload(bytes)) => on_message(
            ip,
            Seq::empty(),
            event,
            Some(bytes),
        ),
        (Phase::ReadingPayload(event), Happening::PayloadFailed(bytes)) => on_message(
            ip,
            seq![PeerReport::Disconnected(ip)],
            event,
            Some(bytes),
        ),
        (Phase::AwaitingGoodIps, Happening::GoodIps(ips)) => Reaction {
            phase: Phase::SendingGoodIps,
            reports: Seq::empty(),
            deed: Deed::Write(
                crate::frame::frame_bytes(
                    ConsensusEvent::GoodIps,
                    Some(crate::payload::ips_payload(ips)),
                ),
            ),
        },
        (Phase::AwaitingGoodIps, Happening::ReplyLost) => Reaction {
            phase: Phase::Closed,
            reports: Seq::empty(),
            deed: Deed::Close(crate::text::tagged_text(ip, "Sender drop"@)),
        },
        (_, Happening::WriteFailed(error)) => lost(ip, error),
        (_, _) => listening(Seq::empty()),
    }
}

/// What a step and the phase that follows it come to.
pub open spec fn reaction_view(phase: Phase, step: Step) -> Reaction {
    Reaction { phase, reports: reports_view(step.reports@), deed: step.action@ }
}

/// The conversation with the peer at one address.
pub struct Session {
    pub ip: IP,
    pub phase: Phase,
}

impl Session {
    /// Begins a conversation over a new connection.
    pub fn start(ip: IP, is_outgoing: bool) -> (session: (Self, Step))
        ensures
            session.0.ip == ip,
            reaction_view(session.0.phase, session.1) == opening(is_outgoing),
    {
        let (phase, action) = if is_outgoing {
            (Phase::SendingHandshake, Action::Write(encode_event(ConsensusEvent::Handshake, None)))
        } else {
            (Phase::AwaitingHandshake, Action::ReadHeader)
        };
        let step = Step { reports: Vec::new(), action };
        assert(reports_view(step.reports@) =~= Seq::empty());
        (Session { ip, phase }, step)
    }

    /// Whether an occurrence can be handed in.
    pub fn expects(&self, occurrence: &Occurrence) -> (expected: bool)
        ensures
            expected == self.phase.expects(occurrence@),
    {
        match (self.phase, occurrence) {
            (
                Phase::SendingHandshake | Phase::SendingRequest | Phase::SendingGoodIps,
                Occurrence::Written | Occurrence::WriteFailed(_),
            ) => true,
            (
                Phase::AwaitingHandshake,
                Occurrence::Header(_) | Occurrence::HeaderFailed(_),
            ) => true,
            (
                Phase::Listening,
                Occurrence::Tick | Occurrence::Header(_) | Occurrence::HeaderFailed(_),
            ) => true,
            (
                Phase::ReadingPayload(_),
                Occurrence::Payload(_) | Occurrence::PayloadFailed(_),
            ) => true,
            (Phase::AwaitingGoodIps, Occurrence::GoodIps(_) | Occurrence::ReplyLost) => true,
            (_, _) => false,
        }
    }

    /// Goes on with what came of the last action. Addresses that are written can be read back by
    /// the peer.
    pub fn step(&mut self, occurrence: Occurrence) -> (step: Step)
        requires
            old(self).phase.expects(occurrence@),
        ensures
            final(self).ip == old(self).ip,
            reaction_view(final(self).phase, step) == react(
                old(self).ip@,
                old(self).phase,
                occurrence@,
            ),
            occurrence matches Occurrence::GoodIps(ips) ==> forall|receiving: Seq<char>| #[trigger]
                is_understood(step.action@, receiving, crate::text::texts(ips@)),
            occurrence matches Occurrence::GoodIps(ips) ==> crate::payload::carried(
                crate::text::texts(ips@),
            ),
    {
        match (self.phase, occurrence) {
            (Phase::SendingHandshake, Occurrence::Written) => self.listen_alive(),
            (Phase::AwaitingHandshake, Occurrence::Header(header)) => {
                match decode_event(&header) {
                    Ok(ConsensusEvent::Handshake) => self.listen_alive(),
                    _ => self.lose("handshake failed"),
                }
            },
            (Phase::AwaitingHandshake, Occurrence::HeaderFailed(error)) => {
                let mut reason = "stream closed during hanshake ".to_string();
                reason.append(error.as_str());
                self.lose(reason.as_str())
            },
            (Phase::Listening, Occurrence::Tick) => {
                self.phase = Phase::SendingRequest;
                quietly(Action::Write(encode_event(ConsensusEvent::GetGoodIps, None)))
            },
            (Phase::Listening, Occurrence::Header(header)) => self.read_header(&header),
            (Phase::Listening, Occurrence::HeaderFailed(_)) => self.lose("stream closed"),
            (Phase::ReadingPayload(event), Occurrence::Payload(bytes)) => {
                let reports: Vec<PeerEvent> = Vec::new();
                assert(reports_view(reports@) =~= Seq::empty());
                self.on_peer_consensus_event(reports, event, Some(bytes))
            },
            (Phase::ReadingPayload(event), Occurrence::PayloadFailed(bytes)) => {
                let reports = one_report(PeerEvent::Disconnected(self.ip.clone()));
                self.on_peer_consensus_event(reports, event, Some(bytes))
            },
            (Phase::AwaitingGoodIps, Occurrence::GoodIps(ips)) => {
                self.phase = Phase::SendingGoodIps;
                let ghost sent = crate::text::texts(ips@);
                let step = quietly(
                    Action::Write(encode_event(ConsensusEvent::GoodIps, Some(&ips))),
                );
                assert forall|receiving: Seq<char>| #[trigger]
                    is_understood(step.action@, receiving, sent) by {
                    law_addresses_reach_the_peer(self.ip@, receiving, sent);
                }
                step
            },
            (Phase::AwaitingGoodIps, Occurrence::ReplyLost) => {
                self.phase = Phase::Closed;
                quietly(Action::Close(tagged(&self.ip, "Sender drop")))
            },
            (_, Occurrence::WriteFailed(error)) => self.lose(error.as_str()),
            (_, _) => {
                self.phase = Phase::Listening;
                quietly(Action::Listen)
            },
        }
    }

    /// Reports that the peer is alive, and listens.
    fn listen_alive(&mut self) -> (step: Step)
        ensures
            final(self).ip == old(self).ip,
            reaction_view(final(self).phase, step) == listening(
                seq![PeerReport::Alive(old(self).ip@)],
            ),
    {
        self.phase = Phase::Listening;
        Step { reports: one_report(PeerEvent::Alive(self.ip.clone())), action: Action::Listen }
    }

    /// Gives the connection up.
    fn lose(&mut self, reason: &str) -> (step: Step)
        ensures
            final(self).ip == old(self).ip,
            reaction_view(final(self).phase, step) == lost(old(self).ip@, reason@),
    {
        self.phase = Phase::Closed;
        Step {
            reports: one_report(PeerEvent::Disconnected(self.ip.clone())),
            action: Action::Close(tagged(&self.ip, reason)),
        }
    }

    /// Goes on with a header.
    fn read_header(&mut self, header: &[u8; HEADER_SIZE]) -> (step: Step)
        ensures
            final(self).ip == old(self).ip,
            reaction_view(final(self).phase, step) == on_header(old(self).ip@, header@),
    {
        let reports = one_report(PeerEvent::Alive(self.ip.clone()));
        match decode_event(header) {
            Ok(event) => {
                let payload_size: u64 = decode_size(header);
                if payload_size > 0 {
                    self.phase = Phase::ReadingPayload(event);
                    Step { reports, action: Action::ReadPayload(payload_size) }
                } else {
                    self.on_peer_consensus_event(reports, event, None)
                }
            },
            Err(_) => {
                self.phase = Phase::Listening;
                let misbehaved = PeerEvent::Misbehave(self.ip.clone());
                Step { reports: and_report(reports, misbehaved), action: Action::Listen }
            },
        }
    }

    /// Goes on with a whole message, of which `said` was reported before.
    pub fn on_peer_consensus_event(
        &mut self,
        said: Vec<PeerEvent>,
        event: ConsensusEvent,
        payload: Option<Vec<u8>>,
    ) -> (step: Step)
        ensures
            final(self).ip == old(self).ip,
            reaction_view(final(self).phase, step) == on_message(
                old(self).ip@,
                reports_view(said@),
                event,
                match payload {
                    Some(bytes) => Some(bytes@),
                    None => None,
                },
            ),
    {
        match event {
            ConsensusEvent::Handshake => {
                self.phase = Phase::Closed;
                Step {
                    reports: and_report(said, PeerEvent::Misbehave(self.ip.clone())),
                    action: Action::Close("HANSDSHAKE already done".to_string()),
                }
            },
            ConsensusEvent::Alive => {
                self.phase = Phase::Listening;
                let alive = PeerEvent::Alive(self.ip.clone());
                Step { reports: and_report(said, alive), action: Action::Listen }
            },
            ConsensusEvent::Misbehave => {
                self.phase = Phase::Listening;
                let misbehaved = PeerEvent::Misbehave(self.ip.clone());
                Step { reports: and_report(said, misbehaved), action: Action::Listen }
            },
            ConsensusEvent::GetGoodIps => {
                self.phase = Phase::AwaitingGoodIps;
                Step { reports: said, action: Action::AskGoodIps }
            },
            ConsensusEvent::GoodIps => self.on_good_ips(said, decode_good_ips(payload)),
        }
    }

    /// Goes on with the addresses of a message, or with why there are none. `said` was reported
    /// of the message before.
    pub fn on_good_ips(
        &mut self,
        said: Vec<PeerEvent>,
        ips: Result<Vec<IP>, PayloadError>,
    ) -> (step: Step)
        ensures
            final(self).ip == old(self).ip,
            reaction_view(final(self).phase, step) == on_addresses(
                reports_view(said@),
                match ips {
                    Ok(ips) => Ok(crate::text::texts(ips@)),
                    Err(error) => Err(error@),
                },
            ),
    {
        match ips {
            Ok(ips) => {
                self.phase = Phase::Listening;
                Step { reports: and_report(said, PeerEvent::GoodIps(ips)), action: Action::Listen }
            },
            Err(error) => {
                self.phase = Phase::Closed;
                Step { reports: said, action: Action::Fail(error) }
            },
        }
    }
}

/// A list of one report.
fn one_report(report: PeerEvent) -> (reports: Vec<PeerEvent>)
    ensures
        reports_view(reports@) == seq![report@],
{
    let mut reports: Vec<PeerEvent> = Vec::new();
    reports.push(report);
    assert(reports_view(reports@) =~= seq![report@]);
    reports
}

/// A list of reports and one more.
fn and_report(said: Vec<PeerEvent>, report: PeerEvent) -> (reports: Vec<PeerEvent>)
    ensures
        reports_view(reports@) == reports_view(said@).push(report@),
{
    let mut reports = said;
    reports.push(report);
    assert(reports_view(reports@) =~= reports_view(said@).push(report@));
    reports
}

/// A step that reports nothing.
fn quietly(action: Action) -> (step: Step)
    ensures
        reports_view(step.reports@) == Seq::<PeerReport>::empty(),
        step.action == action,
{
    let step = Step { reports: Vec::new(), action };
    assert(reports_view(step.reports@) =~= Seq::empty());
    step
}

/// Whom a report is about, where it is about one peer.
pub open spec fn is_about(report: PeerReport, ip: Seq<char>) -> bool {
    match report {
        PeerReport::Alive(other) => other == ip,
        PeerReport::Disconnected(other) => other == ip,
        PeerReport::Misbehave(other) => other == ip,
        PeerReport::GoodIps(_) | PeerReport::GetGoodIps => true,
    }
}

/// Every phase is entered with the action that it waits for, so that what came of the action can
/// be handed in. A closed session waits for nothing more.
pub proof fn law_actions_suit_phases(
    ip: Seq<char>,
    phase: Phase,
    happening: Happening,
    is_outgoing: bool,
)
    requires
        phase.expects(happening),
    ensures
        opening(is_outgoing).phase.waits_for(opening(is_outgoing).deed),
        react(ip, phase, happening).phase.waits_for(react(ip, phase, happening).deed),
        phase != Phase::Closed,
{
}

/// A session reports of no peer but its own.
pub proof fn law_reports_are_about_the_peer(ip: Seq<char>, phase: Phase, happening: Happening)
    ensures
        forall|i: int|
            0 <= i < react(ip, phase, happening).reports.len() ==> is_about(
                #[trigger] react(ip, phase, happening).reports[i],
                ip,
            ),
{
}

/// Whenever the stream fails, the first report is that the peer is gone.
pub proof fn law_failures_are_reported(ip: Seq<char>, phase: Phase, happening: Happening)
    requires
        phase.expects(happening),
        happening is WriteFailed || happening is HeaderFailed || happening is PayloadFailed,
    ensures
        react(ip, phase, happening).reports.len() > 0,
        react(ip, phase, happening).reports[0] == PeerReport::Disconnected(ip),
{
}

/// Until the handshake is done nothing is reported but its outcome: that the peer is alive, after
/// which the conversation goes on, or that it is gone, after which it does not.
pub proof fn law_handshake_comes_first(ip: Seq<char>, phase: Phase, happening: Happening)
    requires
        phase == Phase::SendingHandshake || phase == Phase::AwaitingHandshake,
        phase.expects(happening),
    ensures
        ({
            let reaction = react(ip, phase, happening);
            let done = happening is Written || (happening matches Happening::Header(header)
                && crate::frame::header_event(header) == Some(ConsensusEvent::Handshake));
            &&& done ==> reaction == listening(seq![PeerReport::Alive(ip)])
            &&& !done ==> reaction.phase == Phase::Closed && reaction.reports
                == seq![PeerReport::Disconnected(ip)]
        }),
{
}

/// The handshake that one side sends is the one that the other awaits.
pub proof fn law_handshake_is_understood(ip: Seq<char>)
    ensures
        opening(true).deed matches Deed::Write(frame) && frame.len() == HEADER_SIZE && react(
            ip,
            opening(false).phase,
            Happening::Header(frame),
        ) == listening(seq![PeerReport::Alive(ip)]),
{
    let frame = crate::frame::frame_bytes(ConsensusEvent::Handshake, None);
    crate::frame::law_frame_roundtrip(ConsensusEvent::Handshake, None);
    assert(frame.take(HEADER_SIZE as int) =~= frame);
}

/// A header that announces no event is a sign of life and a misbehaviour, whatever size it gives,
/// and the conversation goes on.
pub proof fn law_unknown_message_is_a_misbehaviour(ip: Seq<char>, header: Seq<u8>)
    requires
        header.len() == HEADER_SIZE,
        !(1 <= header[0] <= 5),
    ensures
        ({
            let reaction = react(ip, Phase::Listening, Happening::Header(header));
            &&& reaction.reports == seq![PeerReport::Alive(ip), PeerReport::Misbehave(ip)]
            &&& reaction.phase == Phase::Listening
            &&& reaction.deed == Deed::Listen
        }),
{
    assert(seq![PeerReport::Alive(ip)].push(PeerReport::Misbehave(ip)) =~= seq![
        PeerReport::Alive(ip),
        PeerReport::Misbehave(ip),
    ]);
}

/// Whether what happened is the arrival of a message that is a misbehaviour in itself: one that is
/// unknown, a handshake when it has been done, or one by which the peer says that it misbehaved.
pub open spec fn is_misbehaviour(phase: Phase, happening: Happening) -> bool {
    match (phase, happening) {
        (Phase::Listening, Happening::Header(header)) => {
            ||| !(1 <= header[0] <= 5)
            ||| (header[0] == 1 || header[0] == 3) && forall|i: int|
                1 <= i < HEADER_SIZE ==> #[trigger] header[i] == 0
        },
        (Phase::ReadingPayload(event), Happening::Payload(_)) => event == ConsensusEvent::Handshake
            || event == ConsensusEvent::Misbehave,
        (Phase::ReadingPayload(event), Happening::PayloadFailed(_)) => event
            == ConsensusEvent::Handshake || event == ConsensusEvent::Misbehave,
        _ => false,
    }
}

/// A peer is reported to misbehave if it sent a message that is a misbehaviour, and for nothing
/// else.
pub proof fn law_only_misbehaviour_is_reported_as_such(
    ip: Seq<char>,
    phase: Phase,
    happening: Happening,
)
    requires
        phase.expects(happening),
        happening matches Happening::Header(header) ==> header.len() == HEADER_SIZE,
    ensures
        react(ip, phase, happening).reports.contains(PeerReport::Misbehave(ip)) <==>
            is_misbehaviour(phase, happening),
{
    let reports = react(ip, phase, happening).reports;
    if let Happening::Header(header) = happening {
        crate::frame::law_size_is_positional(header);
        assert(crate::frame::header_size(header) == 0 <==> forall|i: int|
            1 <= i < HEADER_SIZE ==> #[trigger] header[i] == 0) by {
            if crate::frame::header_size(header) == 0 {
                assert forall|i: int| 1 <= i < HEADER_SIZE implies #[trigger] header[i] == 0 by {}
            }
        }
    }
    if is_misbehaviour(phase, happening) {
        assert(reports[reports.len() - 1] == PeerReport::Misbehave(ip));
    }
}

/// Nothing is reported when a request or an answer has been written: the conversation goes on.
pub proof fn law_written_messages_are_not_reported(ip: Seq<char>, phase: Phase)
    requires
        phase.expects(Happening::Written),
        phase != Phase::SendingHandshake,
    ensures
        react(ip, phase, Happening::Written).reports.len() == 0,
        react(ip, phase, Happening::Written).phase == Phase::Listening,
        react(ip, phase, Happening::Written).deed == Deed::Listen,
{
}

/// Whatever can come of an action can be handed in once the action is done. After the connection
/// was dropped nothing can.
pub proof fn law_every_outcome_is_expected(
    ip: Seq<char>,
    phase: Phase,
    happening: Happening,
    outcome: Happening,
)
    requires
        phase.expects(happening),
    ensures
        ({
            let next = react(ip, phase, happening);
            next.phase.expects(outcome) <==> match next.deed {
                Deed::Write(_) => outcome is Written || outcome is WriteFailed,
                Deed::ReadHeader => outcome is Header || outcome is HeaderFailed,
                Deed::Listen => outcome is Tick || outcome is Header || outcome is HeaderFailed,
                Deed::ReadPayload(_) => outcome is Payload || outcome is PayloadFailed,
                Deed::AskGoodIps => outcome is GoodIps || outcome is ReplyLost,
                Deed::Close(_) | Deed::Fail(_) => false,
            }
        }),
{
}

/// A second handshake ends the conversation as a misbehaviour.
pub proof fn law_second_handshake_is_refused(ip: Seq<char>, payload: Option<Seq<u8>>)
    ensures
        ({
            let reaction = on_message(ip, Seq::empty(), ConsensusEvent::Handshake, payload);
            &&& reaction.phase == Phase::Closed
            &&& reaction.reports == seq![PeerReport::Misbehave(ip)]
        }),
{
    assert(Seq::<PeerReport>::empty().push(PeerReport::Misbehave(ip)) =~= seq![
        PeerReport::Misbehave(ip),
    ]);
}

/// The request for addresses that one side sends at a tick makes the other ask for some.
pub proof fn law_request_is_understood(asking: Seq<char>, asked: Seq<char>)
    ensures
        react(asking, Phase::Listening, Happening::Tick).deed matches Deed::Write(frame)
            && frame.len() == HEADER_SIZE && react(
            asked,
            Phase::Listening,
            Happening::Header(frame),
        ) == (Reaction {
            phase: Phase::AwaitingGoodIps,
            reports: seq![PeerReport::Alive(asked)],
            deed: Deed::AskGoodIps,
        }),
{
    let frame = crate::frame::frame_bytes(ConsensusEvent::GetGoodIps, None);
    crate::frame::law_frame_roundtrip(ConsensusEvent::GetGoodIps, None);
    assert(frame.take(HEADER_SIZE as int) =~= frame);
}

/// What is written is a message from which the peer that receives it learns these addresses: the
/// header makes it read the whole payload, and the payload makes it report the list.
pub open spec fn is_understood(deed: Deed, receiving: Seq<char>, ips: Seq<Seq<char>>) -> bool {
    deed matches Deed::Write(frame) && {
        let header = Happening::Header(frame.take(HEADER_SIZE as int));
        let payload = Happening::Payload(frame.skip(HEADER_SIZE as int));
        let first = react(receiving, Phase::Listening, header);
        &&& first.reports == seq![PeerReport::Alive(receiving)]
        &&& first.deed == Deed::ReadPayload(frame.skip(HEADER_SIZE as int).len())
        &&& react(receiving, first.phase, payload) == listening(seq![PeerReport::GoodIps(ips)])
    }
}

/// The addresses that one side hands out are the ones that the other reports. That a list is
/// carried by its payload is what [`encode_event`] promises of every list that it writes.
pub proof fn law_addresses_reach_the_peer(
    sending: Seq<char>,
    receiving: Seq<char>,
    ips: Seq<Seq<char>>,
)
    requires
        crate::payload::carried(ips),
    ensures
        is_understood(
            react(sending, Phase::AwaitingGoodIps, Happening::GoodIps(ips)).deed,
            receiving,
            ips,
        ),
{
    let payload = crate::payload::ips_payload(ips);
    crate::frame::law_frame_roundtrip(ConsensusEvent::GoodIps, Some(payload));
    assert(Seq::<PeerReport>::empty().push(PeerReport::GoodIps(ips)) =~= seq![
        PeerReport::GoodIps(ips),
    ]);
}

} // verus!
