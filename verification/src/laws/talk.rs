//! The conversation with one peer.
use vstd::prelude::*;
use crate::event::{ConsensusEvent, PeerEvent, PeerReport};
use crate::frame::HEADER_SIZE;
use crate::network::IP;
use crate::payload::PayloadError;
use crate::session::{Action, Occurrence, Phase, Session, Step};

verus! {

/// What a step reports, report by report.
pub open spec fn reports(step: Step) -> Seq<PeerReport> {
    Seq::new(step.reports@.len(), |i: int| step.reports@[i]@)
}

/// A message that the node gives as the reason for dropping a connection: the peer in brackets,
/// and what went wrong.
pub open spec fn names_peer(reason: Seq<char>, ip: Seq<char>, fault: Seq<char>) -> bool {
    &&& reason.len() == ip.len() + fault.len() + 3
    &&& reason[0] == '['
    &&& reason.subrange(1, ip.len() + 1int) == ip
    &&& reason.subrange(ip.len() + 1int, ip.len() + 3int) == seq![']', ' ']
    &&& reason.skip(ip.len() + 3int) == fault
}

/// What is built to name a peer names it.
proof fn lemma_tagged_text(ip: Seq<char>, fault: Seq<char>)
    ensures
        names_peer(crate::text::tagged_text(ip, fault), ip, fault),
{
    reveal_strlit("[");
    reveal_strlit("] ");
    let reason = crate::text::tagged_text(ip, fault);
    assert(reason.subrange(1, ip.len() + 1int) =~= ip);
    assert(reason.subrange(ip.len() + 1int, ip.len() + 3int) =~= seq![']', ' ']);
    assert(reason.skip(ip.len() + 3int) =~= fault);
}

/// What a step reports, as its contract speaks of it.
proof fn lemma_reports(step: Step)
    ensures
        crate::session::reports_view(step.reports@) == reports(step),
{
    assert(crate::session::reports_view(step.reports@) =~= reports(step));
}

/// A conversation over a connection that the node opened begins with a handshake, which is a bare
/// header. Over one that the peer opened, a header is read first.
pub proof fn law_conversations_begin(ip: IP, is_outgoing: bool, session: (Session, Step))
    requires
        call_ensures(Session::start, (ip, is_outgoing), session),
    ensures
        session.0.ip == ip,
        session.1.reports@.len() == 0,
        is_outgoing ==> session.0.phase == Phase::SendingHandshake && (session.1.action matches
            Action::Write(frame) && frame@.len() == 9 && frame@[0] == 1 && crate::frame::size_field(
            frame@,
        ) == 0),
        !is_outgoing ==> session.0.phase == Phase::AwaitingHandshake && session.1.action
            is ReadHeader,
{
    lemma_reports(session.1);
    assert(reports(session.1).len() == session.1.reports@.len());
    crate::laws::wire::lemma_layout(ConsensusEvent::Handshake, None);
}

/// A session takes what can come of what it asked for, and nothing else.
pub proof fn law_sessions_take_outcomes(session: Session, occurrence: Occurrence, expected: bool)
    requires
        call_ensures(Session::expects, (&session, &occurrence), expected),
    ensures
        expected == match session.phase {
            Phase::SendingHandshake => occurrence is Written || occurrence is WriteFailed,
            Phase::SendingRequest => occurrence is Written || occurrence is WriteFailed,
            Phase::SendingGoodIps => occurrence is Written || occurrence is WriteFailed,
            Phase::AwaitingHandshake => occurrence is Header || occurrence is HeaderFailed,
            Phase::Listening => occurrence is Tick || occurrence is Header || occurrence
                is HeaderFailed,
            Phase::ReadingPayload(_) => occurrence is Payload || occurrence is PayloadFailed,
            Phase::AwaitingGoodIps => occurrence is GoodIps || occurrence is ReplyLost,
            Phase::Closed => false,
        },
{
}

/// A session is about one peer from its beginning to its end.
pub proof fn law_sessions_keep_their_peer(session: &mut Session, occurrence: Occurrence, step: Step)
    requires
        call_ensures(Session::step, (session, occurrence), step),
    ensures
        final(session).ip == old(session).ip,
{
}

/// When the handshake of the node is written, and when that of the peer arrives, the peer is
/// alive. Any other first message, whatever follows its first byte, ends the conversation.
pub proof fn law_handshakes(session: &mut Session, occurrence: Occurrence, step: Step)
    requires
        call_ensures(Session::step, (session, occurrence), step),
    ensures
        old(session).phase == Phase::SendingHandshake && occurrence is Written ==> {
            &&& reports(step) == seq![PeerReport::Alive(old(session).ip@)]
            &&& final(session).phase == Phase::Listening
            &&& step.action is Listen
        },
        old(session).phase == Phase::AwaitingHandshake ==> (occurrence matches Occurrence::Header(
            header,
        ) ==> {
            &&& header@[0] == 1 ==> {
                &&& reports(step) == seq![PeerReport::Alive(old(session).ip@)]
                &&& final(session).phase == Phase::Listening
                &&& step.action is Listen
            }
            &&& header@[0] != 1 ==> {
                &&& reports(step) == seq![PeerReport::Disconnected(old(session).ip@)]
                &&& final(session).phase == Phase::Closed
                &&& step.action matches Action::Close(reason) && names_peer(
                    reason@,
                    old(session).ip@,
                    "handshake failed"@,
                )
            }
        }),
{
    lemma_reports(step);
    lemma_tagged_text(session.ip@, "handshake failed"@);
}

/// A failure of the stream ends the conversation, and is told with what went wrong.
pub proof fn law_failures_end_the_conversation(
    session: &mut Session,
    occurrence: Occurrence,
    step: Step,
)
    requires
        call_ensures(Session::step, (session, occurrence), step),
        old(session).phase.expects(occurrence@),
        occurrence is WriteFailed || occurrence is HeaderFailed,
    ensures
        reports(step) == seq![PeerReport::Disconnected(old(session).ip@)],
        final(session).phase == Phase::Closed,
        step.action is Close,
        occurrence matches Occurrence::WriteFailed(error) ==> names_peer(
            step.action->Close_0@,
            old(session).ip@,
            error@,
        ),
        occurrence matches Occurrence::HeaderFailed(error) ==> names_peer(
            step.action->Close_0@,
            old(session).ip@,
            if old(session).phase == Phase::Listening {
                "stream closed"@
            } else {
                "stream closed during hanshake "@ + error@
            },
        ),
{
    lemma_reports(step);
    lemma_tagged_text(session.ip@, "stream closed"@);
    if let Occurrence::WriteFailed(error) = occurrence {
        lemma_tagged_text(session.ip@, error@);
    }
    if let Occurrence::HeaderFailed(error) = occurrence {
        lemma_tagged_text(session.ip@, "stream closed during hanshake "@ + error@);
    }
}

/// A tick makes the node ask for addresses with a bare header, and nothing is reported.
pub proof fn law_ticks_ask_for_addresses(session: &mut Session, step: Step)
    requires
        call_ensures(Session::step, (session, Occurrence::Tick), step),
        old(session).phase == Phase::Listening,
    ensures
        step.reports@.len() == 0,
        final(session).phase == Phase::SendingRequest,
        step.action matches Action::Write(frame) && frame@.len() == 9 && frame@[0] == 4
            && crate::frame::size_field(frame@) == 0,
{
    lemma_reports(step);
    assert(reports(step).len() == step.reports@.len());
    crate::laws::wire::lemma_layout(ConsensusEvent::GetGoodIps, None);
}

/// When a request or an answer is written, nothing is reported, and the conversation goes on.
pub proof fn law_written_messages_are_silent(session: &mut Session, step: Step)
    requires
        call_ensures(Session::step, (session, Occurrence::Written), step),
        old(session).phase == Phase::SendingRequest || old(session).phase == Phase::SendingGoodIps,
    ensures
        step.reports@.len() == 0,
        final(session).phase == Phase::Listening,
        step.action is Listen,
{
    lemma_reports(step);
    assert(reports(step).len() == step.reports@.len());
}

/// A header that announces a payload is a sign of life, and the payload is read as a whole.
pub proof fn law_payloads_are_read_whole(
    session: &mut Session,
    header: [u8; HEADER_SIZE],
    step: Step,
)
    requires
        call_ensures(Session::step, (session, Occurrence::Header(header)), step),
        old(session).phase == Phase::Listening,
        1 <= header@[0] <= 5,
        crate::frame::size_field(header@) > 0,
    ensures
        reports(step) == seq![PeerReport::Alive(old(session).ip@)],
        final(session).phase matches Phase::ReadingPayload(event) && crate::laws::wire::stands_for(
            header@[0],
            event,
        ),
        step.action matches Action::ReadPayload(size) && size == crate::frame::size_field(header@),
{
    lemma_reports(step);
    crate::frame::law_size_is_positional(header@);
}

/// A header that stands for no event is reported as a misbehaviour, and the next one is awaited.
pub proof fn law_unknown_headers(session: &mut Session, header: [u8; HEADER_SIZE], step: Step)
    requires
        call_ensures(Session::step, (session, Occurrence::Header(header)), step),
        old(session).phase == Phase::Listening,
        !(1 <= header@[0] <= 5),
    ensures
        reports(step) == seq![
            PeerReport::Alive(old(session).ip@),
            PeerReport::Misbehave(old(session).ip@),
        ],
        final(session).phase == Phase::Listening,
        step.action is Listen,
{
    lemma_reports(step);
    crate::session::law_unknown_message_is_a_misbehaviour(session.ip@, header@);
}

/// What follows from a message of each event. `before` was reported of it before.
pub open spec fn is_answer(
    event: ConsensusEvent,
    before: Seq<PeerReport>,
    ip: Seq<char>,
    phase: Phase,
    step: Step,
) -> bool {
    match event {
        ConsensusEvent::Handshake => {
            &&& reports(step) == before + seq![PeerReport::Misbehave(ip)]
            &&& phase == Phase::Closed
            &&& step.action matches Action::Close(reason) && reason@ == "HANSDSHAKE already done"@
        },
        ConsensusEvent::Alive => {
            &&& reports(step) == before + seq![PeerReport::Alive(ip)]
            &&& phase == Phase::Listening
            &&& step.action is Listen
        },
        ConsensusEvent::Misbehave => {
            &&& reports(step) == before + seq![PeerReport::Misbehave(ip)]
            &&& phase == Phase::Listening
            &&& step.action is Listen
        },
        ConsensusEvent::GetGoodIps => {
            &&& reports(step) == before
            &&& phase == Phase::AwaitingGoodIps
            &&& step.action is AskGoodIps
        },
        ConsensusEvent::GoodIps => true,
    }
}

/// What follows from a message that should carry addresses: they are reported, or the session
/// fails with why they cannot be.
pub open spec fn is_answer_to_addresses(
    payload: Option<Seq<u8>>,
    before: Seq<PeerReport>,
    phase: Phase,
    step: Step,
) -> bool {
    match payload {
        None => {
            &&& reports(step) == before
            &&& phase == Phase::Closed
            &&& step.action is Fail
            &&& step.action->Fail_0 is Missing
        },
        Some(bytes) => {
            let listed = crate::json::json_strings(vstd::utf8::decode_utf8(bytes));
            if vstd::utf8::valid_utf8(bytes) && listed is Some {
                &&& reports(step) == before + seq![PeerReport::GoodIps(listed->0)]
                &&& phase == Phase::Listening
                &&& step.action is Listen
            } else {
                &&& reports(step) == before
                &&& phase == Phase::Closed
                &&& step.action is Fail
                &&& if vstd::utf8::valid_utf8(bytes) {
                    step.action->Fail_0 is NotJson
                } else {
                    step.action->Fail_0 is NotUtf8
                }
            }
        },
    }
}

/// A list of reports with one more at its end is the list and that report.
proof fn lemma_pushes(before: Seq<PeerReport>)
    ensures
        forall|report: PeerReport| #[trigger] before.push(report) == before + seq![report],
        Seq::<PeerReport>::empty() + before == before,
{
    assert forall|report: PeerReport| #[trigger] before.push(report) == before + seq![report] by {
        assert(before.push(report) =~= before + seq![report]);
    }
    assert(Seq::<PeerReport>::empty() + before =~= before);
}

/// A bare header is a sign of life, and is then answered by its event.
pub proof fn law_bare_headers_are_answered(
    session: &mut Session,
    header: [u8; HEADER_SIZE],
    event: ConsensusEvent,
    step: Step,
)
    requires
        call_ensures(Session::step, (session, Occurrence::Header(header)), step),
        old(session).phase == Phase::Listening,
        crate::laws::wire::stands_for(header@[0], event),
        crate::frame::size_field(header@) == 0,
    ensures
        ({
            let alive = seq![PeerReport::Alive(old(session).ip@)];
            &&& is_answer(event, alive, old(session).ip@, final(session).phase, step)
            &&& event == ConsensusEvent::GoodIps ==> is_answer_to_addresses(
                None,
                alive,
                final(session).phase,
                step,
            )
        }),
{
    lemma_reports(step);
    lemma_pushes(seq![PeerReport::Alive(session.ip@)]);
    crate::frame::law_size_is_positional(header@);
}

/// A message whose payload was read is answered by its event. Where the payload could not be read
/// to its end, the peer is first reported to be gone.
pub proof fn law_messages_with_payload_are_answered(
    session: &mut Session,
    occurrence: Occurrence,
    event: ConsensusEvent,
    step: Step,
)
    requires
        call_ensures(Session::step, (session, occurrence), step),
        old(session).phase == Phase::ReadingPayload(event),
        occurrence is Payload || occurrence is PayloadFailed,
    ensures
        ({
            let before = if occurrence is PayloadFailed {
                seq![PeerReport::Disconnected(old(session).ip@)]
            } else {
                Seq::empty()
            };
            let bytes = match occurrence {
                Occurrence::Payload(bytes) => bytes@,
                Occurrence::PayloadFailed(bytes) => bytes@,
                _ => Seq::empty(),
            };
            &&& is_answer(event, before, old(session).ip@, final(session).phase, step)
            &&& event == ConsensusEvent::GoodIps ==> is_answer_to_addresses(
                Some(bytes),
                before,
                final(session).phase,
                step,
            )
        }),
{
    lemma_reports(step);
    lemma_pushes(Seq::empty());
    lemma_pushes(seq![PeerReport::Disconnected(session.ip@)]);
}

/// A whole message is answered by its event, after what was reported of it before.
pub proof fn law_messages_are_answered(
    session: &mut Session,
    said: Vec<PeerEvent>,
    event: ConsensusEvent,
    payload: Option<Vec<u8>>,
    step: Step,
)
    requires
        call_ensures(Session::on_peer_consensus_event, (session, said, event, payload), step),
    ensures
        final(session).ip == old(session).ip,
        ({
            let before = Seq::new(said@.len(), |i: int| said@[i]@);
            let bytes = match payload {
                Some(bytes) => Some(bytes@),
                None => None,
            };
            &&& is_answer(event, before, old(session).ip@, final(session).phase, step)
            &&& event == ConsensusEvent::GoodIps ==> is_answer_to_addresses(
                bytes,
                before,
                final(session).phase,
                step,
            )
        }),
{
    let before = Seq::new(said@.len(), |i: int| said@[i]@);
    assert(crate::session::reports_view(said@) =~= before);
    lemma_reports(step);
    lemma_pushes(before);
}

/// Addresses that were read are reported after what was reported before; if there are none, the
/// session fails with the reason.
pub proof fn law_addresses_are_reported(
    session: &mut Session,
    said: Vec<PeerEvent>,
    ips: Result<Vec<IP>, PayloadError>,
    step: Step,
)
    requires
        call_ensures(Session::on_good_ips, (session, said, ips), step),
    ensures
        final(session).ip == old(session).ip,
        ({
            let before = Seq::new(said@.len(), |i: int| said@[i]@);
            match ips {
                Ok(ips) => {
                    &&& reports(step) == before + seq![
                        PeerReport::GoodIps(crate::text::texts(ips@)),
                    ]
                    &&& final(session).phase == Phase::Listening
                    &&& step.action is Listen
                },
                Err(error) => {
                    &&& reports(step) == before
                    &&& final(session).phase == Phase::Closed
                    &&& step.action matches Action::Fail(fault) && fault@ == error@
                },
            }
        }),
{
    let before = Seq::new(said@.len(), |i: int| said@[i]@);
    assert(crate::session::reports_view(said@) =~= before);
    lemma_reports(step);
    lemma_pushes(before);
}

/// The addresses that were asked for are sent, every one of them, in a message of their own. If
/// none are to be had, the connection is dropped, and nothing is reported either way.
pub proof fn law_requests_are_answered(session: &mut Session, occurrence: Occurrence, step: Step)
    requires
        call_ensures(Session::step, (session, occurrence), step),
        old(session).phase == Phase::AwaitingGoodIps,
        occurrence is GoodIps || occurrence is ReplyLost,
    ensures
        step.reports@.len() == 0,
        occurrence matches Occurrence::GoodIps(ips) ==> {
            &&& final(session).phase == Phase::SendingGoodIps
            &&& step.action matches Action::Write(frame) && {
                &&& frame@.len() > 9
                &&& frame@[0] == 5
                &&& crate::frame::size_field(frame@) == frame@.len() - 9
                &&& crate::json::json_strings(vstd::utf8::decode_utf8(frame@.skip(9))) == Some(
                    crate::text::texts(ips@),
                )
                &&& frame@.skip(9) == vstd::utf8::encode_utf8(
                    crate::json::json_text(crate::text::texts(ips@)),
                )
            }
        },
        occurrence is ReplyLost ==> {
            &&& final(session).phase == Phase::Closed
            &&& step.action matches Action::Close(reason) && names_peer(
                reason@,
                old(session).ip@,
                "Sender drop"@,
            )
        },
{
    lemma_reports(step);
    assert(reports(step).len() == step.reports@.len());
    lemma_tagged_text(session.ip@, "Sender drop"@);
    if let Occurrence::GoodIps(ips) = occurrence {
        let sent = crate::text::texts(ips@);
        let payload = crate::payload::ips_payload(sent);
        crate::laws::wire::lemma_layout(ConsensusEvent::GoodIps, Some(payload));
    }
}

} // verus!
