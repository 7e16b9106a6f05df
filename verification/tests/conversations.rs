use peernet::event::{ConsensusEvent, PeerEvent};
use peernet::frame::{encode_frame, HEADER_SIZE};
use peernet::payload::PayloadError;
use peernet::session::{Action, Occurrence, Phase, Session, Step};

fn ip() -> String {
    "10.0.0.1".to_string()
}

fn header(frame: &[u8]) -> Occurrence {
    let mut bytes = [0u8; HEADER_SIZE];
    bytes.copy_from_slice(&frame[..HEADER_SIZE]);
    Occurrence::Header(bytes)
}

fn bare(event: ConsensusEvent) -> Occurrence {
    header(&encode_frame(event, None))
}

fn listening() -> Session {
    Session { ip: ip(), phase: Phase::Listening }
}

fn go(session: &mut Session, occurrence: Occurrence) -> Step {
    assert!(session.expects(&occurrence));
    session.step(occurrence)
}

fn reports(step: &Step) -> Vec<String> {
    step.reports.iter().map(|report| format!("{:?}", report)).collect()
}

fn alive() -> String {
    "Alive(\"10.0.0.1\")".to_string()
}

fn gone() -> String {
    "Disconnected(\"10.0.0.1\")".to_string()
}

fn misbehaved() -> String {
    "Misbehave(\"10.0.0.1\")".to_string()
}

fn reason(step: Step) -> String {
    match step.action {
        Action::Close(reason) => reason,
        _ => panic!("the session goes on"),
    }
}

fn written(step: Step) -> Vec<u8> {
    match step.action {
        Action::Write(bytes) => bytes,
        _ => panic!("nothing is written"),
    }
}

#[test]
fn outgoing_handshake_is_sent_first() {
    let (mut session, step) = Session::start(ip(), true);
    assert_eq!(session.phase, Phase::SendingHandshake);
    assert!(step.reports.is_empty());
    assert_eq!(written(step), vec![1, 0, 0, 0, 0, 0, 0, 0, 0]);
    let step = go(&mut session, Occurrence::Written);
    assert_eq!(reports(&step), vec![alive()]);
    assert!(matches!(step.action, Action::Listen));
    assert_eq!(session.phase, Phase::Listening);
}

#[test]
fn outgoing_handshake_that_cannot_be_sent() {
    let (mut session, _) = Session::start(ip(), true);
    let step = go(&mut session, Occurrence::WriteFailed("broken pipe".to_string()));
    assert_eq!(reports(&step), vec![gone()]);
    assert_eq!(reason(step), "[10.0.0.1] broken pipe");
    assert_eq!(session.phase, Phase::Closed);
}

#[test]
fn incoming_handshake_is_awaited() {
    let (mut session, step) = Session::start(ip(), false);
    assert!(step.reports.is_empty());
    assert!(matches!(step.action, Action::ReadHeader));
    let step = go(&mut session, bare(ConsensusEvent::Handshake));
    assert_eq!(reports(&step), vec![alive()]);
    assert!(matches!(step.action, Action::Listen));
}

#[test]
fn incoming_handshake_must_be_a_handshake() {
    for first in [0u8, 2, 3, 4, 5, 200] {
        let (mut session, _) = Session::start(ip(), false);
        let step = go(&mut session, Occurrence::Header([first, 0, 0, 0, 0, 0, 0, 0, 0]));
        assert_eq!(reports(&step), vec![gone()]);
        assert_eq!(reason(step), "[10.0.0.1] handshake failed");
        assert_eq!(session.phase, Phase::Closed);
    }
}

#[test]
fn stream_closed_during_the_handshake() {
    let (mut session, _) = Session::start(ip(), false);
    let step = go(&mut session, Occurrence::HeaderFailed("early eof".to_string()));
    assert_eq!(reports(&step), vec![gone()]);
    assert_eq!(reason(step), "[10.0.0.1] stream closed during hanshake early eof");
}

#[test]
fn tick_asks_for_addresses() {
    let mut session = listening();
    let step = go(&mut session, Occurrence::Tick);
    assert!(step.reports.is_empty());
    assert_eq!(written(step), vec![4, 0, 0, 0, 0, 0, 0, 0, 0]);
    let step = go(&mut session, Occurrence::Written);
    assert!(step.reports.is_empty());
    assert!(matches!(step.action, Action::Listen));
    go(&mut session, Occurrence::Tick);
    let step = go(&mut session, Occurrence::WriteFailed("reset".to_string()));
    assert_eq!(reports(&step), vec![gone()]);
    assert_eq!(reason(step), "[10.0.0.1] reset");
}

#[test]
fn stream_closed_while_listening() {
    let mut session = listening();
    let step = go(&mut session, Occurrence::HeaderFailed("eof".to_string()));
    assert_eq!(reports(&step), vec![gone()]);
    assert_eq!(reason(step), "[10.0.0.1] stream closed");
    assert_eq!(session.phase, Phase::Closed);
}

#[test]
fn simple_messages() {
    let mut session = listening();
    let step = go(&mut session, bare(ConsensusEvent::Alive));
    assert_eq!(reports(&step), vec![alive(), alive()]);
    assert!(matches!(step.action, Action::Listen));
    let step = go(&mut session, bare(ConsensusEvent::Misbehave));
    assert_eq!(reports(&step), vec![alive(), misbehaved()]);
    assert!(matches!(step.action, Action::Listen));
}

#[test]
fn unknown_message_is_a_misbehaviour() {
    let mut session = listening();
    let step = go(&mut session, Occurrence::Header([77, 0, 0, 0, 0, 0, 0, 0, 9]));
    assert_eq!(reports(&step), vec![alive(), misbehaved()]);
    assert!(matches!(step.action, Action::Listen));
    assert_eq!(session.phase, Phase::Listening);
}

#[test]
fn second_handshake_ends_the_conversation() {
    let mut session = listening();
    let step = go(&mut session, bare(ConsensusEvent::Handshake));
    assert_eq!(reports(&step), vec![alive(), misbehaved()]);
    assert_eq!(reason(step), "HANSDSHAKE already done");
    assert_eq!(session.phase, Phase::Closed);
    assert!(!session.expects(&Occurrence::Tick));
    assert!(!session.expects(&Occurrence::Written));
}

#[test]
fn request_for_addresses_is_answered() {
    let mut session = listening();
    let step = go(&mut session, bare(ConsensusEvent::GetGoodIps));
    assert_eq!(reports(&step), vec![alive()]);
    assert!(matches!(step.action, Action::AskGoodIps));
    let step = go(&mut session, Occurrence::GoodIps(vec!["9.9.9.9".to_string()]));
    assert!(step.reports.is_empty());
    let frame = written(step);
    assert_eq!(&frame[..HEADER_SIZE], &[5, 0, 0, 0, 0, 0, 0, 0, 11]);
    assert_eq!(&frame[HEADER_SIZE..], b"[\"9.9.9.9\"]");
    let step = go(&mut session, Occurrence::Written);
    assert!(matches!(step.action, Action::Listen));
}

#[test]
fn answer_that_cannot_be_had_or_sent() {
    let mut session = Session { ip: ip(), phase: Phase::AwaitingGoodIps };
    let step = go(&mut session, Occurrence::ReplyLost);
    assert!(step.reports.is_empty());
    assert_eq!(reason(step), "[10.0.0.1] Sender drop");
    let mut session = Session { ip: ip(), phase: Phase::SendingGoodIps };
    let step = go(&mut session, Occurrence::WriteFailed("reset".to_string()));
    assert_eq!(reports(&step), vec![gone()]);
    assert_eq!(reason(step), "[10.0.0.1] reset");
}

#[test]
fn addresses_reach_the_peer() {
    let list = vec!["9.9.9.9".to_string(), "\u{e9}\"".to_string()];
    let mut sending = Session { ip: "10.0.0.2".to_string(), phase: Phase::AwaitingGoodIps };
    let frame = written(go(&mut sending, Occurrence::GoodIps(list.clone())));
    let mut receiving = listening();
    let step = go(&mut receiving, header(&frame));
    assert_eq!(reports(&step), vec![alive()]);
    match step.action {
        Action::ReadPayload(size) => assert_eq!(size as usize, frame.len() - HEADER_SIZE),
        _ => panic!("no payload is read"),
    }
    let step = go(&mut receiving, Occurrence::Payload(frame[HEADER_SIZE..].to_vec()));
    assert_eq!(step.reports.len(), 1);
    match &step.reports[0] {
        PeerEvent::GoodIps(ips) => assert_eq!(*ips, list),
        _ => panic!("no addresses are reported"),
    }
    assert!(matches!(step.action, Action::Listen));
}

#[test]
fn payload_of_another_event_is_skipped() {
    let mut session = listening();
    let frame = encode_frame(ConsensusEvent::Misbehave, Some(&[1, 2]));
    let step = go(&mut session, header(&frame));
    assert_eq!(reports(&step), vec![alive()]);
    assert!(matches!(step.action, Action::ReadPayload(2)));
    assert_eq!(session.phase, Phase::ReadingPayload(ConsensusEvent::Misbehave));
    let step = go(&mut session, Occurrence::Payload(vec![1, 2]));
    assert_eq!(reports(&step), vec![misbehaved()]);
    assert!(matches!(step.action, Action::Listen));
}

#[test]
fn payload_cut_short_is_reported_and_still_handled() {
    let mut session = Session { ip: ip(), phase: Phase::ReadingPayload(ConsensusEvent::Alive) };
    let step = go(&mut session, Occurrence::PayloadFailed(vec![0, 0]));
    assert_eq!(reports(&step), vec![gone(), alive()]);
    assert!(matches!(step.action, Action::Listen));
    let mut session = Session { ip: ip(), phase: Phase::ReadingPayload(ConsensusEvent::GoodIps) };
    let step = go(&mut session, Occurrence::PayloadFailed(vec![b'[', 0]));
    assert_eq!(reports(&step), vec![gone()]);
    assert!(matches!(step.action, Action::Fail(PayloadError::NotJson(_))));
}

#[test]
fn addresses_that_are_missing_or_malformed() {
    let mut session = listening();
    let step = go(&mut session, bare(ConsensusEvent::GoodIps));
    assert_eq!(reports(&step), vec![alive()]);
    assert!(matches!(step.action, Action::Fail(PayloadError::Missing)));
    assert_eq!(session.phase, Phase::Closed);
    let mut session = Session { ip: ip(), phase: Phase::ReadingPayload(ConsensusEvent::GoodIps) };
    let step = go(&mut session, Occurrence::Payload(vec![0xc0]));
    assert!(step.reports.is_empty());
    assert!(matches!(step.action, Action::Fail(PayloadError::NotUtf8(_))));
}

#[test]
fn addresses_already_read_are_reported() {
    let mut session = listening();
    let said = vec![PeerEvent::Alive(ip())];
    let step = session.on_good_ips(said, Ok(vec!["9.9.9.9".to_string()]));
    assert_eq!(reports(&step), vec![alive(), "GoodIps([\"9.9.9.9\"])".to_string()]);
    let step = session.on_good_ips(Vec::new(), Err(PayloadError::Missing));
    assert!(step.reports.is_empty());
    assert!(matches!(step.action, Action::Fail(PayloadError::Missing)));
}

#[test]
fn only_what_is_awaited_is_expected() {
    let session = listening();
    assert!(session.expects(&Occurrence::Tick));
    assert!(!session.expects(&Occurrence::Written));
    assert!(!session.expects(&Occurrence::Payload(Vec::new())));
    assert!(!session.expects(&Occurrence::ReplyLost));
    let (session, _) = Session::start(ip(), false);
    assert!(!session.expects(&Occurrence::Tick));
}
