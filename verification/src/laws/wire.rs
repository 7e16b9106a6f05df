//! Texts, messages and their bytes.
use vstd::prelude::*;
use crate::event::{ConsensusEvent, PeerEvent, PeerReport};
use crate::frame::{decode_event, decode_size, encode_frame, HEADER_SIZE};
use crate::network::IP;
use crate::payload::{decode_good_ips, encode_event, PayloadError, PayloadFault};
use crate::text::{listen_address, peer_address, tagged};

verus! {

/// Which byte stands for which event.
pub open spec fn stands_for(id: u8, event: ConsensusEvent) -> bool {
    match event {
        ConsensusEvent::Handshake => id == 1,
        ConsensusEvent::Alive => id == 2,
        ConsensusEvent::Misbehave => id == 3,
        ConsensusEvent::GetGoodIps => id == 4,
        ConsensusEvent::GoodIps => id == 5,
    }
}

/// The node listens at a port of every address of the machine: the port is written so that it
/// reads back.
pub proof fn law_listening_at_the_port(port: u32, address: String)
    requires
        call_ensures(listen_address, (port,), address),
    ensures
        address@.take(8) == seq!['0', '.', '0', '.', '0', '.', '0', ':'],
        crate::text::is_numeral(address@.skip(8)),
        crate::text::decimal_value(address@.skip(8)) == port,
{
    reveal_strlit("0.0.0.0:");
    crate::text::law_decimal_reads_back(port as nat);
    assert(address@.take(8) =~= seq!['0', '.', '0', '.', '0', '.', '0', ':']);
    assert(address@.skip(8) =~= crate::text::decimal(port as nat));
}

/// A peer is spoken to at its own address, and at the one port that all nodes share.
pub proof fn law_peers_share_a_port(ip: IP, address: String)
    requires
        call_ensures(peer_address, (&ip,), address),
    ensures
        address@.len() == ip@.len() + 5,
        address@.take(ip@.len() as int) == ip@,
        address@[ip@.len() as int] == ':',
        crate::text::is_numeral(address@.skip(ip@.len() + 1int)),
        crate::text::decimal_value(address@.skip(ip@.len() + 1int)) == 4242,
{
    reveal_strlit(":4242");
    let port = address@.skip(ip@.len() + 1int);
    assert(address@.take(ip@.len() as int) =~= ip@);
    assert(port =~= seq!['4', '2', '4', '2']);
    assert(port.drop_last() =~= seq!['4', '2', '4']);
    assert(port.drop_last().drop_last() =~= seq!['4', '2']);
    assert(port.drop_last().drop_last().drop_last() =~= seq!['4']);
    assert(port.drop_last().drop_last().drop_last().drop_last() =~= Seq::empty());
    reveal_with_fuel(crate::text::decimal_value, 5);
}

/// A message about a peer names it in brackets, and then goes on as it is.
pub proof fn law_messages_name_the_peer(ip: IP, message: &str, text: String)
    requires
        call_ensures(tagged, (&ip, message), text),
    ensures
        text@.len() == ip@.len() + message@.len() + 3,
        text@[0] == '[',
        text@.subrange(1, ip@.len() + 1int) == ip@,
        text@.subrange(ip@.len() + 1int, ip@.len() + 3int) == seq![']', ' '],
        text@.skip(ip@.len() + 3int) == message@,
{
    reveal_strlit("[");
    reveal_strlit("] ");
    assert(text@.subrange(1, ip@.len() + 1int) =~= ip@);
    assert(text@.subrange(ip@.len() + 1int, ip@.len() + 3int) =~= seq![']', ' ']);
    assert(text@.skip(ip@.len() + 3int) =~= message@);
}

/// A list is looked at string by string.
pub proof fn law_views_of_lists(strings: Seq<String>)
    ensures
        crate::text::texts(strings).len() == strings.len(),
        forall|i: int|
            0 <= i < strings.len() ==> #[trigger] crate::text::texts(strings)[i] == strings[i]@,
{
}

/// An answer is looked at as its value, or as its message.
pub proof fn law_views_of_answers<T>(answer: Result<T, String>)
    ensures
        answer matches Ok(value) ==> crate::text::answer_view(answer) == Ok::<T, Seq<char>>(value),
        answer matches Err(message) ==> crate::text::answer_view(answer) == Err::<T, Seq<char>>(
            message@,
        ),
{
}

/// A report is looked at as what it is, of the peer that it names.
pub proof fn law_views_of_reports(report: PeerEvent)
    ensures
        match report {
            PeerEvent::Alive(ip) => report@ == PeerReport::Alive(ip@),
            PeerEvent::Disconnected(ip) => report@ == PeerReport::Disconnected(ip@),
            PeerEvent::Misbehave(ip) => report@ == PeerReport::Misbehave(ip@),
            PeerEvent::GoodIps(ips) => report@ == PeerReport::GoodIps(crate::text::texts(ips@)),
            PeerEvent::GetGoodIps => report@ == PeerReport::GetGoodIps,
        },
{
}

/// Why a payload holds no addresses is looked at as what it is.
pub proof fn law_views_of_faults(error: PayloadError)
    ensures
        error is Missing <==> error@ == PayloadFault::Missing,
        error is NotUtf8 <==> error@ == PayloadFault::NotUtf8,
        error is NotJson <==> error@ == PayloadFault::NotJson,
{
}

/// An event is written as its byte.
pub proof fn law_events_are_written(event: ConsensusEvent, id: u8)
    requires
        call_ensures(ConsensusEvent::to_u8, (event,), id),
    ensures
        stands_for(id, event),
{
}

/// A byte is read as the event that it stands for, and refused if it stands for none.
pub proof fn law_events_are_read(id: u8, event: Result<ConsensusEvent, String>)
    requires
        call_ensures(ConsensusEvent::from_u8, (id,), event),
    ensures
        event is Ok <==> 1 <= id <= 5,
        event matches Ok(event) ==> stands_for(id, event),
        event matches Err(message) ==> message@ == "Unknow event"@,
{
}

/// A message is the byte of its event, the size of its payload as eight bytes, and the payload.
pub proof fn law_layout_of_messages(event: ConsensusEvent, payload: Option<&[u8]>, buff: Vec<u8>)
    requires
        call_ensures(encode_frame, (event, payload), buff),
        payload matches Some(bytes) ==> bytes@.len() <= u64::MAX,
    ensures
        buff@.len() >= 9,
        stands_for(buff@[0], event),
        payload matches Some(bytes) ==> buff@.skip(9) == bytes@ && crate::frame::size_field(buff@)
            == bytes@.len(),
        payload is None ==> buff@.len() == 9 && crate::frame::size_field(buff@) == 0,
{
    let bytes = match payload {
        Some(bytes) => Some(bytes@),
        None => None,
    };
    lemma_layout(event, bytes);
}

/// What `frame_bytes` puts together.
pub proof fn lemma_layout(event: ConsensusEvent, payload: Option<Seq<u8>>)
    requires
        payload matches Some(bytes) ==> bytes.len() <= u64::MAX,
    ensures
        ({
            let frame = crate::frame::frame_bytes(event, payload);
            &&& frame.len() >= 9
            &&& stands_for(frame[0], event)
            &&& payload matches Some(bytes) ==> frame.skip(9) == bytes && crate::frame::size_field(
                frame,
            ) == bytes.len()
            &&& payload is None ==> frame.len() == 9 && crate::frame::size_field(frame) == 0
        }),
{
    let frame = crate::frame::frame_bytes(event, payload);
    crate::frame::law_frame_roundtrip(event, payload);
    crate::frame::law_size_is_positional(frame.take(HEADER_SIZE as int));
    assert(frame[0] == event.code());
    assert forall|i: int| 0 <= i < 9 implies #[trigger] frame[i] == frame.take(9)[i] by {}
}

/// The event of a message is told by its first byte alone.
pub proof fn law_first_byte_tells_the_event(
    header: [u8; HEADER_SIZE],
    event: Result<ConsensusEvent, String>,
)
    requires
        call_ensures(decode_event, (&header,), event),
    ensures
        event is Ok <==> 1 <= header@[0] <= 5,
        event matches Ok(event) ==> stands_for(header@[0], event),
        event matches Err(message) ==> message@ == "Unknow event"@,
{
}

/// The size of a payload is told by the other bytes of the header, the most significant first.
pub proof fn law_other_bytes_tell_the_size(header: [u8; HEADER_SIZE], size: u64)
    requires
        call_ensures(decode_size, (&header,), size),
    ensures
        size == crate::frame::size_field(header@),
{
    crate::frame::law_size_is_positional(header@);
}

/// A payload holds the list that its text holds. One that is absent, is no text, or is no list,
/// is told apart.
pub proof fn law_addresses_are_read(payload: Option<Vec<u8>>, ips: Result<Vec<IP>, PayloadError>)
    requires
        call_ensures(decode_good_ips, (payload,), ips),
    ensures
        payload is None <==> ips matches Err(PayloadError::Missing),
        payload matches Some(bytes) ==> {
            let text = vstd::utf8::decode_utf8(bytes@);
            match ips {
                Ok(ips) => vstd::utf8::valid_utf8(bytes@) && crate::json::json_strings(text)
                    == Some(crate::text::texts(ips@)),
                Err(PayloadError::NotUtf8(_)) => !vstd::utf8::valid_utf8(bytes@),
                Err(PayloadError::NotJson(_)) => vstd::utf8::valid_utf8(bytes@)
                    && crate::json::json_strings(text) is None,
                Err(PayloadError::Missing) => false,
            }
        },
{
}

/// The addresses of a message are sent as their JSON text, in UTF-8.
pub proof fn law_addresses_are_written(
    event: ConsensusEvent,
    ips: Option<&Vec<IP>>,
    buff: Vec<u8>,
)
    requires
        call_ensures(encode_event, (event, ips), buff),
    ensures
        buff@.len() >= 9,
        stands_for(buff@[0], event),
        crate::frame::size_field(buff@) == buff@.len() - 9,
        ips is None ==> buff@.len() == 9,
        ips matches Some(ips) ==> buff@.len() > 9 && buff@.skip(9) == vstd::utf8::encode_utf8(
            crate::json::json_text(crate::text::texts(ips@)),
        ),
{
    let payload = match ips {
        Some(ips) => Some(crate::payload::ips_payload(crate::text::texts(ips@))),
        None => None,
    };
    lemma_layout(event, payload);
}

/// The addresses that are read from a message are the ones that were written into it.
pub proof fn law_addresses_are_read_back(
    event: ConsensusEvent,
    sent: Vec<IP>,
    buff: Vec<u8>,
    payload: Vec<u8>,
    read: Result<Vec<IP>, PayloadError>,
)
    requires
        call_ensures(encode_event, (event, Some(&sent)), buff),
        payload@ == buff@.skip(9),
        call_ensures(decode_good_ips, (Some(payload),), read),
    ensures
        read matches Ok(ips) && crate::text::texts(ips@) == crate::text::texts(sent@),
{
    let ips = crate::text::texts(sent@);
    lemma_layout(event, Some(crate::payload::ips_payload(ips)));
    assert(crate::payload::carried(ips));
}

} // verus!
