use peernet::event::ConsensusEvent;
use peernet::frame::{decode_event, decode_size, encode_frame, HEADER_SIZE, U64SIZE};
use peernet::payload::{decode_good_ips, encode_event, PayloadError};
use peernet::text::{listen_address, peer_address, tagged};

const EVENTS: [ConsensusEvent; 5] = [
    ConsensusEvent::Handshake,
    ConsensusEvent::Alive,
    ConsensusEvent::Misbehave,
    ConsensusEvent::GetGoodIps,
    ConsensusEvent::GoodIps,
];

fn header_of(frame: &[u8]) -> [u8; HEADER_SIZE] {
    let mut header = [0u8; HEADER_SIZE];
    header.copy_from_slice(&frame[..HEADER_SIZE]);
    header
}

fn ips(list: &[&str]) -> Vec<String> {
    list.iter().map(|ip| ip.to_string()).collect()
}

#[test]
fn events_have_their_codes() {
    assert_eq!(ConsensusEvent::Handshake.to_u8(), 1);
    assert_eq!(ConsensusEvent::Alive.to_u8(), 2);
    assert_eq!(ConsensusEvent::Misbehave.to_u8(), 3);
    assert_eq!(ConsensusEvent::GetGoodIps.to_u8(), 4);
    assert_eq!(ConsensusEvent::GoodIps.to_u8(), 5);
}

#[test]
fn codes_are_read_back() {
    for event in EVENTS {
        assert_eq!(ConsensusEvent::from_u8(event.to_u8()), Ok(event));
    }
    for id in [0u8, 6, 7, 128, 255] {
        assert_eq!(ConsensusEvent::from_u8(id), Err("Unknow event".to_string()));
    }
}

#[test]
fn frame_without_payload_is_a_bare_header() {
    assert_eq!(U64SIZE, 8);
    assert_eq!(HEADER_SIZE, 9);
    assert_eq!(encode_frame(ConsensusEvent::Handshake, None), vec![1, 0, 0, 0, 0, 0, 0, 0, 0]);
    assert_eq!(encode_event(ConsensusEvent::GetGoodIps, None), vec![4, 0, 0, 0, 0, 0, 0, 0, 0]);
}

#[test]
fn frame_with_payload() {
    assert_eq!(
        encode_frame(ConsensusEvent::GoodIps, Some(&[7, 8, 9])),
        vec![5, 0, 0, 0, 0, 0, 0, 0, 3, 7, 8, 9]
    );
    let long = vec![1u8; 258];
    let frame = encode_frame(ConsensusEvent::Alive, Some(&long));
    assert_eq!(&frame[..HEADER_SIZE], &[2, 0, 0, 0, 0, 0, 0, 1, 2]);
    assert_eq!(frame.len(), 267);
}

#[test]
fn size_is_big_endian() {
    assert_eq!(decode_size(&[5, 1, 2, 3, 4, 5, 6, 7, 8]), 0x0102_0304_0506_0708);
    assert_eq!(decode_size(&[5, 255, 255, 255, 255, 255, 255, 255, 255]), u64::MAX);
    assert_eq!(decode_size(&[5, 0, 0, 0, 0, 0, 0, 0, 0]), 0);
}

#[test]
fn frames_come_apart_as_put_together() {
    let payload: Vec<u8> = (0u8..200).collect();
    for event in EVENTS {
        let frame = encode_frame(event, Some(&payload));
        let header = header_of(&frame);
        assert_eq!(decode_event(&header), Ok(event));
        assert_eq!(decode_size(&header), 200);
        assert_eq!(&frame[HEADER_SIZE..], &payload[..]);
    }
    assert_eq!(
        decode_event(&[9, 0, 0, 0, 0, 0, 0, 0, 0]),
        Err("Unknow event".to_string())
    );
}

#[test]
fn addresses_are_sent_as_json() {
    let frame = encode_event(ConsensusEvent::GoodIps, Some(&ips(&["1.2.3.4", "::1"])));
    assert_eq!(&frame[..HEADER_SIZE], &[5, 0, 0, 0, 0, 0, 0, 0, 17]);
    assert_eq!(&frame[HEADER_SIZE..], b"[\"1.2.3.4\",\"::1\"]");
    let empty = encode_event(ConsensusEvent::GoodIps, Some(&ips(&[])));
    assert_eq!(empty, vec![5, 0, 0, 0, 0, 0, 0, 0, 2, b'[', b']']);
}

#[test]
fn addresses_are_read_back() {
    for list in [
        ips(&[]),
        ips(&["10.0.0.1"]),
        ips(&["10.0.0.1", "fe80::1", "10.0.0.1"]),
        ips(&["a\"b\\c", "\n\u{1}\u{7f}", "\u{1F600} \u{e9}", ""]),
    ] {
        let frame = encode_event(ConsensusEvent::GoodIps, Some(&list));
        let size = decode_size(&header_of(&frame));
        assert_eq!(size as usize, frame.len() - HEADER_SIZE);
        let read = decode_good_ips(Some(frame[HEADER_SIZE..].to_vec())).unwrap();
        assert_eq!(read, list);
    }
}

#[test]
fn payload_faults() {
    assert!(matches!(decode_good_ips(None), Err(PayloadError::Missing)));
    assert!(matches!(decode_good_ips(Some(vec![0xff, 0xfe])), Err(PayloadError::NotUtf8(_))));
    assert!(matches!(decode_good_ips(Some(b"{}".to_vec())), Err(PayloadError::NotJson(_))));
    assert!(matches!(decode_good_ips(Some(b"[1]".to_vec())), Err(PayloadError::NotJson(_))));
    assert!(matches!(decode_good_ips(Some(vec![0; 4])), Err(PayloadError::NotJson(_))));
}

#[test]
fn addresses_of_the_node_and_of_peers() {
    assert_eq!(listen_address(4242), "0.0.0.0:4242");
    assert_eq!(listen_address(0), "0.0.0.0:0");
    assert_eq!(listen_address(10), "0.0.0.0:10");
    assert_eq!(listen_address(1_234_567_890), "0.0.0.0:1234567890");
    assert_eq!(listen_address(u32::MAX), "0.0.0.0:4294967295");
    assert_eq!(peer_address(&"10.0.0.1".to_string()), "10.0.0.1:4242");
    assert_eq!(tagged(&"10.0.0.1".to_string(), "gone"), "[10.0.0.1] gone");
}
