//! Messages as bytes. The first byte is the event, followed by the size of the payload as eight
//! bytes, the most significant first, and by the payload.
use vstd::prelude::*;
use crate::event::ConsensusEvent;

verus! {

/// The bytes that the size of the payload takes.
pub const U64SIZE: usize = 8;

/// The bytes that precede the payload.
pub const HEADER_SIZE: usize = 9;

/// A number as `width` bytes, the most significant first. What does not fit is left out.
pub open spec fn be_bytes(n: nat, width: nat) -> Seq<u8>
    decreases width,
{
    if width == 0 {
        Seq::empty()
    } else {
        be_bytes(n / 256, (width - 1) as nat).push((n % 256) as u8)
    }
}

/// The number that some bytes hold, the most significant first.
pub open spec fn be_value(bytes: Seq<u8>) -> nat
    decreases bytes.len(),
{
    if bytes.len() == 0 {
        0
    } else {
        be_value(bytes.drop_last()) * 256 + bytes.last() as nat
    }
}

/// The bytes after the header. A message without a payload has none.
pub open spec fn payload_bytes(payload: Option<Seq<u8>>) -> Seq<u8> {
    match payload {
        Some(bytes) => bytes,
        None => Seq::empty(),
    }
}

/// A whole message.
pub open spec fn frame_bytes(event: ConsensusEvent, payload: Option<Seq<u8>>) -> Seq<u8> {
    seq![event.code()] + be_bytes(payload_bytes(payload).len(), U64SIZE as nat) + payload_bytes(
        payload,
    )
}

/// The event that a header announces, if its first byte stands for one.
pub open spec fn header_event(header: Seq<u8>) -> Option<ConsensusEvent> {
    ConsensusEvent::of_code(header[0])
}

/// The size of the payload that a header announces.
pub open spec fn header_size(header: Seq<u8>) -> nat {
    be_value(header.subrange(1, HEADER_SIZE as int))
}

/// Appends a number as `width` bytes.
fn push_be(buff: &mut Vec<u8>, n: u64, width: usize)
    ensures
        final(buff)@ == old(buff)@ + be_bytes(n as nat, width as nat),
    decreases width,
{
    if width > 0 {
        push_be(buff, n / 256, width - 1);
        buff.push((n % 256) as u8);
    }
}

/// Puts a message together.
pub fn encode_frame(event: ConsensusEvent, payload: Option<&[u8]>) -> (buff: Vec<u8>)
    ensures
        buff@ == frame_bytes(
            event,
            match payload {
                Some(bytes) => Some(bytes@),
                None => None,
            },
        ),
{
    let mut buff: Vec<u8> = Vec::new();
    buff.push(event.to_u8());
    match payload {
        Some(bytes) => {
            push_be(&mut buff, bytes.len() as u64, U64SIZE);
            buff.extend_from_slice(bytes);
        },
        None => {
            push_be(&mut buff, 0, U64SIZE);
        },
    }
    assert(buff@ =~= frame_bytes(
        event,
        match payload {
            Some(bytes) => Some(bytes@),
            None => None,
        },
    ));
    buff
}

/// Reads the event out of a header.
pub fn decode_event(header: &[u8; HEADER_SIZE]) -> (event: Result<ConsensusEvent, String>)
    ensures
        crate::text::answer_view(event) == (match header_event(header@) {
            Some(event) => Ok(event),
            None => Err("Unknow event"@),
        }),
{
    ConsensusEvent::from_u8(header[0])
}

/// Reads the size of the payload out of a header.
pub fn decode_size(header: &[u8; HEADER_SIZE]) -> (size: u64)
    ensures
        size == header_size(header@),
{
    let mut size: u64 = 0;
    let mut i: usize = 1;
    assert(header@.subrange(1, 1) =~= Seq::<u8>::empty());
    while i < HEADER_SIZE
        invariant
            1 <= i <= HEADER_SIZE,
            size == be_value(header@.subrange(1, i as int)),
        decreases HEADER_SIZE - i,
    {
        proof {
            let read = header@.subrange(1, i as int);
            let next = header@.subrange(1, i + 1);
            assert(next.drop_last() =~= read);
            assert(next.last() == header@[i as int]);
            lemma_be_value_fits(next);
        }
        size = size * 256 + header[i] as u64;
        i = i + 1;
    }
    size
}

/// Eight bytes or fewer hold no more than a `u64`.
proof fn lemma_be_value_fits(bytes: Seq<u8>)
    requires
        bytes.len() <= U64SIZE,
    ensures
        be_value(bytes) <= u64::MAX,
{
    reveal_with_fuel(be_value, 9);
}

/// A number that fits in the bytes is read back from them.
pub proof fn law_be_roundtrip(n: nat, width: nat)
    requires
        n < vstd::arithmetic::power::pow(256, width),
    ensures
        be_bytes(n, width).len() == width,
        be_value(be_bytes(n, width)) == n,
    decreases width,
{
    reveal(vstd::arithmetic::power::pow);
    if width > 0 {
        assert(n / 256 < vstd::arithmetic::power::pow(256, (width - 1) as nat));
        law_be_roundtrip(n / 256, (width - 1) as nat);
        assert(be_bytes(n, width).drop_last() =~= be_bytes(n / 256, (width - 1) as nat));
    }
}

/// The number that the eight bytes after the first hold, the most significant first.
pub open spec fn size_field(header: Seq<u8>) -> int {
    header[1] * 0x100_0000_0000_0000 + header[2] * 0x1_0000_0000_0000 + header[3]
        * 0x100_0000_0000 + header[4] * 0x1_0000_0000 + header[5] * 0x100_0000 + header[6]
        * 0x1_0000 + header[7] * 0x100 + header[8]
}

/// Each byte of the size counts 256 times what the next one does.
pub proof fn law_size_is_positional(header: Seq<u8>)
    requires
        header.len() >= HEADER_SIZE,
    ensures
        header_size(header) == size_field(header),
{
    let b = header.subrange(1, HEADER_SIZE as int);
    assert(b.drop_last() =~= header.subrange(1, 8));
    assert(header.subrange(1, 8).drop_last() =~= header.subrange(1, 7));
    assert(header.subrange(1, 7).drop_last() =~= header.subrange(1, 6));
    assert(header.subrange(1, 6).drop_last() =~= header.subrange(1, 5));
    assert(header.subrange(1, 5).drop_last() =~= header.subrange(1, 4));
    assert(header.subrange(1, 4).drop_last() =~= header.subrange(1, 3));
    assert(header.subrange(1, 3).drop_last() =~= header.subrange(1, 2));
    assert(header.subrange(1, 2).drop_last() =~= Seq::<u8>::empty());
    reveal_with_fuel(be_value, 9);
}

/// A message comes apart as it was put together: the header gives the event and the size of the
/// payload, and what follows the header is the payload.
pub proof fn law_frame_roundtrip(event: ConsensusEvent, payload: Option<Seq<u8>>)
    requires
        payload_bytes(payload).len() <= u64::MAX,
    ensures
        frame_bytes(event, payload).len() == HEADER_SIZE + payload_bytes(payload).len(),
        header_event(frame_bytes(event, payload).take(HEADER_SIZE as int)) == Some(event),
        header_size(frame_bytes(event, payload).take(HEADER_SIZE as int)) == payload_bytes(
            payload,
        ).len(),
        frame_bytes(event, payload).skip(HEADER_SIZE as int) == payload_bytes(payload),
{
    let frame = frame_bytes(event, payload);
    let size = payload_bytes(payload).len();
    assert(vstd::arithmetic::power::pow(256, 8) == 0x1_0000_0000_0000_0000) by {
        reveal_with_fuel(vstd::arithmetic::power::pow, 9);
    }
    law_be_roundtrip(size, U64SIZE as nat);
    assert(frame.take(HEADER_SIZE as int).subrange(1, HEADER_SIZE as int) =~= be_bytes(
        size,
        U64SIZE as nat,
    ));
    assert(frame.skip(HEADER_SIZE as int) =~= payload_bytes(payload));
}

} // verus!
