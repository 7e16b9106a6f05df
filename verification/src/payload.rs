//! Payloads: the lists of addresses that messages carry.
use vstd::prelude::*;
use crate::event::ConsensusEvent;
use crate::frame::encode_frame;
use crate::json::{json_from_strings, strings_from_json};
use crate::network::IP;

verus! {

/// The error of `String::from_utf8`. What it holds is not looked into.
#[verifier::external_type_specification]
#[verifier::external_body]
pub struct ExFromUtf8Error(std::string::FromUtf8Error);

/// `String::from_utf8`. The contract claims that it succeeds on valid UTF-8 and on nothing else,
/// and that the string then holds the characters that the bytes encode.
pub assume_specification[ String::from_utf8 ](vec: Vec<u8>) -> (text: Result<
    String,
    std::string::FromUtf8Error,
>)
    ensures
        match text {
            Ok(text) => vstd::utf8::valid_utf8(vec@) && text@ == vstd::utf8::decode_utf8(vec@),
            Err(_) => !vstd::utf8::valid_utf8(vec@),
        },
;

/// Why a payload holds no list of addresses.
#[derive(Debug)]
pub enum PayloadError {
    Missing,
    NotUtf8(std::string::FromUtf8Error),
    NotJson(serde_json::Error),
}

/// [`PayloadError`] without what the libraries say of the fault.
pub enum PayloadFault {
    Missing,
    NotUtf8,
    NotJson,
}

impl View for PayloadError {
    type V = PayloadFault;

    open spec fn view(&self) -> PayloadFault {
        match self {
            PayloadError::Missing => PayloadFault::Missing,
            PayloadError::NotUtf8(_) => PayloadFault::NotUtf8,
            PayloadError::NotJson(_) => PayloadFault::NotJson,
        }
    }
}

/// The list of addresses that a payload holds, or why it holds none.
pub open spec fn payload_ips(payload: Option<Seq<u8>>) -> Result<Seq<Seq<char>>, PayloadFault> {
    match payload {
        None => Err(PayloadFault::Missing),
        Some(bytes) => if !vstd::utf8::valid_utf8(bytes) {
            Err(PayloadFault::NotUtf8)
        } else {
            match crate::json::json_strings(vstd::utf8::decode_utf8(bytes)) {
                Some(ips) => Ok(ips),
                None => Err(PayloadFault::NotJson),
            }
        },
    }
}

/// The payload that a list of addresses is sent as.
pub open spec fn ips_payload(ips: Seq<Seq<char>>) -> Seq<u8> {
    vstd::utf8::encode_utf8(crate::json::json_text(ips))
}

/// The payload of a list is not empty, its size fits in a header, and whoever receives it reads
/// the same list.
pub open spec fn carried(ips: Seq<Seq<char>>) -> bool {
    &&& 0 < ips_payload(ips).len() <= u64::MAX
    &&& payload_ips(Some(ips_payload(ips))) == Ok::<_, PayloadFault>(ips)
}

/// Reads a list of addresses out of a payload.
pub fn decode_good_ips(payload: Option<Vec<u8>>) -> (ips: Result<Vec<IP>, PayloadError>)
    ensures
        match ips {
            Ok(ips) => payload_ips(
                match payload {
                    Some(bytes) => Some(bytes@),
                    None => None,
                },
            ) == Ok::<_, PayloadFault>(crate::text::texts(ips@)),
            Err(error) => payload_ips(
                match payload {
                    Some(bytes) => Some(bytes@),
                    None => None,
                },
            ) == Err::<Seq<Seq<char>>, _>(error@),
        },
{
    match payload {
        None => Err(PayloadError::Missing),
        Some(bytes) => match String::from_utf8(bytes) {
            Err(error) => Err(PayloadError::NotUtf8(error)),
            Ok(text) => match strings_from_json(text.as_str()) {
                Err(error) => Err(PayloadError::NotJson(error)),
                Ok(ips) => Ok(ips),
            },
        },
    }
}

/// Puts together the message that is sent for an event, with a list of addresses or without.
/// The list that is written can be read back by whoever receives it.
pub fn encode_event(event: ConsensusEvent, ips: Option<&Vec<IP>>) -> (buff: Vec<u8>)
    ensures
        buff@ == crate::frame::frame_bytes(
            event,
            match ips {
                Some(ips) => Some(ips_payload(crate::text::texts(ips@))),
                None => None,
            },
        ),
        ips matches Some(ips) ==> carried(crate::text::texts(ips@)),
{
    match ips {
        Some(ips) => {
            let text = json_from_strings(ips).unwrap();
            let bytes = text.as_str().as_bytes();
            proof {
                assert(bytes@.len() == bytes.len());
                lemma_carried(crate::text::texts(ips@));
            }
            encode_frame(event, Some(bytes))
        },
        None => encode_frame(event, None),
    }
}

/// A list whose text can be read back is carried by its payload.
proof fn lemma_carried(ips: Seq<Seq<char>>)
    requires
        crate::json::reads_back(ips),
        ips_payload(ips).len() <= u64::MAX,
    ensures
        carried(ips),
{
    let text = crate::json::json_text(ips);
    vstd::utf8::encode_utf8_valid_utf8(text);
    vstd::utf8::encode_utf8_decode_utf8(text);
    if ips_payload(ips).len() == 0 {
        assert(vstd::utf8::decode_utf8(ips_payload(ips)).len() == 0);
    }
}

} // verus!
