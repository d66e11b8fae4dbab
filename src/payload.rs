//! Reading a received payload as text.
use vstd::prelude::*;
use vstd::utf8::{decode_utf8, valid_utf8};

verus! {

/// A received payload, as the consumers report it.
#[derive(Debug, Clone, PartialEq, Eq)]
pub enum Payload {
    /// The record carried no payload.
    Missing,
    /// The payload is valid UTF-8 and reads as this text.
    Text(String),
    /// The payload is not valid UTF-8; the record is reported and skipped.
    Undecodable,
}

/// The bytes of an optional payload.
pub open spec fn payload_bytes(payload: Option<Vec<u8>>) -> Option<Seq<u8>> {
    match payload {
        Some(b) => Some(b@),
        None => None,
    }
}

/// What a consumer reports for the payload bytes `bytes`.
pub open spec fn payload_of(bytes: Option<Seq<u8>>, r: Payload) -> bool {
    match bytes {
        None => r is Missing,
        Some(b) => if valid_utf8(b) {
            r matches Payload::Text(t) && t@ == decode_utf8(b)
        } else {
            r is Undecodable
        },
    }
}

/// Relies on `std::str::from_utf8`, which accepts exactly the valid UTF-8
/// sequences, and on `str::to_owned`.
#[verifier::external_body]
fn utf8_text(bytes: &[u8]) -> (r: Option<String>)
    ensures
        r is Some <==> valid_utf8(bytes@),
        r matches Some(t) ==> t@ == decode_utf8(bytes@),
{
    std::str::from_utf8(bytes).ok().map(|t| t.to_owned())
}

/// Reads the payload of a record as text.
pub fn decode_payload(payload: &Option<Vec<u8>>) -> (r: Payload)
    ensures
        payload_of(payload_bytes(*payload), r),
{
    match payload {
        None => Payload::Missing,
        Some(b) => match utf8_text(b.as_slice()) {
            Some(t) => Payload::Text(t),
            None => Payload::Undecodable,
        },
    }
}

} // verus!
