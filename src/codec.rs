//! The framing of a shot event on the wire.
//!
//! A payload carries one shot event as a JSON object in UTF-8 text, one
//! object per datagram or stream frame. This module decides whether a
//! payload is text at all; reading the JSON object into a `ShotEvent`, and
//! writing one, is done by the JSON library around the crate.
use vstd::prelude::*;
use vstd::utf8::{decode_utf8, valid_utf8};

verus! {

/// Why a payload does not carry a shot event.
#[derive(Clone, Copy, Debug, PartialEq, Eq, Structural)]
pub enum DecodeError {
    /// The payload is not valid UTF-8.
    NotText,
    /// The text is not a JSON shot object.
    NotAnEvent,
}

/// Relies on `std::str::from_utf8`: `Ok` exactly for valid UTF-8, holding
/// the characters the bytes encode.
#[verifier::external_body]
fn utf8_text(b: &[u8]) -> (r: Option<&str>)
    ensures
        r is Some <==> valid_utf8(b@),
        r matches Some(s) ==> s@ == decode_utf8(b@),
{
    std::str::from_utf8(b).ok()
}

/// The text of a payload; `NotText` when the bytes are not UTF-8.
pub fn payload_text(b: &[u8]) -> (r: Result<&str, DecodeError>)
    ensures
        r is Ok <==> valid_utf8(b@),
        r matches Ok(s) ==> s@ == decode_utf8(b@),
        r matches Err(e) ==> e == DecodeError::NotText,
{
    match utf8_text(b) {
        Some(s) => Ok(s),
        None => Err(DecodeError::NotText),
    }
}

} // verus!
