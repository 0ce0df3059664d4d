//! The byte payloads of IPC read and write requests, raw or as base64 text.
use base64::prelude::BASE64_STANDARD;
use base64::{DecodeError, Engine};
use vstd::prelude::*;

use crate::error::{Base64Error, Error};

verus! {

/// The standard (padded) base64 encoding of `data`.
pub uninterp spec fn base64_standard_encoding(data: Seq<u8>) -> Seq<char>;

/// What decoding `text` as standard (padded) base64 gives.
pub uninterp spec fn base64_standard_decoding(text: Seq<char>) -> Result<Seq<u8>, Base64Error>;

/// A successful decoding that gives `bytes`.
pub open spec fn decoded(bytes: Seq<u8>) -> Result<Seq<u8>, Base64Error> {
    Ok(bytes)
}

/// A failed decoding.
pub open spec fn not_decoded(e: Base64Error) -> Result<Seq<u8>, Base64Error> {
    Err(e)
}

/// Encodes `data` with `base64::engine::general_purpose::STANDARD`
/// (`Engine::encode`). Trusted: the text is a function of the data alone; it
/// has four symbols for every started group of three bytes; and decoding it
/// with the same engine gives the data back. The symbols themselves are not
/// stated. The length bound keeps `Engine::encode` from panicking on an
/// overflowing output size.
#[verifier::external_body]
fn encode_base64(data: &[u8]) -> (text: String)
    requires
        data@.len() <= isize::MAX,
    ensures
        text@ == base64_standard_encoding(data@),
        text@.len() == (data@.len() + 2) / 3 * 4,
        base64_standard_decoding(text@) == decoded(data@),
{
    BASE64_STANDARD.encode(data)
}

/// Decodes `text` with `base64::engine::general_purpose::STANDARD`
/// (`Engine::decode`), turning its `DecodeError` into the same variant of
/// `Base64Error`. Trusted: the outcome is a function of the text alone; what
/// it is on a given text is not stated.
#[verifier::external_body]
fn decode_base64(text: &str) -> (r: Result<Vec<u8>, Base64Error>)
    ensures
        match r {
            Ok(bytes) => base64_standard_decoding(text@) == decoded(bytes@),
            Err(e) => base64_standard_decoding(text@) == not_decoded(e),
        },
{
    match BASE64_STANDARD.decode(text) {
        Ok(bytes) => Ok(bytes),
        Err(DecodeError::InvalidByte(offset, byte)) => Err(Base64Error::InvalidByte(offset, byte)),
        Err(DecodeError::InvalidLength(len)) => Err(Base64Error::InvalidLength(len)),
        Err(DecodeError::InvalidLastSymbol(offset, byte)) => Err(
            Base64Error::InvalidLastSymbol(offset, byte),
        ),
        Err(DecodeError::InvalidPadding) => Err(Base64Error::InvalidPadding),
    }
}

/// The bytes of `payload` from `start` on.
fn tail(payload: &[u8], start: usize) -> (rest: Vec<u8>)
    requires
        start <= payload@.len(),
    ensures
        rest@ == payload@.skip(start as int),
{
    let mut rest: Vec<u8> = Vec::new();
    let mut i = start;
    while i < payload.len()
        invariant
            start <= i <= payload@.len(),
            rest@ == payload@.subrange(start as int, i as int),
        decreases payload@.len() - i,
    {
        rest.push(payload[i]);
        i = i + 1;
        assert(rest@ =~= payload@.subrange(start as int, i as int));
    }
    assert(rest@ =~= payload@.skip(start as int));
    rest
}

/// A write payload: the worklet identifier in the first byte, then the data
/// to write. A payload of the identifier alone asks for an empty write.
pub fn parse_write_payload(payload: &[u8]) -> (request: (u8, Option<Vec<u8>>))
    requires
        payload@.len() >= 1,
    ensures
        request.0 == payload@[0],
        payload@.len() == 1 ==> request.1.is_none(),
        payload@.len() > 1 ==> (request.1 matches Some(data) && data@ == payload@.skip(1)),
{
    let id = payload[0];
    if payload.len() == 1 {
        (id, None)
    } else {
        (id, Some(tail(payload, 1)))
    }
}

/// A write request whose body is `body` when it is raw bytes, and `None`
/// when it is not: only a raw body is accepted.
pub fn raw_write_request(body: Option<&[u8]>) -> (request: Result<(u8, Option<Vec<u8>>), Error>)
    requires
        body matches Some(b) ==> b@.len() >= 1,
    ensures
        match body {
            None => request == Err::<(u8, Option<Vec<u8>>), Error>(Error::InvalidWritePayload),
            Some(b) => request matches Ok(r) && r.0 == b@[0] && (b@.len() == 1 ==> r.1.is_none())
                && (b@.len() > 1 ==> (r.1 matches Some(data) && data@ == b@.skip(1))),
        },
{
    match body {
        Some(b) => Ok(parse_write_payload(b)),
        None => Err(Error::InvalidWritePayload),
    }
}

/// The bytes of a write payload sent as base64 text.
pub fn decode_write_payload(text: &str) -> (payload: Result<Vec<u8>, Error>)
    ensures
        match base64_standard_decoding(text@) {
            Ok(bytes) => payload matches Ok(p) && p@ == bytes,
            Err(e) => payload == Err::<Vec<u8>, Error>(Error::Base64(e)),
        },
{
    match decode_base64(text) {
        Ok(bytes) => Ok(bytes),
        Err(e) => Err(Error::Base64(e)),
    }
}

/// The body of a read response: the data read, or no bytes when there was
/// nothing to read.
pub fn read_response(data: Option<Vec<u8>>) -> (body: Vec<u8>)
    ensures
        match data {
            Some(d) => body@ == d@,
            None => body@.len() == 0,
        },
{
    match data {
        Some(d) => d,
        None => Vec::new(),
    }
}

/// The body of a read response as base64 text, or none when there was
/// nothing to read.
pub fn read_response_base64(data: Option<Vec<u8>>) -> (body: Option<String>)
    requires
        data matches Some(d) ==> d@.len() <= isize::MAX,
    ensures
        match data {
            Some(d) => body matches Some(text) && text@ == base64_standard_encoding(d@)
                && base64_standard_decoding(text@) == decoded(d@),
            None => body.is_none(),
        },
{
    match data {
        Some(d) => Some(encode_base64(d.as_slice())),
        None => None,
    }
}

} // verus!
