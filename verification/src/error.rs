//! Errors the plugin reports to the webview, and their messages.
use vstd::prelude::*;

use base64::DecodeError;

use crate::decimal::{decimal, push_decimal};

verus! {

/// Why base64 text could not be decoded.
#[derive(Clone, Copy, Debug, PartialEq, Eq, Structural)]
pub enum Base64Error {
    /// A byte that is not a base64 symbol, at the given offset.
    InvalidByte(usize, u8),
    /// The number of base64 symbols cannot be decoded.
    InvalidLength(usize),
    /// The last symbol, at the given offset, carries bits that would be lost.
    InvalidLastSymbol(usize, u8),
    /// The padding is absent or not canonical.
    InvalidPadding,
}

/// An error of a plugin command.
#[derive(Clone, Copy, Debug, PartialEq, Eq, Structural)]
pub enum Error {
    /// No worklet has the given identifier.
    NoWorklet(u8),
    /// Memory optimisation was requested after a worklet had been created.
    WorkletsAlreadyCreated,
    /// A write request did not carry raw bytes.
    InvalidWritePayload,
    /// A write request's base64 text could not be decoded.
    Base64(Base64Error),
}

/// The message base64's `DecodeError` gives for the error `e` mirrors: the
/// text its `Display` impl writes, with the numbers in decimal.
pub open spec fn base64_error_message(e: Base64Error) -> Seq<char> {
    match e {
        Base64Error::InvalidByte(offset, byte) => "Invalid symbol "@ + decimal(byte as nat)
            + ", offset "@ + decimal(offset as nat) + "."@,
        Base64Error::InvalidLength(len) => "Invalid input length: "@ + decimal(len as nat),
        Base64Error::InvalidLastSymbol(offset, byte) => "Invalid last symbol "@ + decimal(
            byte as nat,
        ) + ", offset "@ + decimal(offset as nat) + "."@,
        Base64Error::InvalidPadding => "Invalid padding"@,
    }
}

/// The message of the `base64::DecodeError` variant that `e` mirrors, as its
/// `Display` impl (`impl Display for DecodeError`, through
/// `ToString::to_string`) writes it. Trusted: the text is the format string
/// of that variant with its fields in decimal.
#[verifier::external_body]
fn decode_error_text(e: Base64Error) -> (text: String)
    ensures
        text@ == base64_error_message(e),
{
    let e = match e {
        Base64Error::InvalidByte(offset, byte) => DecodeError::InvalidByte(offset, byte),
        Base64Error::InvalidLength(len) => DecodeError::InvalidLength(len),
        Base64Error::InvalidLastSymbol(offset, byte) => DecodeError::InvalidLastSymbol(offset, byte),
        Base64Error::InvalidPadding => DecodeError::InvalidPadding,
    };
    e.to_string()
}

impl Base64Error {
    /// The text of the message.
    pub open spec fn message_text(self) -> Seq<char> {
        base64_error_message(self)
    }

    /// The message that describes the error: the one base64 gives the same
    /// decoding error.
    pub fn message(&self) -> (text: String)
        ensures
            text@ == self.message_text(),
    {
        decode_error_text(*self)
    }
}

impl Error {
    /// The text of the message.
    pub open spec fn message_text(self) -> Seq<char> {
        match self {
            Error::NoWorklet(id) => "No worklet found for ID "@ + decimal(id as nat),
            Error::WorkletsAlreadyCreated => "`optimize_for_memory` must be called before any worklets are created."@,
            Error::InvalidWritePayload => "Invalid payload for write request"@,
            Error::Base64(e) => e.message_text(),
        }
    }

    /// The message that describes the error.
    pub fn message(&self) -> (text: String)
        ensures
            text@ == self.message_text(),
    {
        match *self {
            Error::NoWorklet(id) => {
                let mut text = String::new();
                text.append("No worklet found for ID ");
                push_decimal(&mut text, id as u64);
                assert(text@ =~= self.message_text());
                text
            },
            Error::WorkletsAlreadyCreated => {
                let mut text = String::new();
                text.append(
                    "`optimize_for_memory` must be called before any worklets are created.",
                );
                assert(text@ =~= self.message_text());
                text
            },
            Error::InvalidWritePayload => {
                let mut text = String::new();
                text.append("Invalid payload for write request");
                assert(text@ =~= self.message_text());
                text
            },
            Error::Base64(e) => e.message(),
        }
    }
}

} // verus!
