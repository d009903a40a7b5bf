//! The generic error layer: low-level failure kinds, and conversions
//! from the outside libraries' error types surfaced while constructing
//! this core's inputs.

use vstd::prelude::*;

verus! {

/// Kinds of low-level errors.
#[derive(Clone, Copy, Debug, PartialEq, Eq, Structural)]
pub enum Kind {
    /// Cryptographic operation failed
    Crypto,
    /// Malformatted or otherwise invalid cryptographic key
    InvalidKey,
    /// Input/output error
    Io,
    /// Length incorrect or too long
    Length,
    /// Parse error
    Parse,
    /// Network protocol-related errors
    Protocol,
    /// Value out-of-range
    OutOfRange,
    /// Signature invalid
    SignatureInvalid,
}

/// A low-level error: its kind plus an optional free-text message.
pub struct Error {
    pub kind: Kind,
    pub msg: Option<String>,
}

impl Error {
    /// Build an error of the given kind with an optional message.
    pub fn new(kind: Kind, msg: Option<String>) -> (e: Error)
        ensures
            e.kind == kind,
            e.msg == msg,
    {
        Error { kind, msg }
    }

    /// The error's kind.
    pub fn kind(&self) -> (k: &Kind)
        ensures
            k == &self.kind,
    {
        &self.kind
    }

    /// The message associated with this error, if available.
    pub fn msg(&self) -> (m: Option<&str>)
        ensures
            match (m, &self.msg) {
                (Some(s), Some(text)) => s@ == text@,
                (None, None) => true,
                _ => false,
            },
    {
        match &self.msg {
            Some(text) => Some(text.as_str()),
            None => None,
        }
    }
}

impl core::convert::From<Kind> for Error {
    fn from(kind: Kind) -> (e: Error) {
        Error::new(kind, None)
    }
}

impl vstd::std_specs::convert::FromSpecImpl<Kind> for Error {
    open spec fn obeys_from_spec() -> bool {
        true
    }

    open spec fn from_spec(kind: Kind) -> Error {
        Error { kind, msg: None }
    }
}

#[verifier::external_type_specification]
#[verifier::external_body]
pub struct ExChronoParseError(chrono::ParseError);

/// Relies on the `Display` text of `chrono::ParseError` for the
/// error's free-text message.
#[verifier::external_body]
fn chrono_parse_error_text(err: &chrono::ParseError) -> String {
    format!("{}", err)
}

impl core::convert::From<chrono::ParseError> for Error {
    fn from(err: chrono::ParseError) -> (e: Error)
        ensures
            e.kind == Kind::Parse,
            e.msg is Some,
    {
        Error::new(Kind::Parse, Some(chrono_parse_error_text(&err)))
    }
}

impl vstd::std_specs::convert::FromSpecImpl<chrono::ParseError> for Error {
    open spec fn obeys_from_spec() -> bool {
        false
    }

    open spec fn from_spec(err: chrono::ParseError) -> Error {
        Error { kind: Kind::Parse, msg: None }
    }
}

#[verifier::external_type_specification]
#[verifier::external_body]
pub struct ExIoError(std::io::Error);

/// Relies on the `Display` text of `std::io::Error` for the error's
/// free-text message.
#[verifier::external_body]
fn io_error_text(err: &std::io::Error) -> String {
    format!("{}", err)
}

impl core::convert::From<std::io::Error> for Error {
    fn from(err: std::io::Error) -> (e: Error)
        ensures
            e.kind == Kind::Io,
            e.msg is Some,
    {
        Error::new(Kind::Io, Some(io_error_text(&err)))
    }
}

impl vstd::std_specs::convert::FromSpecImpl<std::io::Error> for Error {
    open spec fn obeys_from_spec() -> bool {
        false
    }

    open spec fn from_spec(err: std::io::Error) -> Error {
        Error { kind: Kind::Io, msg: None }
    }
}

#[verifier::external_type_specification]
#[verifier::external_body]
pub struct ExProstDecodeError(prost::DecodeError);

/// Relies on the `Display` text of `prost::DecodeError` for the
/// error's free-text message.
#[verifier::external_body]
fn prost_decode_error_text(err: &prost::DecodeError) -> String {
    format!("{}", err)
}

impl core::convert::From<prost::DecodeError> for Error {
    fn from(err: prost::DecodeError) -> (e: Error)
        ensures
            e.kind == Kind::Parse,
            e.msg is Some,
    {
        Error::new(Kind::Parse, Some(prost_decode_error_text(&err)))
    }
}

impl vstd::std_specs::convert::FromSpecImpl<prost::DecodeError> for Error {
    open spec fn obeys_from_spec() -> bool {
        false
    }

    open spec fn from_spec(err: prost::DecodeError) -> Error {
        Error { kind: Kind::Parse, msg: None }
    }
}

#[verifier::external_type_specification]
#[verifier::external_body]
pub struct ExProstEncodeError(prost::EncodeError);

/// Relies on the `Display` text of `prost::EncodeError` for the
/// error's free-text message.
#[verifier::external_body]
fn prost_encode_error_text(err: &prost::EncodeError) -> String {
    format!("{}", err)
}

impl core::convert::From<prost::EncodeError> for Error {
    fn from(err: prost::EncodeError) -> (e: Error)
        ensures
            e.kind == Kind::Parse,
            e.msg is Some,
    {
        Error::new(Kind::Parse, Some(prost_encode_error_text(&err)))
    }
}

impl vstd::std_specs::convert::FromSpecImpl<prost::EncodeError> for Error {
    open spec fn obeys_from_spec() -> bool {
        false
    }

    open spec fn from_spec(err: prost::EncodeError) -> Error {
        Error { kind: Kind::Parse, msg: None }
    }
}

} // verus!
