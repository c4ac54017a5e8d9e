//! Errors of the decode bridge.
use vstd::prelude::*;
use minicbor::decode::Error as CborDecodeError;
use crate::error::make_msg;
use crate::wire::WireType;
use crate::codec::{
    codec_end_of_input, codec_message, codec_missing_value, codec_type_mismatch,
    codec_unknown_variant,
};

verus! {

/// What went wrong while decoding.
#[derive(Debug, Clone, Copy, PartialEq, Eq, Structural)]
pub enum ErrorKind {
    /// The decoder reported a message.
    Message,
    /// Decoding has (unexpectedly) reached the end of the input slice.
    EndOfInput,
    /// Data item to decode is not a valid `char`.
    InvalidChar,
    /// A text string is not valid UTF-8.
    Utf8,
    /// The item found is not of a type that the target accepts.
    TypeMismatch(Option<WireType>),
    /// An unknown enum variant was encountered.
    UnknownVariant,
    /// A value was missing at the specified index.
    MissingValue,
    /// A number does not fit the counter or target it was meant for.
    Overflow,
    /// 128-bit integers are not supported at this time
    Unsupported128BitInteger,
    /// The data model raised an error of its own.
    Custom,
    /// A decoder failure that fits no other kind.
    Unknow,
}

/// A decode error: its kind, a message, and the decoder's own error where
/// the failure came from the decoder.
#[derive(Debug)]
pub struct Error {
    pub source: Option<CborDecodeError>,
    pub kind: ErrorKind,
    pub msg: String,
}

impl Error {
    /// An error raised by the data model with its own message.
    pub fn custom(msg: &str) -> (r: Error)
        ensures
            r.kind == ErrorKind::Custom,
            r.msg@ == msg@,
            r.source is None,
    {
        make_custom_err(msg)
    }

    /// The error for a failure of the decoder, classified by what the
    /// decoder's error reports of itself.
    pub fn from_codec(e: CborDecodeError) -> (r: Error)
        ensures
            r.source is Some,
            r.msg@ == ""@,
            r.source == Some(e),
            codec_end_of_input(e) ==> r.kind == ErrorKind::EndOfInput,
            !codec_end_of_input(e) && codec_message(e) ==> r.kind == ErrorKind::Message,
            !codec_end_of_input(e) && !codec_message(e) && codec_type_mismatch(e) ==> r.kind
                == ErrorKind::TypeMismatch(None),
            !codec_end_of_input(e) && !codec_message(e) && !codec_type_mismatch(e)
                && codec_unknown_variant(e) ==> r.kind == ErrorKind::UnknownVariant,
            !codec_end_of_input(e) && !codec_message(e) && !codec_type_mismatch(e)
                && !codec_unknown_variant(e) && codec_missing_value(e) ==> r.kind
                == ErrorKind::MissingValue,
            !codec_end_of_input(e) && !codec_message(e) && !codec_type_mismatch(e)
                && !codec_unknown_variant(e) && !codec_missing_value(e) ==> r.kind
                == ErrorKind::Unknow,
    {
        let kind = if e.is_end_of_input() {
            ErrorKind::EndOfInput
        } else if e.is_message() {
            ErrorKind::Message
        } else if e.is_type_mismatch() {
            ErrorKind::TypeMismatch(None)
        } else if e.is_unknown_variant() {
            ErrorKind::UnknownVariant
        } else if e.is_missing_value() {
            ErrorKind::MissingValue
        } else {
            ErrorKind::Unknow
        };
        Error { source: Some(e), kind, msg: make_msg("") }
    }

    /// The text of the error's message.
    pub fn message(&self) -> (r: String)
        ensures
            r@ == self.msg@,
    {
        self.msg.clone()
    }

    /// The decoder's own error, where the failure came from the decoder.
    pub fn source(&self) -> (r: Option<&CborDecodeError>)
        ensures
            r is Some <==> self.source is Some,
            r is Some ==> *r->Some_0 == self.source->Some_0,
    {
        match &self.source {
            Some(e) => Some(e),
            None => None,
        }
    }
}

fn make_custom_err(msg: &str) -> (r: Error)
    ensures
        r.kind == ErrorKind::Custom,
        r.msg@ == msg@,
        r.source is None,
{
    Error { source: None, kind: ErrorKind::Custom, msg: make_msg(msg) }
}

/// An error of the given kind with a fixed message.
pub fn make_kind_err(e: ErrorKind, msg: &str) -> (r: Error)
    ensures
        r.kind == e,
        r.msg@ == msg@,
        r.source is None,
{
    Error { source: None, kind: e, msg: make_msg(msg) }
}

/// The error for an item of type `t` where the target expected another.
pub fn type_mismatch(t: WireType, s: &str) -> (r: Error)
    ensures
        r.kind == ErrorKind::TypeMismatch(Some(t)),
        r.msg@ == s@,
        r.source is None,
{
    Error { source: None, kind: ErrorKind::TypeMismatch(Some(t)), msg: make_msg(s) }
}

} // verus!
