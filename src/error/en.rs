//! Errors of the encode bridge.
use vstd::prelude::*;
use crate::error::make_msg;

verus! {

/// What went wrong while encoding.
#[derive(Debug, Clone, Copy, PartialEq, Eq, Structural)]
pub enum ErrorKind {
    /// The sink refused the bytes.
    Write,
    /// The encoder reported a message.
    Message,
    /// The data model raised an error of its own.
    Custom,
    /// A failure that fits no other kind.
    Unknow,
    /// 128-bit integers have no encoding here.
    Unsupported128BitInteger,
}

/// An encode error: its kind and a message.
#[derive(Debug)]
pub struct Error {
    pub kind: ErrorKind,
    pub msg: String,
}

impl Error {
    /// An error raised by the data model with its own message.
    pub fn custom(msg: &str) -> (r: Error)
        ensures
            r.kind == ErrorKind::Custom,
            r.msg@ == msg@,
    {
        Error { kind: ErrorKind::Custom, msg: make_msg(msg) }
    }

    /// The error for a failure of the encoder: `Message` where the encoder
    /// reported a message, `Write` where the sink failed.
    pub fn from_encode(is_message: bool) -> (r: Error)
        ensures
            r.kind == (if is_message { ErrorKind::Message } else { ErrorKind::Write }),
            r.msg@ == ""@,
    {
        let kind = if is_message {
            ErrorKind::Message
        } else {
            ErrorKind::Write
        };
        Error { kind, msg: make_msg("") }
    }

    /// The text of the error, naming its kind and its message.
    pub fn message(&self) -> (r: String)
        ensures
            r@ == self.msg@,
    {
        self.msg.clone()
    }
}

/// An error of the given kind with a fixed message.
pub fn make_kind_err(e: ErrorKind, msg: &str) -> (r: Error)
    ensures
        r.kind == e,
        r.msg@ == msg@,
{
    Error { kind: e, msg: make_msg(msg) }
}

} // verus!
