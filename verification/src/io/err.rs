//! Errors of decoding and of writing.

use vstd::prelude::*;
use crate::io::reader::InsufficientLen;

verus! {
/// Why a value could not be decoded from a packet body.
#[derive(Clone, Copy, Debug, PartialEq, Eq, Structural)]
pub enum DecodeError {
    /// The bytes do not form the value, or the body ends inside it.
    MalformedPacket,
    /// The value is well formed but not allowed where it stands.
    ProtocolError,
}

impl From<InsufficientLen> for DecodeError {
    fn from(e: InsufficientLen) -> (r: DecodeError)
        ensures
            r == DecodeError::MalformedPacket,
    {
        DecodeError::MalformedPacket
    }
}

impl vstd::std_specs::convert::FromSpecImpl<InsufficientLen> for DecodeError {
    open spec fn obeys_from_spec() -> bool {
        true
    }

    open spec fn from_spec(e: InsufficientLen) -> DecodeError {
        DecodeError::MalformedPacket
    }
}

/// Why bytes could not be written to a transport with errors of type `E`.
#[derive(Debug, PartialEq, Eq)]
pub enum WriteError<E> {
    /// The transport accepted no bytes.
    WriteZero,
    /// The transport failed.
    Write(E),
}

impl<E> From<E> for WriteError<E> {
    fn from(e: E) -> (r: WriteError<E>)
        ensures
            r == WriteError::Write(e),
    {
        WriteError::Write(e)
    }
}

impl<E> vstd::std_specs::convert::FromSpecImpl<E> for WriteError<E> {
    open spec fn obeys_from_spec() -> bool {
        true
    }

    open spec fn from_spec(e: E) -> WriteError<E> {
        WriteError::Write(e)
    }
}

/// Why a value could not be read from a stream with errors of type `E`.
#[derive(Debug, PartialEq, Eq)]
pub enum ReadError<E> {
    /// The stream failed.
    Read(E),
    /// The stream ended inside the value.
    UnexpectedEOF,
    MalformedPacket,
    ProtocolError,
    InvalidTopicName,
}

impl<E> From<E> for ReadError<E> {
    fn from(e: E) -> (r: ReadError<E>)
        ensures
            r == ReadError::Read(e),
    {
        ReadError::Read(e)
    }
}

impl<E> vstd::std_specs::convert::FromSpecImpl<E> for ReadError<E> {
    open spec fn obeys_from_spec() -> bool {
        true
    }

    open spec fn from_spec(e: E) -> ReadError<E> {
        ReadError::Read(e)
    }
}
} // verus!
