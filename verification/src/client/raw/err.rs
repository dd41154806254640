//! The errors of the raw client, and how the errors beneath it are classed:
//! each becomes an error for the caller and, where the protocol was broken,
//! a reason code for the server.

use vstd::prelude::*;
use crate::eio::ErrorKind;
use crate::io::reader::ReaderError;
use crate::packet::rx::RxError;
use crate::packet::tx::TxError;
use crate::types::reason_code::ReasonCode;

verus! {
/// The main error returned by the raw client.
#[derive(Clone, Copy, Debug, PartialEq, Eq, Structural)]
pub enum Error {
    /// An outgoing packet is too long for its length to be encoded.
    TxPacketTooLong,
    /// An incoming packet is too long to be read into the buffer.
    RxBufferExceeded,
    /// The transport returned an error.
    Network(ErrorKind),
    /// The network is in a faulty state.
    Disconnected,
    /// Space of a fixed size is too small.
    ConstSpace,
    /// Malformed packet or protocol error.
    Server,
}

/// A failed send never leaves a reason code: the state of the transport is
/// unknown, so nothing more is sent on it.
pub open spec fn classify_tx(e: TxError<ErrorKind>) -> (Error, Option<ReasonCode>) {
    match e {
        TxError::WriteZero => (Error::Network(ErrorKind::WriteZero), None),
        TxError::Write(kind) => (Error::Network(kind), None),
        TxError::RemainingLenExceeded => (Error::TxPacketTooLong, None),
    }
}

/// Failures of the transport leave no reason code; a header that cannot be
/// accepted leaves one.
pub open spec fn classify_reader(e: ReaderError) -> (Error, Option<ReasonCode>) {
    match e {
        ReaderError::Read(kind) => (Error::Network(kind), None),
        ReaderError::EOF => (Error::Network(ErrorKind::NotConnected), None),
        ReaderError::InvalidPacketType => (Error::Server, Some(ReasonCode::MalformedPacket)),
        ReaderError::InvalidVarByteInt => (Error::Server, Some(ReasonCode::MalformedPacket)),
        ReaderError::BufferExceeded => (
            Error::RxBufferExceeded,
            Some(ReasonCode::ImplementationSpecificError),
        ),
    }
}

/// Every failure to decode a packet leaves a reason code.
pub open spec fn classify_rx(e: RxError) -> (Error, Option<ReasonCode>) {
    match e {
        RxError::InsufficientConstSpace => (
            Error::ConstSpace,
            Some(ReasonCode::ImplementationSpecificError),
        ),
        RxError::MalformedPacket => (Error::Server, Some(ReasonCode::MalformedPacket)),
        RxError::ProtocolError => (Error::Server, Some(ReasonCode::ProtocolError)),
    }
}

/// Errors of the connection carry no reason code and errors of the protocol
/// always carry one.
pub proof fn lemma_classes(tx: TxError<ErrorKind>, reader: ReaderError, rx: RxError)
    ensures
        classify_tx(tx).1 is None,
        classify_rx(rx).1 is Some,
        classify_reader(reader).1 is None <==> (reader is Read || reader is EOF),
        classify_reader(reader).1 is None <==> classify_reader(reader).0 is Network,
{
}

impl From<TxError<ErrorKind>> for (Error, Option<ReasonCode>) {
    fn from(e: TxError<ErrorKind>) -> (r: (Error, Option<ReasonCode>))
        ensures
            r == classify_tx(e),
    {
        match e {
            TxError::WriteZero => (Error::Network(ErrorKind::WriteZero), None),
            TxError::Write(kind) => (Error::Network(kind), None),
            TxError::RemainingLenExceeded => (Error::TxPacketTooLong, None),
        }
    }
}

impl vstd::std_specs::convert::FromSpecImpl<TxError<ErrorKind>> for (Error, Option<ReasonCode>) {
    open spec fn obeys_from_spec() -> bool {
        true
    }

    open spec fn from_spec(e: TxError<ErrorKind>) -> (Error, Option<ReasonCode>) {
        classify_tx(e)
    }
}

impl From<ReaderError> for (Error, Option<ReasonCode>) {
    fn from(e: ReaderError) -> (r: (Error, Option<ReasonCode>))
        ensures
            r == classify_reader(e),
    {
        match e {
            ReaderError::Read(kind) => (Error::Network(kind), None),
            ReaderError::EOF => (Error::Network(ErrorKind::NotConnected), None),
            ReaderError::InvalidPacketType | ReaderError::InvalidVarByteInt => (
                Error::Server,
                Some(ReasonCode::MalformedPacket),
            ),
            ReaderError::BufferExceeded => (
                Error::RxBufferExceeded,
                Some(ReasonCode::ImplementationSpecificError),
            ),
        }
    }
}

impl vstd::std_specs::convert::FromSpecImpl<ReaderError> for (Error, Option<ReasonCode>) {
    open spec fn obeys_from_spec() -> bool {
        true
    }

    open spec fn from_spec(e: ReaderError) -> (Error, Option<ReasonCode>) {
        classify_reader(e)
    }
}

impl From<RxError> for (Error, Option<ReasonCode>) {
    fn from(e: RxError) -> (r: (Error, Option<ReasonCode>))
        ensures
            r == classify_rx(e),
    {
        match e {
            RxError::InsufficientConstSpace => (
                Error::ConstSpace,
                Some(ReasonCode::ImplementationSpecificError),
            ),
            RxError::MalformedPacket => (Error::Server, Some(ReasonCode::MalformedPacket)),
            RxError::ProtocolError => (Error::Server, Some(ReasonCode::ProtocolError)),
        }
    }
}

impl vstd::std_specs::convert::FromSpecImpl<RxError> for (Error, Option<ReasonCode>) {
    open spec fn obeys_from_spec() -> bool {
        true
    }

    open spec fn from_spec(e: RxError) -> (Error, Option<ReasonCode>) {
        classify_rx(e)
    }
}
} // verus!
