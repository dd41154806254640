//! Errors of sending a packet.

use vstd::prelude::*;
use crate::io::err::WriteError;

verus! {
/// Why a packet could not be sent over a transport with errors of type `E`.
#[derive(Debug, PartialEq, Eq)]
pub enum TxError<E> {
    /// The transport accepted no bytes.
    WriteZero,
    /// The transport failed.
    Write(E),
    /// The packet is too long for its length to be encoded.
    RemainingLenExceeded,
}

impl<E> From<WriteError<E>> for TxError<E> {
    fn from(e: WriteError<E>) -> (r: TxError<E>)
        ensures
            r == tx_of_write(e),
    {
        match e {
            WriteError::WriteZero => TxError::WriteZero,
            WriteError::Write(e) => TxError::Write(e),
        }
    }
}

/// A write error as the error of sending the packet.
pub open spec fn tx_of_write<E>(e: WriteError<E>) -> TxError<E> {
    match e {
        WriteError::WriteZero => TxError::WriteZero,
        WriteError::Write(e) => TxError::Write(e),
    }
}

impl<E> vstd::std_specs::convert::FromSpecImpl<WriteError<E>> for TxError<E> {
    open spec fn obeys_from_spec() -> bool {
        true
    }

    open spec fn from_spec(e: WriteError<E>) -> TxError<E> {
        tx_of_write(e)
    }
}
} // verus!
