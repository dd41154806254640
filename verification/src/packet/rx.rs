//! Decoding a received packet.

use vstd::prelude::*;
use crate::io::err::DecodeError;
use crate::io::reader::{InsufficientLen, PacketDecoder};

verus! {
/// A packet that can be decoded from a received body.
pub trait RxPacket<'p>: Sized {
    /// Decodes a packet. Must check the fixed header for correctness.
    fn decode(decoder: PacketDecoder<'p>) -> Result<Self, RxError>;
}

/// Why a received packet could not be decoded.
#[derive(Clone, Copy, Debug, PartialEq, Eq, Structural)]
pub enum RxError {
    /// Space of a fixed size is not enough for what the packet holds.
    InsufficientConstSpace,
    MalformedPacket,
    ProtocolError,
}

/// A decode error as the error of decoding the packet.
pub open spec fn rx_of_decode(e: DecodeError) -> RxError {
    match e {
        DecodeError::MalformedPacket => RxError::MalformedPacket,
        DecodeError::ProtocolError => RxError::ProtocolError,
    }
}

impl From<InsufficientLen> for RxError {
    fn from(e: InsufficientLen) -> (r: RxError)
        ensures
            r == RxError::MalformedPacket,
    {
        RxError::MalformedPacket
    }
}

impl vstd::std_specs::convert::FromSpecImpl<InsufficientLen> for RxError {
    open spec fn obeys_from_spec() -> bool {
        true
    }

    open spec fn from_spec(e: InsufficientLen) -> RxError {
        RxError::MalformedPacket
    }
}

impl From<DecodeError> for RxError {
    fn from(e: DecodeError) -> (r: RxError)
        ensures
            r == rx_of_decode(e),
    {
        match e {
            DecodeError::MalformedPacket => RxError::MalformedPacket,
            DecodeError::ProtocolError => RxError::ProtocolError,
        }
    }
}

impl vstd::std_specs::convert::FromSpecImpl<DecodeError> for RxError {
    open spec fn obeys_from_spec() -> bool {
        true
    }

    open spec fn from_spec(e: DecodeError) -> RxError {
        rx_of_decode(e)
    }
}
} // verus!
