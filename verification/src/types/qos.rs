//! Quality of service.

use vstd::prelude::*;

verus! {
/// The delivery guarantee of a message.
#[derive(Clone, Copy, Debug, PartialEq, Eq, Structural)]
pub enum QoS {
    AtMostOnce,
    AtLeastOnce,
    ExactlyOnce,
}

/// Bits that stand for no quality of service.
#[derive(Clone, Copy, Debug, PartialEq, Eq, Structural)]
pub struct InvalidQoS;

/// The quality of service that `bits` stand for: 0, 1 and 2 do.
pub open spec fn qos_of_bits(bits: u8) -> Option<QoS> {
    if bits == 0 {
        Some(QoS::AtMostOnce)
    } else if bits == 1 {
        Some(QoS::AtLeastOnce)
    } else if bits == 2 {
        Some(QoS::ExactlyOnce)
    } else {
        None
    }
}

impl QoS {
    /// The number of the level.
    pub open spec fn spec_bits(self) -> u8 {
        match self {
            QoS::AtMostOnce => 0,
            QoS::AtLeastOnce => 1,
            QoS::ExactlyOnce => 2,
        }
    }

    /// The number of the level.
    pub fn into_bits(self) -> (bits: u8)
        ensures
            bits == self.spec_bits(),
            qos_of_bits(bits) == Some(self),
    {
        match self {
            QoS::AtMostOnce => 0,
            QoS::AtLeastOnce => 1,
            QoS::ExactlyOnce => 2,
        }
    }

    /// The level with the number `bits`.
    pub fn try_from_bits(bits: u8) -> (r: Result<QoS, InvalidQoS>)
        ensures
            match r {
                Ok(q) => qos_of_bits(bits) == Some(q),
                Err(_) => qos_of_bits(bits) is None,
            },
    {
        if bits == 0 {
            Ok(QoS::AtMostOnce)
        } else if bits == 1 {
            Ok(QoS::AtLeastOnce)
        } else if bits == 2 {
            Ok(QoS::ExactlyOnce)
        } else {
            Err(InvalidQoS)
        }
    }
}
} // verus!
