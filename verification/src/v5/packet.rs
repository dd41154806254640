//! The DISCONNECT packet that closes a faulted connection.

use vstd::prelude::*;
use crate::header::{header_wire, FixedHeader, PacketType};
use crate::types::reason_code::ReasonCode;
use crate::types::var_byte_int::VarByteInt;

verus! {
/// A DISCONNECT packet that carries a reason code and no properties.
#[derive(Clone, Copy, Debug, PartialEq, Eq, Structural)]
pub struct DisconnectPacket {
    pub reason_code: ReasonCode,
}

/// The packet on the wire: the fixed header of a DISCONNECT with a body of
/// two bytes, the reason code, and an empty property list.
pub open spec fn disconnect_wire(reason_code: ReasonCode) -> Seq<u8> {
    seq![0xE0u8, 0x02u8, reason_code.spec_value(), 0x00u8]
}

impl DisconnectPacket {
    /// The packet that carries `reason_code`.
    pub fn new(reason_code: ReasonCode) -> (p: DisconnectPacket)
        ensures
            p.reason_code == reason_code,
    {
        DisconnectPacket { reason_code }
    }

    /// The packet as it stands on the wire, four bytes long.
    pub fn encode(&self) -> (out: Vec<u8>)
        ensures
            out@ == disconnect_wire(self.reason_code),
            out@ == header_wire(0xE0u8, 2) + seq![self.reason_code.spec_value(), 0x00u8],
            out@.len() == 4,
    {
        let header = FixedHeader::new(PacketType::Disconnect, 0x00, VarByteInt::from(2u8));
        let mut out = header.encode();
        proof {
            reveal_with_fuel(crate::types::var_byte_int::encoding, 2);
        }
        out.push(self.reason_code.value());
        out.push(0x00);
        out
    }
}
} // verus!
