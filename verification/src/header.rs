//! The fixed header that opens every packet: one byte of packet type and
//! flags, then the remaining length as a variable byte integer.

use vstd::prelude::*;
use crate::types::var_byte_int::{encoding, VarByteInt};

verus! {
/// The control packet types, in the order of their codes 1 to 15.
#[derive(Clone, Copy, Debug, PartialEq, Eq, Structural)]
pub enum PacketType {
    Connect,
    Connack,
    Publish,
    Puback,
    Pubrec,
    Pubrel,
    Pubcomp,
    Subscribe,
    Suback,
    Unsubscribe,
    Unsuback,
    Pingreq,
    Pingresp,
    Disconnect,
    Auth,
}

/// The type nibble 0, which no packet may carry.
#[derive(Clone, Copy, Debug, PartialEq, Eq, Structural)]
pub struct Reserved;

/// The packet type that a code in `1..=15` stands for.
pub open spec fn type_of_code(code: int) -> PacketType {
    if code == 1 {
        PacketType::Connect
    } else if code == 2 {
        PacketType::Connack
    } else if code == 3 {
        PacketType::Publish
    } else if code == 4 {
        PacketType::Puback
    } else if code == 5 {
        PacketType::Pubrec
    } else if code == 6 {
        PacketType::Pubrel
    } else if code == 7 {
        PacketType::Pubcomp
    } else if code == 8 {
        PacketType::Subscribe
    } else if code == 9 {
        PacketType::Suback
    } else if code == 10 {
        PacketType::Unsubscribe
    } else if code == 11 {
        PacketType::Unsuback
    } else if code == 12 {
        PacketType::Pingreq
    } else if code == 13 {
        PacketType::Pingresp
    } else if code == 14 {
        PacketType::Disconnect
    } else {
        PacketType::Auth
    }
}

/// Whether the upper nibble of a first header byte names a packet type.
/// Which flags a type admits is for the decoder of that packet to judge.
pub open spec fn valid_type_and_flags(byte: u8) -> bool {
    byte / 16 != 0
}

impl PacketType {
    /// The code of the type, the upper nibble of a first header byte.
    pub open spec fn spec_code(self) -> int {
        match self {
            PacketType::Connect => 1,
            PacketType::Connack => 2,
            PacketType::Publish => 3,
            PacketType::Puback => 4,
            PacketType::Pubrec => 5,
            PacketType::Pubrel => 6,
            PacketType::Pubcomp => 7,
            PacketType::Subscribe => 8,
            PacketType::Suback => 9,
            PacketType::Unsubscribe => 10,
            PacketType::Unsuback => 11,
            PacketType::Pingreq => 12,
            PacketType::Pingresp => 13,
            PacketType::Disconnect => 14,
            PacketType::Auth => 15,
        }
    }

    /// The code of the type, between 1 and 15.
    pub fn code(self) -> (c: u8)
        ensures
            c == self.spec_code(),
            1 <= c <= 15,
            type_of_code(c as int) == self,
    {
        match self {
            PacketType::Connect => 1,
            PacketType::Connack => 2,
            PacketType::Publish => 3,
            PacketType::Puback => 4,
            PacketType::Pubrec => 5,
            PacketType::Pubrel => 6,
            PacketType::Pubcomp => 7,
            PacketType::Subscribe => 8,
            PacketType::Suback => 9,
            PacketType::Unsubscribe => 10,
            PacketType::Unsuback => 11,
            PacketType::Pingreq => 12,
            PacketType::Pingresp => 13,
            PacketType::Disconnect => 14,
            PacketType::Auth => 15,
        }
    }

    /// The type named by the upper nibble of `type_and_flags`; nibble 0 is
    /// reserved.
    pub fn from_type_and_flags(type_and_flags: u8) -> (r: Result<PacketType, Reserved>)
        ensures
            r is Ok <==> valid_type_and_flags(type_and_flags),
            r matches Ok(t) ==> t == type_of_code(type_and_flags as int / 16)
                && t.spec_code() == type_and_flags / 16,
    {
        let code: u8 = type_and_flags / 16;
        if code == 0 {
            Err(Reserved)
        } else if code == 1 {
            Ok(PacketType::Connect)
        } else if code == 2 {
            Ok(PacketType::Connack)
        } else if code == 3 {
            Ok(PacketType::Publish)
        } else if code == 4 {
            Ok(PacketType::Puback)
        } else if code == 5 {
            Ok(PacketType::Pubrec)
        } else if code == 6 {
            Ok(PacketType::Pubrel)
        } else if code == 7 {
            Ok(PacketType::Pubcomp)
        } else if code == 8 {
            Ok(PacketType::Subscribe)
        } else if code == 9 {
            Ok(PacketType::Suback)
        } else if code == 10 {
            Ok(PacketType::Unsubscribe)
        } else if code == 11 {
            Ok(PacketType::Unsuback)
        } else if code == 12 {
            Ok(PacketType::Pingreq)
        } else if code == 13 {
            Ok(PacketType::Pingresp)
        } else if code == 14 {
            Ok(PacketType::Disconnect)
        } else {
            Ok(PacketType::Auth)
        }
    }
}

/// A fixed header: the byte of type and flags, and the length of the body
/// that follows.
#[derive(Clone, Copy, Debug, PartialEq, Eq, Structural)]
pub struct FixedHeader {
    pub type_and_flags: u8,
    pub remaining_len: VarByteInt,
}

/// A header as plain values.
pub ghost struct HeaderView {
    pub type_and_flags: u8,
    pub remaining_len: nat,
}

impl View for FixedHeader {
    type V = HeaderView;

    open spec fn view(&self) -> HeaderView {
        HeaderView { type_and_flags: self.type_and_flags, remaining_len: self.remaining_len@ }
    }
}

/// The bytes that carry a header on the wire.
pub open spec fn header_wire(type_and_flags: u8, remaining_len: nat) -> Seq<u8> {
    seq![type_and_flags] + encoding(remaining_len)
}

impl FixedHeader {
    /// The header of a packet of `packet_type` with the lower nibble of
    /// `flags` and a body of `remaining_len` bytes.
    pub fn new(packet_type: PacketType, flags: u8, remaining_len: VarByteInt) -> (h: FixedHeader)
        ensures
            h.type_and_flags == packet_type.spec_code() * 16 + flags % 16,
            h.remaining_len == remaining_len,
            valid_type_and_flags(h.type_and_flags),
    {
        FixedHeader { type_and_flags: packet_type.code() * 16 + flags % 16, remaining_len }
    }

    /// The packet type in the upper nibble.
    pub fn packet_type(&self) -> (r: Result<PacketType, Reserved>)
        ensures
            r is Ok <==> valid_type_and_flags(self.type_and_flags),
            r matches Ok(t) ==> t == type_of_code(self.type_and_flags as int / 16),
    {
        PacketType::from_type_and_flags(self.type_and_flags)
    }

    /// The flags in the lower nibble.
    pub fn flags(&self) -> (f: u8)
        ensures
            f == self.type_and_flags % 16,
    {
        self.type_and_flags % 16
    }

    /// The number of bytes that `encode` produces, between 2 and 5.
    pub fn written_len(&self) -> (n: usize)
        ensures
            n == header_wire(self.type_and_flags, self.remaining_len@).len(),
            2 <= n <= 5,
    {
        1 + self.remaining_len.written_len()
    }

    /// The header as it stands on the wire.
    pub fn encode(&self) -> (out: Vec<u8>)
        ensures
            out@ == header_wire(self.type_and_flags, self.remaining_len@),
            2 <= out@.len() <= 5,
    {
        let mut out: Vec<u8> = Vec::new();
        out.push(self.type_and_flags);
        let mut len_bytes = self.remaining_len.encode();
        out.append(&mut len_bytes);
        out
    }
}
} // verus!
