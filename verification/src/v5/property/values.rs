//! The properties whose content is more than a plain value: each maps
//! numbers with a special meaning to a setting, and refuses the numbers
//! that the protocol forbids.

use vstd::prelude::*;
use crate::config::{KeepAlive, MaximumPacketSize, ReceiveMaximum, SessionExpiryInterval};
use crate::io::err::DecodeError;
use crate::io::read::{malformed, parse_u16, parse_u32, parse_u8, Parsed, Readable};
use crate::io::reader::PacketDecoder;
use crate::io::write::{wire_u16, wire_u32, Writable};
use crate::types::qos::{qos_of_bits, QoS};
use crate::v5::property::types::PropertyType;
use crate::v5::property::Property;

verus! {
/// A failed read that took `consumed` bytes and met a value that the
/// protocol forbids.
pub open spec fn forbidden<V>(consumed: nat) -> Parsed<V> {
    Parsed { result: Err(DecodeError::ProtocolError), consumed }
}

/// The bytes of a property: its identifier and its content.
pub open spec fn property_wire(t: PropertyType, content: Seq<u8>) -> Seq<u8> {
    seq![t.spec_identifier()] + content
}

/// The keep alive that the server imposes.
#[derive(Clone, Copy, Debug, PartialEq, Eq, Structural)]
pub struct ServerKeepAlive(pub KeepAlive);

/// The alias that stands for a topic. It is never zero.
#[derive(Clone, Copy, Debug, PartialEq, Eq, Structural)]
pub struct TopicAlias(pub u16);

/// The highest quality of service that the server grants.
#[derive(Clone, Copy, Debug, PartialEq, Eq, Structural)]
pub struct MaximumQoS(pub QoS);

impl View for ServerKeepAlive {
    type V = ServerKeepAlive;

    open spec fn view(&self) -> ServerKeepAlive {
        *self
    }
}

impl View for TopicAlias {
    type V = TopicAlias;

    open spec fn view(&self) -> TopicAlias {
        *self
    }
}

impl View for MaximumQoS {
    type V = MaximumQoS;

    open spec fn view(&self) -> MaximumQoS {
        *self
    }
}

impl View for SessionExpiryInterval {
    type V = SessionExpiryInterval;

    open spec fn view(&self) -> SessionExpiryInterval {
        *self
    }
}

impl View for MaximumPacketSize {
    type V = MaximumPacketSize;

    open spec fn view(&self) -> MaximumPacketSize {
        *self
    }
}

impl View for ReceiveMaximum {
    type V = ReceiveMaximum;

    open spec fn view(&self) -> ReceiveMaximum {
        *self
    }
}

/// The number that stands for a keep alive: zero for none.
pub open spec fn keep_alive_seconds(k: KeepAlive) -> u16 {
    match k {
        KeepAlive::Infinite => 0,
        KeepAlive::Seconds(s) => s,
    }
}

/// The number that stands for a session expiry interval: zero to end with
/// the connection, the largest number to never end.
pub open spec fn session_expiry_seconds(i: SessionExpiryInterval) -> u32 {
    match i {
        SessionExpiryInterval::EndOnDisconnect => 0,
        SessionExpiryInterval::NeverEnd => u32::MAX,
        SessionExpiryInterval::Seconds(s) => s,
    }
}

impl Property for ServerKeepAlive {
    type Inner = KeepAlive;

    const TYPE: PropertyType = PropertyType::ServerKeepAlive;

    fn into_inner(self) -> (k: KeepAlive)
        ensures
            k == self.0,
    {
        self.0
    }
}

impl<'r> Readable<'r> for ServerKeepAlive {
    open spec fn parse(bytes: Seq<u8>) -> Parsed<ServerKeepAlive> {
        match parse_u16(bytes).result {
            Ok(value) => Parsed {
                result: Ok(
                    ServerKeepAlive(
                        if value == 0 {
                            KeepAlive::Infinite
                        } else {
                            KeepAlive::Seconds(value)
                        },
                    ),
                ),
                consumed: 2,
            },
            Err(_) => malformed(0),
        }
    }

    fn read(read: &mut PacketDecoder<'r>) -> (r: Result<Self, DecodeError>) {
        let value = match u16::read(read) {
            Ok(value) => value,
            Err(e) => {
                return Err(e);
            },
        };
        Ok(
            ServerKeepAlive(
                match value {
                    0 => KeepAlive::Infinite,
                    s => KeepAlive::Seconds(s),
                },
            ),
        )
    }
}

impl Writable for ServerKeepAlive {
    /// A keep alive of zero seconds is the default and is not written.
    open spec fn wire(&self) -> Seq<u8> {
        if keep_alive_seconds(self.0) == 0 {
            Seq::empty()
        } else {
            property_wire(PropertyType::ServerKeepAlive, wire_u16(keep_alive_seconds(self.0)))
        }
    }

    fn written_len(&self) -> (n: usize) {
        let value: u16 = match self.0 {
            KeepAlive::Infinite => 0,
            KeepAlive::Seconds(s) => s,
        };
        if value == 0 {
            0
        } else {
            Self::TYPE.written_len() + 2
        }
    }

    fn write(&self, out: &mut Vec<u8>) {
        let value: u16 = match self.0 {
            KeepAlive::Infinite => 0,
            KeepAlive::Seconds(s) => s,
        };
        if value != 0 {
            Self::TYPE.write(out);
            value.write(out);
        }
    }
}

impl Property for SessionExpiryInterval {
    type Inner = SessionExpiryInterval;

    const TYPE: PropertyType = PropertyType::SessionExpiryInterval;

    fn into_inner(self) -> (i: SessionExpiryInterval)
        ensures
            i == self,
    {
        self
    }
}

impl<'r> Readable<'r> for SessionExpiryInterval {
    open spec fn parse(bytes: Seq<u8>) -> Parsed<SessionExpiryInterval> {
        match parse_u32(bytes).result {
            Ok(value) => Parsed {
                result: Ok(
                    if value == 0 {
                        SessionExpiryInterval::EndOnDisconnect
                    } else if value == u32::MAX {
                        SessionExpiryInterval::NeverEnd
                    } else {
                        SessionExpiryInterval::Seconds(value)
                    },
                ),
                consumed: 4,
            },
            Err(_) => malformed(0),
        }
    }

    fn read(read: &mut PacketDecoder<'r>) -> (r: Result<Self, DecodeError>) {
        let value = match u32::read(read) {
            Ok(value) => value,
            Err(e) => {
                return Err(e);
            },
        };
        Ok(
            if value == 0 {
                SessionExpiryInterval::EndOnDisconnect
            } else if value == u32::MAX {
                SessionExpiryInterval::NeverEnd
            } else {
                SessionExpiryInterval::Seconds(value)
            },
        )
    }
}

impl Writable for SessionExpiryInterval {
    /// An interval of zero seconds is the default and is not written.
    open spec fn wire(&self) -> Seq<u8> {
        if session_expiry_seconds(*self) == 0 {
            Seq::empty()
        } else {
            property_wire(
                PropertyType::SessionExpiryInterval,
                wire_u32(session_expiry_seconds(*self)),
            )
        }
    }

    fn written_len(&self) -> (n: usize) {
        let value: u32 = match self {
            SessionExpiryInterval::EndOnDisconnect => 0,
            SessionExpiryInterval::NeverEnd => u32::MAX,
            SessionExpiryInterval::Seconds(s) => *s,
        };
        if value == 0 {
            0
        } else {
            Self::TYPE.written_len() + 4
        }
    }

    fn write(&self, out: &mut Vec<u8>) {
        let value: u32 = match self {
            SessionExpiryInterval::EndOnDisconnect => 0,
            SessionExpiryInterval::NeverEnd => u32::MAX,
            SessionExpiryInterval::Seconds(s) => *s,
        };
        if value != 0 {
            Self::TYPE.write(out);
            value.write(out);
        }
    }
}

impl Property for MaximumQoS {
    type Inner = QoS;

    const TYPE: PropertyType = PropertyType::MaximumQoS;

    fn into_inner(self) -> (q: QoS)
        ensures
            q == self.0,
    {
        self.0
    }
}

impl<'r> Readable<'r> for MaximumQoS {
    open spec fn parse(bytes: Seq<u8>) -> Parsed<MaximumQoS> {
        match parse_u8(bytes).result {
            Ok(byte) => match qos_of_bits(byte) {
                Some(qos) => Parsed { result: Ok(MaximumQoS(qos)), consumed: 1 },
                None => malformed(1),
            },
            Err(_) => malformed(0),
        }
    }

    fn read(read: &mut PacketDecoder<'r>) -> (r: Result<Self, DecodeError>) {
        let byte = match u8::read(read) {
            Ok(byte) => byte,
            Err(e) => {
                return Err(e);
            },
        };
        match QoS::try_from_bits(byte) {
            Ok(qos) => Ok(MaximumQoS(qos)),
            Err(_) => Err(DecodeError::MalformedPacket),
        }
    }
}

impl Property for TopicAlias {
    type Inner = u16;

    const TYPE: PropertyType = PropertyType::TopicAlias;

    fn into_inner(self) -> (a: u16)
        ensures
            a == self.0,
    {
        self.0
    }
}

impl<'r> Readable<'r> for TopicAlias {
    open spec fn parse(bytes: Seq<u8>) -> Parsed<TopicAlias> {
        match parse_u16(bytes).result {
            Ok(alias) => if alias == 0 {
                forbidden(2)
            } else {
                Parsed { result: Ok(TopicAlias(alias)), consumed: 2 }
            },
            Err(_) => malformed(0),
        }
    }

    fn read(read: &mut PacketDecoder<'r>) -> (r: Result<Self, DecodeError>) {
        let topic_alias = match u16::read(read) {
            Ok(value) => value,
            Err(e) => {
                return Err(e);
            },
        };
        if topic_alias == 0 {
            Err(DecodeError::ProtocolError)
        } else {
            Ok(TopicAlias(topic_alias))
        }
    }
}

impl Writable for TopicAlias {
    open spec fn wire(&self) -> Seq<u8> {
        property_wire(PropertyType::TopicAlias, wire_u16(self.0))
    }

    fn written_len(&self) -> (n: usize) {
        Self::TYPE.written_len() + 2
    }

    fn write(&self, out: &mut Vec<u8>) {
        Self::TYPE.write(out);
        self.0.write(out);
    }
}

impl Property for MaximumPacketSize {
    type Inner = MaximumPacketSize;

    const TYPE: PropertyType = PropertyType::MaximumPacketSize;

    fn into_inner(self) -> (m: MaximumPacketSize)
        ensures
            m == self,
    {
        self
    }
}

impl<'r> Readable<'r> for MaximumPacketSize {
    open spec fn parse(bytes: Seq<u8>) -> Parsed<MaximumPacketSize> {
        match parse_u32(bytes).result {
            Ok(max) => if max == 0 {
                forbidden(4)
            } else {
                Parsed { result: Ok(MaximumPacketSize::Limit(max)), consumed: 4 }
            },
            Err(_) => malformed(0),
        }
    }

    fn read(read: &mut PacketDecoder<'r>) -> (r: Result<Self, DecodeError>) {
        let max = match u32::read(read) {
            Ok(value) => value,
            Err(e) => {
                return Err(e);
            },
        };
        if max > 0 {
            Ok(MaximumPacketSize::Limit(max))
        } else {
            Err(DecodeError::ProtocolError)
        }
    }
}

impl Writable for MaximumPacketSize {
    /// No limit is the default and is not written.
    open spec fn wire(&self) -> Seq<u8> {
        match self {
            MaximumPacketSize::Unlimited => Seq::empty(),
            MaximumPacketSize::Limit(l) => property_wire(
                PropertyType::MaximumPacketSize,
                wire_u32(*l),
            ),
        }
    }

    fn written_len(&self) -> (n: usize) {
        match self {
            MaximumPacketSize::Unlimited => 0,
            MaximumPacketSize::Limit(_) => Self::TYPE.written_len() + 4,
        }
    }

    fn write(&self, out: &mut Vec<u8>) {
        if let MaximumPacketSize::Limit(l) = self {
            Self::TYPE.write(out);
            l.write(out);
        }
    }
}

impl Property for ReceiveMaximum {
    type Inner = u16;

    const TYPE: PropertyType = PropertyType::ReceiveMaximum;

    fn into_inner(self) -> (m: u16)
        ensures
            m == self.0,
    {
        self.0
    }
}

impl<'r> Readable<'r> for ReceiveMaximum {
    open spec fn parse(bytes: Seq<u8>) -> Parsed<ReceiveMaximum> {
        match parse_u16(bytes).result {
            Ok(max) => if max == 0 {
                forbidden(2)
            } else {
                Parsed { result: Ok(ReceiveMaximum(max)), consumed: 2 }
            },
            Err(_) => malformed(0),
        }
    }

    fn read(read: &mut PacketDecoder<'r>) -> (r: Result<Self, DecodeError>) {
        let max = match u16::read(read) {
            Ok(value) => value,
            Err(e) => {
                return Err(e);
            },
        };
        if max > 0 {
            Ok(ReceiveMaximum(max))
        } else {
            Err(DecodeError::ProtocolError)
        }
    }
}

impl Writable for ReceiveMaximum {
    /// The largest maximum is the default and is not written.
    open spec fn wire(&self) -> Seq<u8> {
        if self.0 == u16::MAX {
            Seq::empty()
        } else {
            property_wire(PropertyType::ReceiveMaximum, wire_u16(self.0))
        }
    }

    fn written_len(&self) -> (n: usize) {
        if self.0 == u16::MAX {
            0
        } else {
            Self::TYPE.written_len() + 2
        }
    }

    fn write(&self, out: &mut Vec<u8>) {
        if self.0 < u16::MAX {
            Self::TYPE.write(out);
            self.0.write(out);
        }
    }
}
} // verus!
