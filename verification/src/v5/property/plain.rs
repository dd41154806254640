//! The properties whose content is a plain value. Each is read as its
//! content and written as its identifier followed by its content.

use vstd::prelude::*;
use crate::io::err::DecodeError;
use crate::io::read::{
    parse_binary, parse_bool, parse_string, parse_u16, parse_u32, parse_var_byte_int, Parsed,
    Readable,
};
use crate::io::reader::PacketDecoder;
use crate::io::write::Writable;
use crate::types::binary::MqttBinary;
use crate::types::string::MqttString;
use crate::types::var_byte_int::VarByteInt;
use crate::v5::property::types::PropertyType;
use crate::v5::property::values::property_wire;
use crate::v5::property::Property;

verus! {
/// Whether the payload is text.
#[derive(Clone, Copy, Debug, PartialEq)]
pub struct PayloadFormatIndicator(pub bool);

impl View for PayloadFormatIndicator {
    type V = bool;

    open spec fn view(&self) -> bool {
        self.0@
    }
}

impl Property for PayloadFormatIndicator {
    type Inner = bool;

    const TYPE: PropertyType = PropertyType::PayloadFormatIndicator;

    fn into_inner(self) -> (inner: bool)
        ensures
            inner == self.0,
    {
        self.0
    }
}

impl<'r> Readable<'r> for PayloadFormatIndicator {
    open spec fn parse(bytes: Seq<u8>) -> Parsed<bool> {
        parse_bool(bytes)
    }

    fn read(read: &mut PacketDecoder<'r>) -> (r: Result<Self, DecodeError>) {
        match <bool as Readable<'r>>::read(read) {
            Ok(content) => Ok(PayloadFormatIndicator(content)),
            Err(e) => Err(e),
        }
    }
}

impl Writable for PayloadFormatIndicator {
    open spec fn wire(&self) -> Seq<u8> {
        property_wire(PropertyType::PayloadFormatIndicator, self.0.wire())
    }

    fn written_len(&self) -> (n: usize) {
        Self::TYPE.written_len() + self.0.written_len()
    }

    fn write(&self, out: &mut Vec<u8>) {
        Self::TYPE.write(out);
        self.0.write(out);
        assert(out@ =~= old(out)@ + self.wire());
    }
}

impl From<bool> for PayloadFormatIndicator {
    fn from(value: bool) -> (p: Self)
        ensures
            p.0 == value,
    {
        PayloadFormatIndicator(value)
    }
}

impl vstd::std_specs::convert::FromSpecImpl<bool> for PayloadFormatIndicator {
    open spec fn obeys_from_spec() -> bool {
        true
    }

    open spec fn from_spec(value: bool) -> Self {
        PayloadFormatIndicator(value)
    }
}

/// How many seconds a message stays deliverable.
#[derive(Clone, Copy, Debug, PartialEq)]
pub struct MessageExpiryInterval(pub u32);

impl View for MessageExpiryInterval {
    type V = u32;

    open spec fn view(&self) -> u32 {
        self.0@
    }
}

impl Property for MessageExpiryInterval {
    type Inner = u32;

    const TYPE: PropertyType = PropertyType::MessageExpiryInterval;

    fn into_inner(self) -> (inner: u32)
        ensures
            inner == self.0,
    {
        self.0
    }
}

impl<'r> Readable<'r> for MessageExpiryInterval {
    open spec fn parse(bytes: Seq<u8>) -> Parsed<u32> {
        parse_u32(bytes)
    }

    fn read(read: &mut PacketDecoder<'r>) -> (r: Result<Self, DecodeError>) {
        match <u32 as Readable<'r>>::read(read) {
            Ok(content) => Ok(MessageExpiryInterval(content)),
            Err(e) => Err(e),
        }
    }
}

impl Writable for MessageExpiryInterval {
    open spec fn wire(&self) -> Seq<u8> {
        property_wire(PropertyType::MessageExpiryInterval, self.0.wire())
    }

    fn written_len(&self) -> (n: usize) {
        Self::TYPE.written_len() + self.0.written_len()
    }

    fn write(&self, out: &mut Vec<u8>) {
        Self::TYPE.write(out);
        self.0.write(out);
        assert(out@ =~= old(out)@ + self.wire());
    }
}

impl From<u32> for MessageExpiryInterval {
    fn from(value: u32) -> (p: Self)
        ensures
            p.0 == value,
    {
        MessageExpiryInterval(value)
    }
}

impl vstd::std_specs::convert::FromSpecImpl<u32> for MessageExpiryInterval {
    open spec fn obeys_from_spec() -> bool {
        true
    }

    open spec fn from_spec(value: u32) -> Self {
        MessageExpiryInterval(value)
    }
}

/// What the payload holds, as the sender names it.
#[derive(Clone, Copy, Debug, PartialEq)]
pub struct ContentType<'c>(pub MqttString<'c>);

impl<'c> View for ContentType<'c> {
    type V = Seq<char>;

    open spec fn view(&self) -> Seq<char> {
        self.0@
    }
}

impl<'c> Property for ContentType<'c> {
    type Inner = MqttString<'c>;

    const TYPE: PropertyType = PropertyType::ContentType;

    fn into_inner(self) -> (inner: MqttString<'c>)
        ensures
            inner == self.0,
    {
        self.0
    }
}

impl<'c> Readable<'c> for ContentType<'c> {
    open spec fn parse(bytes: Seq<u8>) -> Parsed<Seq<char>> {
        parse_string(bytes)
    }

    fn read(read: &mut PacketDecoder<'c>) -> (r: Result<Self, DecodeError>) {
        match <MqttString<'c> as Readable<'c>>::read(read) {
            Ok(content) => Ok(ContentType(content)),
            Err(e) => Err(e),
        }
    }
}

impl<'c> Writable for ContentType<'c> {
    open spec fn wire(&self) -> Seq<u8> {
        property_wire(PropertyType::ContentType, self.0.wire())
    }

    fn written_len(&self) -> (n: usize) {
        Self::TYPE.written_len() + self.0.written_len()
    }

    fn write(&self, out: &mut Vec<u8>) {
        Self::TYPE.write(out);
        self.0.write(out);
        assert(out@ =~= old(out)@ + self.wire());
    }
}

impl<'c> From<MqttString<'c>> for ContentType<'c> {
    fn from(value: MqttString<'c>) -> (p: Self)
        ensures
            p.0 == value,
    {
        ContentType(value)
    }
}

impl<'c> vstd::std_specs::convert::FromSpecImpl<MqttString<'c>> for ContentType<'c> {
    open spec fn obeys_from_spec() -> bool {
        true
    }

    open spec fn from_spec(value: MqttString<'c>) -> Self {
        ContentType(value)
    }
}

/// The topic that a response goes to.
#[derive(Clone, Copy, Debug, PartialEq)]
pub struct ResponseTopic<'c>(pub MqttString<'c>);

impl<'c> View for ResponseTopic<'c> {
    type V = Seq<char>;

    open spec fn view(&self) -> Seq<char> {
        self.0@
    }
}

impl<'c> Property for ResponseTopic<'c> {
    type Inner = MqttString<'c>;

    const TYPE: PropertyType = PropertyType::ResponseTopic;

    fn into_inner(self) -> (inner: MqttString<'c>)
        ensures
            inner == self.0,
    {
        self.0
    }
}

impl<'c> Readable<'c> for ResponseTopic<'c> {
    open spec fn parse(bytes: Seq<u8>) -> Parsed<Seq<char>> {
        parse_string(bytes)
    }

    fn read(read: &mut PacketDecoder<'c>) -> (r: Result<Self, DecodeError>) {
        match <MqttString<'c> as Readable<'c>>::read(read) {
            Ok(content) => Ok(ResponseTopic(content)),
            Err(e) => Err(e),
        }
    }
}

impl<'c> Writable for ResponseTopic<'c> {
    open spec fn wire(&self) -> Seq<u8> {
        property_wire(PropertyType::ResponseTopic, self.0.wire())
    }

    fn written_len(&self) -> (n: usize) {
        Self::TYPE.written_len() + self.0.written_len()
    }

    fn write(&self, out: &mut Vec<u8>) {
        Self::TYPE.write(out);
        self.0.write(out);
        assert(out@ =~= old(out)@ + self.wire());
    }
}

impl<'c> From<MqttString<'c>> for ResponseTopic<'c> {
    fn from(value: MqttString<'c>) -> (p: Self)
        ensures
            p.0 == value,
    {
        ResponseTopic(value)
    }
}

impl<'c> vstd::std_specs::convert::FromSpecImpl<MqttString<'c>> for ResponseTopic<'c> {
    open spec fn obeys_from_spec() -> bool {
        true
    }

    open spec fn from_spec(value: MqttString<'c>) -> Self {
        ResponseTopic(value)
    }
}

/// Data that ties a response to its request.
#[derive(Clone, Copy, Debug, PartialEq)]
pub struct CorrelationData<'c>(pub MqttBinary<'c>);

impl<'c> View for CorrelationData<'c> {
    type V = Seq<u8>;

    open spec fn view(&self) -> Seq<u8> {
        self.0@
    }
}

impl<'c> Property for CorrelationData<'c> {
    type Inner = MqttBinary<'c>;

    const TYPE: PropertyType = PropertyType::CorrelationData;

    fn into_inner(self) -> (inner: MqttBinary<'c>)
        ensures
            inner == self.0,
    {
        self.0
    }
}

impl<'c> Readable<'c> for CorrelationData<'c> {
    open spec fn parse(bytes: Seq<u8>) -> Parsed<Seq<u8>> {
        parse_binary(bytes)
    }

    fn read(read: &mut PacketDecoder<'c>) -> (r: Result<Self, DecodeError>) {
        match <MqttBinary<'c> as Readable<'c>>::read(read) {
            Ok(content) => Ok(CorrelationData(content)),
            Err(e) => Err(e),
        }
    }
}

impl<'c> Writable for CorrelationData<'c> {
    open spec fn wire(&self) -> Seq<u8> {
        property_wire(PropertyType::CorrelationData, self.0.wire())
    }

    fn written_len(&self) -> (n: usize) {
        Self::TYPE.written_len() + self.0.written_len()
    }

    fn write(&self, out: &mut Vec<u8>) {
        Self::TYPE.write(out);
        self.0.write(out);
        assert(out@ =~= old(out)@ + self.wire());
    }
}

impl<'c> From<MqttBinary<'c>> for CorrelationData<'c> {
    fn from(value: MqttBinary<'c>) -> (p: Self)
        ensures
            p.0 == value,
    {
        CorrelationData(value)
    }
}

impl<'c> vstd::std_specs::convert::FromSpecImpl<MqttBinary<'c>> for CorrelationData<'c> {
    open spec fn obeys_from_spec() -> bool {
        true
    }

    open spec fn from_spec(value: MqttBinary<'c>) -> Self {
        CorrelationData(value)
    }
}

/// The number of the subscription that matched.
#[derive(Clone, Copy, Debug, PartialEq)]
pub struct SubscriptionIdentifier(pub VarByteInt);

impl View for SubscriptionIdentifier {
    type V = nat;

    open spec fn view(&self) -> nat {
        self.0@
    }
}

impl Property for SubscriptionIdentifier {
    type Inner = VarByteInt;

    const TYPE: PropertyType = PropertyType::SubscriptionIdentifier;

    fn into_inner(self) -> (inner: VarByteInt)
        ensures
            inner == self.0,
    {
        self.0
    }
}

impl<'r> Readable<'r> for SubscriptionIdentifier {
    open spec fn parse(bytes: Seq<u8>) -> Parsed<nat> {
        parse_var_byte_int(bytes)
    }

    fn read(read: &mut PacketDecoder<'r>) -> (r: Result<Self, DecodeError>) {
        match <VarByteInt as Readable<'r>>::read(read) {
            Ok(content) => Ok(SubscriptionIdentifier(content)),
            Err(e) => Err(e),
        }
    }
}

impl Writable for SubscriptionIdentifier {
    open spec fn wire(&self) -> Seq<u8> {
        property_wire(PropertyType::SubscriptionIdentifier, self.0.wire())
    }

    fn written_len(&self) -> (n: usize) {
        Self::TYPE.written_len() + self.0.written_len()
    }

    fn write(&self, out: &mut Vec<u8>) {
        Self::TYPE.write(out);
        self.0.write(out);
        assert(out@ =~= old(out)@ + self.wire());
    }
}

impl From<VarByteInt> for SubscriptionIdentifier {
    fn from(value: VarByteInt) -> (p: Self)
        ensures
            p.0 == value,
    {
        SubscriptionIdentifier(value)
    }
}

impl vstd::std_specs::convert::FromSpecImpl<VarByteInt> for SubscriptionIdentifier {
    open spec fn obeys_from_spec() -> bool {
        true
    }

    open spec fn from_spec(value: VarByteInt) -> Self {
        SubscriptionIdentifier(value)
    }
}

/// The identifier that the server chose for the client.
#[derive(Clone, Copy, Debug, PartialEq)]
pub struct AssignedClientIdentifier<'c>(pub MqttString<'c>);

impl<'c> View for AssignedClientIdentifier<'c> {
    type V = Seq<char>;

    open spec fn view(&self) -> Seq<char> {
        self.0@
    }
}

impl<'c> Property for AssignedClientIdentifier<'c> {
    type Inner = MqttString<'c>;

    const TYPE: PropertyType = PropertyType::AssignedClientIdentifier;

    fn into_inner(self) -> (inner: MqttString<'c>)
        ensures
            inner == self.0,
    {
        self.0
    }
}

impl<'c> Readable<'c> for AssignedClientIdentifier<'c> {
    open spec fn parse(bytes: Seq<u8>) -> Parsed<Seq<char>> {
        parse_string(bytes)
    }

    fn read(read: &mut PacketDecoder<'c>) -> (r: Result<Self, DecodeError>) {
        match <MqttString<'c> as Readable<'c>>::read(read) {
            Ok(content) => Ok(AssignedClientIdentifier(content)),
            Err(e) => Err(e),
        }
    }
}

impl<'c> Writable for AssignedClientIdentifier<'c> {
    open spec fn wire(&self) -> Seq<u8> {
        property_wire(PropertyType::AssignedClientIdentifier, self.0.wire())
    }

    fn written_len(&self) -> (n: usize) {
        Self::TYPE.written_len() + self.0.written_len()
    }

    fn write(&self, out: &mut Vec<u8>) {
        Self::TYPE.write(out);
        self.0.write(out);
        assert(out@ =~= old(out)@ + self.wire());
    }
}

impl<'c> From<MqttString<'c>> for AssignedClientIdentifier<'c> {
    fn from(value: MqttString<'c>) -> (p: Self)
        ensures
            p.0 == value,
    {
        AssignedClientIdentifier(value)
    }
}

impl<'c> vstd::std_specs::convert::FromSpecImpl<MqttString<'c>> for AssignedClientIdentifier<'c> {
    open spec fn obeys_from_spec() -> bool {
        true
    }

    open spec fn from_spec(value: MqttString<'c>) -> Self {
        AssignedClientIdentifier(value)
    }
}

/// The name of the authentication method.
#[derive(Clone, Copy, Debug, PartialEq)]
pub struct AuthenticationMethod<'c>(pub MqttString<'c>);

impl<'c> View for AuthenticationMethod<'c> {
    type V = Seq<char>;

    open spec fn view(&self) -> Seq<char> {
        self.0@
    }
}

impl<'c> Property for AuthenticationMethod<'c> {
    type Inner = MqttString<'c>;

    const TYPE: PropertyType = PropertyType::AuthenticationMethod;

    fn into_inner(self) -> (inner: MqttString<'c>)
        ensures
            inner == self.0,
    {
        self.0
    }
}

impl<'c> Readable<'c> for AuthenticationMethod<'c> {
    open spec fn parse(bytes: Seq<u8>) -> Parsed<Seq<char>> {
        parse_string(bytes)
    }

    fn read(read: &mut PacketDecoder<'c>) -> (r: Result<Self, DecodeError>) {
        match <MqttString<'c> as Readable<'c>>::read(read) {
            Ok(content) => Ok(AuthenticationMethod(content)),
            Err(e) => Err(e),
        }
    }
}

impl<'c> Writable for AuthenticationMethod<'c> {
    open spec fn wire(&self) -> Seq<u8> {
        property_wire(PropertyType::AuthenticationMethod, self.0.wire())
    }

    fn written_len(&self) -> (n: usize) {
        Self::TYPE.written_len() + self.0.written_len()
    }

    fn write(&self, out: &mut Vec<u8>) {
        Self::TYPE.write(out);
        self.0.write(out);
        assert(out@ =~= old(out)@ + self.wire());
    }
}

impl<'c> From<MqttString<'c>> for AuthenticationMethod<'c> {
    fn from(value: MqttString<'c>) -> (p: Self)
        ensures
            p.0 == value,
    {
        AuthenticationMethod(value)
    }
}

impl<'c> vstd::std_specs::convert::FromSpecImpl<MqttString<'c>> for AuthenticationMethod<'c> {
    open spec fn obeys_from_spec() -> bool {
        true
    }

    open spec fn from_spec(value: MqttString<'c>) -> Self {
        AuthenticationMethod(value)
    }
}

/// Data of the authentication method.
#[derive(Clone, Copy, Debug, PartialEq)]
pub struct AuthenticationData<'c>(pub MqttBinary<'c>);

impl<'c> View for AuthenticationData<'c> {
    type V = Seq<u8>;

    open spec fn view(&self) -> Seq<u8> {
        self.0@
    }
}

impl<'c> Property for AuthenticationData<'c> {
    type Inner = MqttBinary<'c>;

    const TYPE: PropertyType = PropertyType::AuthenticationData;

    fn into_inner(self) -> (inner: MqttBinary<'c>)
        ensures
            inner == self.0,
    {
        self.0
    }
}

impl<'c> Readable<'c> for AuthenticationData<'c> {
    open spec fn parse(bytes: Seq<u8>) -> Parsed<Seq<u8>> {
        parse_binary(bytes)
    }

    fn read(read: &mut PacketDecoder<'c>) -> (r: Result<Self, DecodeError>) {
        match <MqttBinary<'c> as Readable<'c>>::read(read) {
            Ok(content) => Ok(AuthenticationData(content)),
            Err(e) => Err(e),
        }
    }
}

impl<'c> Writable for AuthenticationData<'c> {
    open spec fn wire(&self) -> Seq<u8> {
        property_wire(PropertyType::AuthenticationData, self.0.wire())
    }

    fn written_len(&self) -> (n: usize) {
        Self::TYPE.written_len() + self.0.written_len()
    }

    fn write(&self, out: &mut Vec<u8>) {
        Self::TYPE.write(out);
        self.0.write(out);
        assert(out@ =~= old(out)@ + self.wire());
    }
}

impl<'c> From<MqttBinary<'c>> for AuthenticationData<'c> {
    fn from(value: MqttBinary<'c>) -> (p: Self)
        ensures
            p.0 == value,
    {
        AuthenticationData(value)
    }
}

impl<'c> vstd::std_specs::convert::FromSpecImpl<MqttBinary<'c>> for AuthenticationData<'c> {
    open spec fn obeys_from_spec() -> bool {
        true
    }

    open spec fn from_spec(value: MqttBinary<'c>) -> Self {
        AuthenticationData(value)
    }
}

/// Whether reason strings and user properties are wanted on failures.
#[derive(Clone, Copy, Debug, PartialEq)]
pub struct RequestProblemInformation(pub bool);

impl View for RequestProblemInformation {
    type V = bool;

    open spec fn view(&self) -> bool {
        self.0@
    }
}

impl Property for RequestProblemInformation {
    type Inner = bool;

    const TYPE: PropertyType = PropertyType::RequestProblemInformation;

    fn into_inner(self) -> (inner: bool)
        ensures
            inner == self.0,
    {
        self.0
    }
}

impl<'r> Readable<'r> for RequestProblemInformation {
    open spec fn parse(bytes: Seq<u8>) -> Parsed<bool> {
        parse_bool(bytes)
    }

    fn read(read: &mut PacketDecoder<'r>) -> (r: Result<Self, DecodeError>) {
        match <bool as Readable<'r>>::read(read) {
            Ok(content) => Ok(RequestProblemInformation(content)),
            Err(e) => Err(e),
        }
    }
}

impl Writable for RequestProblemInformation {
    open spec fn wire(&self) -> Seq<u8> {
        property_wire(PropertyType::RequestProblemInformation, self.0.wire())
    }

    fn written_len(&self) -> (n: usize) {
        Self::TYPE.written_len() + self.0.written_len()
    }

    fn write(&self, out: &mut Vec<u8>) {
        Self::TYPE.write(out);
        self.0.write(out);
        assert(out@ =~= old(out)@ + self.wire());
    }
}

impl From<bool> for RequestProblemInformation {
    fn from(value: bool) -> (p: Self)
        ensures
            p.0 == value,
    {
        RequestProblemInformation(value)
    }
}

impl vstd::std_specs::convert::FromSpecImpl<bool> for RequestProblemInformation {
    open spec fn obeys_from_spec() -> bool {
        true
    }

    open spec fn from_spec(value: bool) -> Self {
        RequestProblemInformation(value)
    }
}

/// How many seconds the will message waits.
#[derive(Clone, Copy, Debug, PartialEq)]
pub struct WillDelayInterval(pub u32);

impl View for WillDelayInterval {
    type V = u32;

    open spec fn view(&self) -> u32 {
        self.0@
    }
}

impl Property for WillDelayInterval {
    type Inner = u32;

    const TYPE: PropertyType = PropertyType::WillDelayInterval;

    fn into_inner(self) -> (inner: u32)
        ensures
            inner == self.0,
    {
        self.0
    }
}

impl<'r> Readable<'r> for WillDelayInterval {
    open spec fn parse(bytes: Seq<u8>) -> Parsed<u32> {
        parse_u32(bytes)
    }

    fn read(read: &mut PacketDecoder<'r>) -> (r: Result<Self, DecodeError>) {
        match <u32 as Readable<'r>>::read(read) {
            Ok(content) => Ok(WillDelayInterval(content)),
            Err(e) => Err(e),
        }
    }
}

impl Writable for WillDelayInterval {
    open spec fn wire(&self) -> Seq<u8> {
        property_wire(PropertyType::WillDelayInterval, self.0.wire())
    }

    fn written_len(&self) -> (n: usize) {
        Self::TYPE.written_len() + self.0.written_len()
    }

    fn write(&self, out: &mut Vec<u8>) {
        Self::TYPE.write(out);
        self.0.write(out);
        assert(out@ =~= old(out)@ + self.wire());
    }
}

impl From<u32> for WillDelayInterval {
    fn from(value: u32) -> (p: Self)
        ensures
            p.0 == value,
    {
        WillDelayInterval(value)
    }
}

impl vstd::std_specs::convert::FromSpecImpl<u32> for WillDelayInterval {
    open spec fn obeys_from_spec() -> bool {
        true
    }

    open spec fn from_spec(value: u32) -> Self {
        WillDelayInterval(value)
    }
}

/// Whether response information is wanted.
#[derive(Clone, Copy, Debug, PartialEq)]
pub struct RequestResponseInformation(pub bool);

impl View for RequestResponseInformation {
    type V = bool;

    open spec fn view(&self) -> bool {
        self.0@
    }
}

impl Property for RequestResponseInformation {
    type Inner = bool;

    const TYPE: PropertyType = PropertyType::RequestResponseInformation;

    fn into_inner(self) -> (inner: bool)
        ensures
            inner == self.0,
    {
        self.0
    }
}

impl<'r> Readable<'r> for RequestResponseInformation {
    open spec fn parse(bytes: Seq<u8>) -> Parsed<bool> {
        parse_bool(bytes)
    }

    fn read(read: &mut PacketDecoder<'r>) -> (r: Result<Self, DecodeError>) {
        match <bool as Readable<'r>>::read(read) {
            Ok(content) => Ok(RequestResponseInformation(content)),
            Err(e) => Err(e),
        }
    }
}

impl Writable for RequestResponseInformation {
    open spec fn wire(&self) -> Seq<u8> {
        property_wire(PropertyType::RequestResponseInformation, self.0.wire())
    }

    fn written_len(&self) -> (n: usize) {
        Self::TYPE.written_len() + self.0.written_len()
    }

    fn write(&self, out: &mut Vec<u8>) {
        Self::TYPE.write(out);
        self.0.write(out);
        assert(out@ =~= old(out)@ + self.wire());
    }
}

impl From<bool> for RequestResponseInformation {
    fn from(value: bool) -> (p: Self)
        ensures
            p.0 == value,
    {
        RequestResponseInformation(value)
    }
}

impl vstd::std_specs::convert::FromSpecImpl<bool> for RequestResponseInformation {
    open spec fn obeys_from_spec() -> bool {
        true
    }

    open spec fn from_spec(value: bool) -> Self {
        RequestResponseInformation(value)
    }
}

/// What the client builds response topics from.
#[derive(Clone, Copy, Debug, PartialEq)]
pub struct ResponseInformation<'c>(pub MqttString<'c>);

impl<'c> View for ResponseInformation<'c> {
    type V = Seq<char>;

    open spec fn view(&self) -> Seq<char> {
        self.0@
    }
}

impl<'c> Property for ResponseInformation<'c> {
    type Inner = MqttString<'c>;

    const TYPE: PropertyType = PropertyType::ResponseInformation;

    fn into_inner(self) -> (inner: MqttString<'c>)
        ensures
            inner == self.0,
    {
        self.0
    }
}

impl<'c> Readable<'c> for ResponseInformation<'c> {
    open spec fn parse(bytes: Seq<u8>) -> Parsed<Seq<char>> {
        parse_string(bytes)
    }

    fn read(read: &mut PacketDecoder<'c>) -> (r: Result<Self, DecodeError>) {
        match <MqttString<'c> as Readable<'c>>::read(read) {
            Ok(content) => Ok(ResponseInformation(content)),
            Err(e) => Err(e),
        }
    }
}

impl<'c> Writable for ResponseInformation<'c> {
    open spec fn wire(&self) -> Seq<u8> {
        property_wire(PropertyType::ResponseInformation, self.0.wire())
    }

    fn written_len(&self) -> (n: usize) {
        Self::TYPE.written_len() + self.0.written_len()
    }

    fn write(&self, out: &mut Vec<u8>) {
        Self::TYPE.write(out);
        self.0.write(out);
        assert(out@ =~= old(out)@ + self.wire());
    }
}

impl<'c> From<MqttString<'c>> for ResponseInformation<'c> {
    fn from(value: MqttString<'c>) -> (p: Self)
        ensures
            p.0 == value,
    {
        ResponseInformation(value)
    }
}

impl<'c> vstd::std_specs::convert::FromSpecImpl<MqttString<'c>> for ResponseInformation<'c> {
    open spec fn obeys_from_spec() -> bool {
        true
    }

    open spec fn from_spec(value: MqttString<'c>) -> Self {
        ResponseInformation(value)
    }
}

/// Another server to use.
#[derive(Clone, Copy, Debug, PartialEq)]
pub struct ServerReference<'c>(pub MqttString<'c>);

impl<'c> View for ServerReference<'c> {
    type V = Seq<char>;

    open spec fn view(&self) -> Seq<char> {
        self.0@
    }
}

impl<'c> Property for ServerReference<'c> {
    type Inner = MqttString<'c>;

    const TYPE: PropertyType = PropertyType::ServerReference;

    fn into_inner(self) -> (inner: MqttString<'c>)
        ensures
            inner == self.0,
    {
        self.0
    }
}

impl<'c> Readable<'c> for ServerReference<'c> {
    open spec fn parse(bytes: Seq<u8>) -> Parsed<Seq<char>> {
        parse_string(bytes)
    }

    fn read(read: &mut PacketDecoder<'c>) -> (r: Result<Self, DecodeError>) {
        match <MqttString<'c> as Readable<'c>>::read(read) {
            Ok(content) => Ok(ServerReference(content)),
            Err(e) => Err(e),
        }
    }
}

impl<'c> Writable for ServerReference<'c> {
    open spec fn wire(&self) -> Seq<u8> {
        property_wire(PropertyType::ServerReference, self.0.wire())
    }

    fn written_len(&self) -> (n: usize) {
        Self::TYPE.written_len() + self.0.written_len()
    }

    fn write(&self, out: &mut Vec<u8>) {
        Self::TYPE.write(out);
        self.0.write(out);
        assert(out@ =~= old(out)@ + self.wire());
    }
}

impl<'c> From<MqttString<'c>> for ServerReference<'c> {
    fn from(value: MqttString<'c>) -> (p: Self)
        ensures
            p.0 == value,
    {
        ServerReference(value)
    }
}

impl<'c> vstd::std_specs::convert::FromSpecImpl<MqttString<'c>> for ServerReference<'c> {
    open spec fn obeys_from_spec() -> bool {
        true
    }

    open spec fn from_spec(value: MqttString<'c>) -> Self {
        ServerReference(value)
    }
}

/// A reason in words, for people.
#[derive(Clone, Copy, Debug, PartialEq)]
pub struct ReasonString<'c>(pub MqttString<'c>);

impl<'c> View for ReasonString<'c> {
    type V = Seq<char>;

    open spec fn view(&self) -> Seq<char> {
        self.0@
    }
}

impl<'c> Property for ReasonString<'c> {
    type Inner = MqttString<'c>;

    const TYPE: PropertyType = PropertyType::ReasonString;

    fn into_inner(self) -> (inner: MqttString<'c>)
        ensures
            inner == self.0,
    {
        self.0
    }
}

impl<'c> Readable<'c> for ReasonString<'c> {
    open spec fn parse(bytes: Seq<u8>) -> Parsed<Seq<char>> {
        parse_string(bytes)
    }

    fn read(read: &mut PacketDecoder<'c>) -> (r: Result<Self, DecodeError>) {
        match <MqttString<'c> as Readable<'c>>::read(read) {
            Ok(content) => Ok(ReasonString(content)),
            Err(e) => Err(e),
        }
    }
}

impl<'c> Writable for ReasonString<'c> {
    open spec fn wire(&self) -> Seq<u8> {
        property_wire(PropertyType::ReasonString, self.0.wire())
    }

    fn written_len(&self) -> (n: usize) {
        Self::TYPE.written_len() + self.0.written_len()
    }

    fn write(&self, out: &mut Vec<u8>) {
        Self::TYPE.write(out);
        self.0.write(out);
        assert(out@ =~= old(out)@ + self.wire());
    }
}

impl<'c> From<MqttString<'c>> for ReasonString<'c> {
    fn from(value: MqttString<'c>) -> (p: Self)
        ensures
            p.0 == value,
    {
        ReasonString(value)
    }
}

impl<'c> vstd::std_specs::convert::FromSpecImpl<MqttString<'c>> for ReasonString<'c> {
    open spec fn obeys_from_spec() -> bool {
        true
    }

    open spec fn from_spec(value: MqttString<'c>) -> Self {
        ReasonString(value)
    }
}

/// The highest topic alias that a side accepts.
#[derive(Clone, Copy, Debug, PartialEq)]
pub struct TopicAliasMaximum(pub u16);

impl View for TopicAliasMaximum {
    type V = u16;

    open spec fn view(&self) -> u16 {
        self.0@
    }
}

impl Property for TopicAliasMaximum {
    type Inner = u16;

    const TYPE: PropertyType = PropertyType::TopicAliasMaximum;

    fn into_inner(self) -> (inner: u16)
        ensures
            inner == self.0,
    {
        self.0
    }
}

impl<'r> Readable<'r> for TopicAliasMaximum {
    open spec fn parse(bytes: Seq<u8>) -> Parsed<u16> {
        parse_u16(bytes)
    }

    fn read(read: &mut PacketDecoder<'r>) -> (r: Result<Self, DecodeError>) {
        match <u16 as Readable<'r>>::read(read) {
            Ok(content) => Ok(TopicAliasMaximum(content)),
            Err(e) => Err(e),
        }
    }
}

impl Writable for TopicAliasMaximum {
    open spec fn wire(&self) -> Seq<u8> {
        property_wire(PropertyType::TopicAliasMaximum, self.0.wire())
    }

    fn written_len(&self) -> (n: usize) {
        Self::TYPE.written_len() + self.0.written_len()
    }

    fn write(&self, out: &mut Vec<u8>) {
        Self::TYPE.write(out);
        self.0.write(out);
        assert(out@ =~= old(out)@ + self.wire());
    }
}

impl From<u16> for TopicAliasMaximum {
    fn from(value: u16) -> (p: Self)
        ensures
            p.0 == value,
    {
        TopicAliasMaximum(value)
    }
}

impl vstd::std_specs::convert::FromSpecImpl<u16> for TopicAliasMaximum {
    open spec fn obeys_from_spec() -> bool {
        true
    }

    open spec fn from_spec(value: u16) -> Self {
        TopicAliasMaximum(value)
    }
}

/// Whether the server retains messages.
#[derive(Clone, Copy, Debug, PartialEq)]
pub struct RetainAvailable(pub bool);

impl View for RetainAvailable {
    type V = bool;

    open spec fn view(&self) -> bool {
        self.0@
    }
}

impl Property for RetainAvailable {
    type Inner = bool;

    const TYPE: PropertyType = PropertyType::RetainAvailable;

    fn into_inner(self) -> (inner: bool)
        ensures
            inner == self.0,
    {
        self.0
    }
}

impl<'r> Readable<'r> for RetainAvailable {
    open spec fn parse(bytes: Seq<u8>) -> Parsed<bool> {
        parse_bool(bytes)
    }

    fn read(read: &mut PacketDecoder<'r>) -> (r: Result<Self, DecodeError>) {
        match <bool as Readable<'r>>::read(read) {
            Ok(content) => Ok(RetainAvailable(content)),
            Err(e) => Err(e),
        }
    }
}

impl Writable for RetainAvailable {
    open spec fn wire(&self) -> Seq<u8> {
        property_wire(PropertyType::RetainAvailable, self.0.wire())
    }

    fn written_len(&self) -> (n: usize) {
        Self::TYPE.written_len() + self.0.written_len()
    }

    fn write(&self, out: &mut Vec<u8>) {
        Self::TYPE.write(out);
        self.0.write(out);
        assert(out@ =~= old(out)@ + self.wire());
    }
}

impl From<bool> for RetainAvailable {
    fn from(value: bool) -> (p: Self)
        ensures
            p.0 == value,
    {
        RetainAvailable(value)
    }
}

impl vstd::std_specs::convert::FromSpecImpl<bool> for RetainAvailable {
    open spec fn obeys_from_spec() -> bool {
        true
    }

    open spec fn from_spec(value: bool) -> Self {
        RetainAvailable(value)
    }
}

/// Whether the server takes wildcard subscriptions.
#[derive(Clone, Copy, Debug, PartialEq)]
pub struct WildcardSubscriptionAvailable(pub bool);

impl View for WildcardSubscriptionAvailable {
    type V = bool;

    open spec fn view(&self) -> bool {
        self.0@
    }
}

impl Property for WildcardSubscriptionAvailable {
    type Inner = bool;

    const TYPE: PropertyType = PropertyType::WildcardSubscriptionAvailable;

    fn into_inner(self) -> (inner: bool)
        ensures
            inner == self.0,
    {
        self.0
    }
}

impl<'r> Readable<'r> for WildcardSubscriptionAvailable {
    open spec fn parse(bytes: Seq<u8>) -> Parsed<bool> {
        parse_bool(bytes)
    }

    fn read(read: &mut PacketDecoder<'r>) -> (r: Result<Self, DecodeError>) {
        match <bool as Readable<'r>>::read(read) {
            Ok(content) => Ok(WildcardSubscriptionAvailable(content)),
            Err(e) => Err(e),
        }
    }
}

impl Writable for WildcardSubscriptionAvailable {
    open spec fn wire(&self) -> Seq<u8> {
        property_wire(PropertyType::WildcardSubscriptionAvailable, self.0.wire())
    }

    fn written_len(&self) -> (n: usize) {
        Self::TYPE.written_len() + self.0.written_len()
    }

    fn write(&self, out: &mut Vec<u8>) {
        Self::TYPE.write(out);
        self.0.write(out);
        assert(out@ =~= old(out)@ + self.wire());
    }
}

impl From<bool> for WildcardSubscriptionAvailable {
    fn from(value: bool) -> (p: Self)
        ensures
            p.0 == value,
    {
        WildcardSubscriptionAvailable(value)
    }
}

impl vstd::std_specs::convert::FromSpecImpl<bool> for WildcardSubscriptionAvailable {
    open spec fn obeys_from_spec() -> bool {
        true
    }

    open spec fn from_spec(value: bool) -> Self {
        WildcardSubscriptionAvailable(value)
    }
}

/// Whether the server takes subscription identifiers.
#[derive(Clone, Copy, Debug, PartialEq)]
pub struct SubscriptionIdentifierAvailable(pub bool);

impl View for SubscriptionIdentifierAvailable {
    type V = bool;

    open spec fn view(&self) -> bool {
        self.0@
    }
}

impl Property for SubscriptionIdentifierAvailable {
    type Inner = bool;

    const TYPE: PropertyType = PropertyType::SubscriptionIdentifierAvailable;

    fn into_inner(self) -> (inner: bool)
        ensures
            inner == self.0,
    {
        self.0
    }
}

impl<'r> Readable<'r> for SubscriptionIdentifierAvailable {
    open spec fn parse(bytes: Seq<u8>) -> Parsed<bool> {
        parse_bool(bytes)
    }

    fn read(read: &mut PacketDecoder<'r>) -> (r: Result<Self, DecodeError>) {
        match <bool as Readable<'r>>::read(read) {
            Ok(content) => Ok(SubscriptionIdentifierAvailable(content)),
            Err(e) => Err(e),
        }
    }
}

impl Writable for SubscriptionIdentifierAvailable {
    open spec fn wire(&self) -> Seq<u8> {
        property_wire(PropertyType::SubscriptionIdentifierAvailable, self.0.wire())
    }

    fn written_len(&self) -> (n: usize) {
        Self::TYPE.written_len() + self.0.written_len()
    }

    fn write(&self, out: &mut Vec<u8>) {
        Self::TYPE.write(out);
        self.0.write(out);
        assert(out@ =~= old(out)@ + self.wire());
    }
}

impl From<bool> for SubscriptionIdentifierAvailable {
    fn from(value: bool) -> (p: Self)
        ensures
            p.0 == value,
    {
        SubscriptionIdentifierAvailable(value)
    }
}

impl vstd::std_specs::convert::FromSpecImpl<bool> for SubscriptionIdentifierAvailable {
    open spec fn obeys_from_spec() -> bool {
        true
    }

    open spec fn from_spec(value: bool) -> Self {
        SubscriptionIdentifierAvailable(value)
    }
}

/// Whether the server takes shared subscriptions.
#[derive(Clone, Copy, Debug, PartialEq)]
pub struct SharedSubscriptionAvailable(pub bool);

impl View for SharedSubscriptionAvailable {
    type V = bool;

    open spec fn view(&self) -> bool {
        self.0@
    }
}

impl Property for SharedSubscriptionAvailable {
    type Inner = bool;

    const TYPE: PropertyType = PropertyType::SharedSubscriptionAvailable;

    fn into_inner(self) -> (inner: bool)
        ensures
            inner == self.0,
    {
        self.0
    }
}

impl<'r> Readable<'r> for SharedSubscriptionAvailable {
    open spec fn parse(bytes: Seq<u8>) -> Parsed<bool> {
        parse_bool(bytes)
    }

    fn read(read: &mut PacketDecoder<'r>) -> (r: Result<Self, DecodeError>) {
        match <bool as Readable<'r>>::read(read) {
            Ok(content) => Ok(SharedSubscriptionAvailable(content)),
            Err(e) => Err(e),
        }
    }
}

impl Writable for SharedSubscriptionAvailable {
    open spec fn wire(&self) -> Seq<u8> {
        property_wire(PropertyType::SharedSubscriptionAvailable, self.0.wire())
    }

    fn written_len(&self) -> (n: usize) {
        Self::TYPE.written_len() + self.0.written_len()
    }

    fn write(&self, out: &mut Vec<u8>) {
        Self::TYPE.write(out);
        self.0.write(out);
        assert(out@ =~= old(out)@ + self.wire());
    }
}

impl From<bool> for SharedSubscriptionAvailable {
    fn from(value: bool) -> (p: Self)
        ensures
            p.0 == value,
    {
        SharedSubscriptionAvailable(value)
    }
}

impl vstd::std_specs::convert::FromSpecImpl<bool> for SharedSubscriptionAvailable {
    open spec fn obeys_from_spec() -> bool {
        true
    }

    open spec fn from_spec(value: bool) -> Self {
        SharedSubscriptionAvailable(value)
    }
}
} // verus!
