//! The identifiers of the properties.

use vstd::prelude::*;
use crate::io::write::Writable;

verus! {
/// The kind of a property, which its identifier tells on the wire.
#[derive(Clone, Copy, Debug, PartialEq, Eq, Structural)]
pub enum PropertyType {
    PayloadFormatIndicator,
    MessageExpiryInterval,
    ContentType,
    ResponseTopic,
    CorrelationData,
    SubscriptionIdentifier,
    SessionExpiryInterval,
    AssignedClientIdentifier,
    ServerKeepAlive,
    AuthenticationMethod,
    AuthenticationData,
    RequestProblemInformation,
    WillDelayInterval,
    RequestResponseInformation,
    ResponseInformation,
    ServerReference,
    ReasonString,
    ReceiveMaximum,
    TopicAliasMaximum,
    TopicAlias,
    MaximumQoS,
    RetainAvailable,
    UserProperty,
    MaximumPacketSize,
    WildcardSubscriptionAvailable,
    SubscriptionIdentifierAvailable,
    SharedSubscriptionAvailable,
}

impl PropertyType {
    /// The identifier of the kind. Each fits one byte of a variable byte
    /// integer.
    pub open spec fn spec_identifier(self) -> u8 {
        match self {
            PropertyType::PayloadFormatIndicator => 0x01,
            PropertyType::MessageExpiryInterval => 0x02,
            PropertyType::ContentType => 0x03,
            PropertyType::ResponseTopic => 0x08,
            PropertyType::CorrelationData => 0x09,
            PropertyType::SubscriptionIdentifier => 0x0B,
            PropertyType::SessionExpiryInterval => 0x11,
            PropertyType::AssignedClientIdentifier => 0x12,
            PropertyType::ServerKeepAlive => 0x13,
            PropertyType::AuthenticationMethod => 0x15,
            PropertyType::AuthenticationData => 0x16,
            PropertyType::RequestProblemInformation => 0x17,
            PropertyType::WillDelayInterval => 0x18,
            PropertyType::RequestResponseInformation => 0x19,
            PropertyType::ResponseInformation => 0x1A,
            PropertyType::ServerReference => 0x1C,
            PropertyType::ReasonString => 0x1F,
            PropertyType::ReceiveMaximum => 0x21,
            PropertyType::TopicAliasMaximum => 0x22,
            PropertyType::TopicAlias => 0x23,
            PropertyType::MaximumQoS => 0x24,
            PropertyType::RetainAvailable => 0x25,
            PropertyType::UserProperty => 0x26,
            PropertyType::MaximumPacketSize => 0x27,
            PropertyType::WildcardSubscriptionAvailable => 0x28,
            PropertyType::SubscriptionIdentifierAvailable => 0x29,
            PropertyType::SharedSubscriptionAvailable => 0x2A,
        }
    }

    /// The identifier of the kind.
    pub fn identifier(self) -> (id: u8)
        ensures
            id == self.spec_identifier(),
            id < 128,
    {
        match self {
            PropertyType::PayloadFormatIndicator => 0x01,
            PropertyType::MessageExpiryInterval => 0x02,
            PropertyType::ContentType => 0x03,
            PropertyType::ResponseTopic => 0x08,
            PropertyType::CorrelationData => 0x09,
            PropertyType::SubscriptionIdentifier => 0x0B,
            PropertyType::SessionExpiryInterval => 0x11,
            PropertyType::AssignedClientIdentifier => 0x12,
            PropertyType::ServerKeepAlive => 0x13,
            PropertyType::AuthenticationMethod => 0x15,
            PropertyType::AuthenticationData => 0x16,
            PropertyType::RequestProblemInformation => 0x17,
            PropertyType::WillDelayInterval => 0x18,
            PropertyType::RequestResponseInformation => 0x19,
            PropertyType::ResponseInformation => 0x1A,
            PropertyType::ServerReference => 0x1C,
            PropertyType::ReasonString => 0x1F,
            PropertyType::ReceiveMaximum => 0x21,
            PropertyType::TopicAliasMaximum => 0x22,
            PropertyType::TopicAlias => 0x23,
            PropertyType::MaximumQoS => 0x24,
            PropertyType::RetainAvailable => 0x25,
            PropertyType::UserProperty => 0x26,
            PropertyType::MaximumPacketSize => 0x27,
            PropertyType::WildcardSubscriptionAvailable => 0x28,
            PropertyType::SubscriptionIdentifierAvailable => 0x29,
            PropertyType::SharedSubscriptionAvailable => 0x2A,
        }
    }
}

impl Writable for PropertyType {
    open spec fn wire(&self) -> Seq<u8> {
        seq![self.spec_identifier()]
    }

    fn written_len(&self) -> (n: usize) {
        1
    }

    fn write(&self, out: &mut Vec<u8>) {
        out.push(self.identifier());
    }
}
} // verus!
