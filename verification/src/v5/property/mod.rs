//! Properties: typed values that a packet carries under an identifier.

pub mod plain;
pub mod types;
pub mod values;

pub use plain::{
    AssignedClientIdentifier,
    AuthenticationData,
    AuthenticationMethod,
    ContentType,
    CorrelationData,
    MessageExpiryInterval,
    PayloadFormatIndicator,
    ReasonString,
    RequestProblemInformation,
    RequestResponseInformation,
    ResponseInformation,
    ResponseTopic,
    RetainAvailable,
    ServerReference,
    SharedSubscriptionAvailable,
    SubscriptionIdentifier,
    SubscriptionIdentifierAvailable,
    TopicAliasMaximum,
    WildcardSubscriptionAvailable,
    WillDelayInterval,
};
pub use types::PropertyType;
pub use values::{MaximumQoS, ServerKeepAlive, TopicAlias};

use vstd::prelude::*;
use crate::io::err::DecodeError;
use crate::io::read::{read_as, Readable};
use crate::io::reader::PacketDecoder;

verus! {
/// A property. Written, it is its identifier and its content; read, it is
/// its content only, the identifier having told what to read.
pub trait Property {
    /// The content of the property.
    type Inner;

    /// The kind of the property.
    const TYPE: PropertyType;

    /// The content of the property.
    fn into_inner(self) -> Self::Inner;
}

/// Reading a property that a packet may carry at most once.
pub trait AtMostOnceProperty<'p, T: Property + Readable<'p>> {
    /// The property as it was read, if it was.
    spec fn held(&self) -> Option<T>;

    /// Reads the property into an empty place. A place that is taken
    /// already means that the packet repeats the property, which is a
    /// protocol error; nothing is read then.
    fn try_set(&mut self, read: &mut PacketDecoder<'p>) -> (r: Result<(), DecodeError>)
        ensures
            final(read).spec_header() == old(read).spec_header(),
            old(self).held() is Some ==> {
                &&& r == Err::<(), DecodeError>(DecodeError::ProtocolError)
                &&& final(self).held() == old(self).held()
                &&& final(read).remaining() == old(read).remaining()
            },
            old(self).held() is None ==> {
                &&& read_as::<T>(
                    match r {
                        Ok(()) => Ok(final(self).held().unwrap()),
                        Err(e) => Err(e),
                    },
                    old(read).remaining(),
                    final(read).remaining(),
                    T::parse(old(read).remaining()),
                )
                &&& r is Ok <==> final(self).held() is Some
            },
    ;
}

impl<'p, T: Property + Readable<'p>> AtMostOnceProperty<'p, T> for Option<T> {
    open spec fn held(&self) -> Option<T> {
        *self
    }

    fn try_set(&mut self, read: &mut PacketDecoder<'p>) -> (r: Result<(), DecodeError>) {
        if self.is_some() {
            Err(DecodeError::ProtocolError)
        } else {
            match T::read(read) {
                Ok(value) => {
                    *self = Some(value);
                    Ok(())
                },
                Err(e) => Err(e),
            }
        }
    }
}
} // verus!
