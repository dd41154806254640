//! Binary data with a two byte length prefix.

use vstd::prelude::*;

verus! {
/// A request to hold more bytes than a two byte length can count.
#[derive(Clone, Copy, Debug, PartialEq, Eq, Structural)]
pub struct TooLong;

/// Bytes borrowed from a buffer, at most 65,535 of them.
#[derive(Clone, Copy, Debug, PartialEq, Eq)]
pub struct MqttBinary<'b>(&'b [u8]);

impl<'b> View for MqttBinary<'b> {
    type V = Seq<u8>;

    closed spec fn view(&self) -> Seq<u8> {
        self.0@
    }
}

impl<'b> MqttBinary<'b> {
    /// The most bytes a binary value can hold.
    pub const MAX_LENGTH: usize = 65_535;

    #[verifier::type_invariant]
    spec fn fits(self) -> bool {
        self.0@.len() <= 65_535
    }

    /// The bytes of `slice` as binary data, if they are few enough.
    pub fn from_slice(slice: &'b [u8]) -> (r: Result<MqttBinary<'b>, TooLong>)
        ensures
            slice@.len() <= 65_535 ==> r is Ok && r->Ok_0@ == slice@,
            slice@.len() > 65_535 ==> r is Err,
    {
        if slice.len() > 65_535 {
            Err(TooLong)
        } else {
            Ok(MqttBinary(slice))
        }
    }

    /// The bytes of `slice` as binary data.
    pub fn from_slice_unchecked(slice: &'b [u8]) -> (r: MqttBinary<'b>)
        requires
            slice@.len() <= 65_535,
        ensures
            r@ == slice@,
    {
        MqttBinary(slice)
    }

    /// The bytes.
    pub fn as_bytes(&self) -> (bytes: &'b [u8])
        ensures
            bytes@ == self@,
            bytes@.len() <= 65_535,
    {
        proof {
            use_type_invariant(self);
        }
        self.0
    }

    /// The number of bytes.
    pub fn len(&self) -> (n: u16)
        ensures
            n == self@.len(),
    {
        proof {
            use_type_invariant(self);
        }
        self.0.len() as u16
    }

    /// The number of bytes on the wire, the length prefix included.
    pub fn written_len(&self) -> (n: usize)
        ensures
            n == self@.len() + 2,
            n <= 65_537,
    {
        proof {
            use_type_invariant(self);
        }
        self.0.len() + 2
    }
}
} // verus!
