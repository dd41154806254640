//! Text with a two byte length prefix.

use vstd::prelude::*;
use vstd::string::StringSliceAdditionalSpecFns;
use vstd::utf8::{decode_utf8, valid_utf8};
use crate::types::binary::MqttBinary;

verus! {
/// Bytes that are not the UTF-8 encoding of any text.
#[derive(Clone, Copy, Debug, PartialEq, Eq, Structural)]
pub struct InvalidUtf8;

/// `core::str::from_utf8`: the bytes as a string slice exactly when they are
/// valid UTF-8; the string is then made of those very bytes.
#[verifier::external_body]
fn str_from_utf8<'a>(bytes: &'a [u8]) -> (r: Option<&'a str>)
    ensures
        r is Some <==> valid_utf8(bytes@),
        r matches Some(s) ==> s.spec_bytes() == bytes@,
{
    match core::str::from_utf8(bytes) {
        Ok(s) => Some(s),
        Err(_) => None,
    }
}

/// Text borrowed from a buffer, at most 65,535 bytes of UTF-8.
#[derive(Clone, Copy, Debug, PartialEq, Eq)]
pub struct MqttString<'s>(&'s str);

impl<'s> View for MqttString<'s> {
    type V = Seq<char>;

    closed spec fn view(&self) -> Seq<char> {
        self.0@
    }
}

impl<'s> MqttString<'s> {
    /// The most bytes the encoding of a string can take.
    pub const MAX_LENGTH: usize = 65_535;

    #[verifier::type_invariant]
    spec fn fits(self) -> bool {
        self.0.spec_bytes().len() <= 65_535
    }

    /// The text that `binary` encodes, if it is valid UTF-8.
    pub fn from_binary(binary: MqttBinary<'s>) -> (r: Result<MqttString<'s>, InvalidUtf8>)
        ensures
            r is Ok <==> valid_utf8(binary@),
            r matches Ok(s) ==> s@ == decode_utf8(binary@),
    {
        let bytes = binary.as_bytes();
        match str_from_utf8(bytes) {
            Some(s) => {
                proof {
                    vstd::utf8::encode_utf8_decode_utf8(s@);
                }
                Ok(MqttString(s))
            },
            None => Err(InvalidUtf8),
        }
    }

    /// The text.
    pub fn as_str(&self) -> (s: &'s str)
        ensures
            s@ == self@,
    {
        self.0
    }

    /// The number of bytes of the encoded text.
    pub fn len(&self) -> (n: u16)
        ensures
            n == vstd::utf8::encode_utf8(self@).len(),
    {
        proof {
            use_type_invariant(self);
        }
        self.0.len() as u16
    }

    /// The number of bytes on the wire, the length prefix included.
    pub fn written_len(&self) -> (n: usize)
        ensures
            n == vstd::utf8::encode_utf8(self@).len() + 2,
            n <= 65_537,
    {
        proof {
            use_type_invariant(self);
        }
        self.0.len() + 2
    }
}
} // verus!
