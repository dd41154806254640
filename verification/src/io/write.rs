//! Writing typed values as bytes. Integers are big-endian.

use vstd::prelude::*;
use vstd::utf8::encode_utf8;
use crate::types::binary::MqttBinary;
use crate::types::string::MqttString;
use crate::types::var_byte_int::{encoding, VarByteInt};

verus! {
/// The two bytes of a `u16`.
pub open spec fn wire_u16(v: u16) -> Seq<u8> {
    seq![(v / 256) as u8, (v % 256) as u8]
}

/// The four bytes of a `u32`.
pub open spec fn wire_u32(v: u32) -> Seq<u8> {
    seq![
        (v / 16_777_216) as u8,
        (v / 65_536 % 256) as u8,
        (v / 256 % 256) as u8,
        (v % 256) as u8,
    ]
}

/// The byte of a `bool`.
pub open spec fn wire_bool(v: bool) -> Seq<u8> {
    if v {
        seq![1u8]
    } else {
        seq![0u8]
    }
}

/// The length prefix and the bytes of binary data.
pub open spec fn wire_binary(data: Seq<u8>) -> Seq<u8> {
    wire_u16(data.len() as u16) + data
}

/// A value that can be written as bytes.
pub trait Writable {
    /// The bytes that stand for the value on the wire.
    spec fn wire(&self) -> Seq<u8>;

    /// The number of bytes that `write` appends.
    fn written_len(&self) -> (n: usize)
        ensures
            n == self.wire().len(),
    ;

    /// Appends the bytes of the value to `out`.
    fn write(&self, out: &mut Vec<u8>)
        ensures
            final(out)@ == old(out)@ + self.wire(),
    ;
}

impl Writable for u8 {
    open spec fn wire(&self) -> Seq<u8> {
        seq![*self]
    }

    fn written_len(&self) -> (n: usize) {
        1
    }

    fn write(&self, out: &mut Vec<u8>) {
        out.push(*self);
    }
}

impl Writable for u16 {
    open spec fn wire(&self) -> Seq<u8> {
        wire_u16(*self)
    }

    fn written_len(&self) -> (n: usize) {
        2
    }

    fn write(&self, out: &mut Vec<u8>) {
        out.push((*self / 256) as u8);
        out.push((*self % 256) as u8);
        assert(out@ =~= old(out)@ + self.wire());
    }
}

impl Writable for u32 {
    open spec fn wire(&self) -> Seq<u8> {
        wire_u32(*self)
    }

    fn written_len(&self) -> (n: usize) {
        4
    }

    fn write(&self, out: &mut Vec<u8>) {
        out.push((*self / 16_777_216) as u8);
        out.push((*self / 65_536 % 256) as u8);
        out.push((*self / 256 % 256) as u8);
        out.push((*self % 256) as u8);
    }
}

impl Writable for bool {
    open spec fn wire(&self) -> Seq<u8> {
        wire_bool(*self)
    }

    fn written_len(&self) -> (n: usize) {
        1
    }

    fn write(&self, out: &mut Vec<u8>) {
        if *self {
            out.push(1);
        } else {
            out.push(0);
        }
    }
}

impl Writable for VarByteInt {
    open spec fn wire(&self) -> Seq<u8> {
        encoding(self@)
    }

    fn written_len(&self) -> (n: usize) {
        VarByteInt::written_len(self)
    }

    fn write(&self, out: &mut Vec<u8>) {
        let mut bytes = self.encode();
        out.append(&mut bytes);
    }
}

fn write_slice(bytes: &[u8], out: &mut Vec<u8>)
    ensures
        final(out)@ == old(out)@ + bytes@,
{
    let mut i: usize = 0;
    while i < bytes.len()
        invariant
            i <= bytes@.len(),
            out@ == old(out)@ + bytes@.take(i as int),
        decreases bytes@.len() - i,
    {
        out.push(bytes[i]);
        i = i + 1;
    }
}

impl<'b> Writable for MqttBinary<'b> {
    open spec fn wire(&self) -> Seq<u8> {
        wire_binary(self@)
    }

    fn written_len(&self) -> (n: usize) {
        MqttBinary::written_len(self)
    }

    fn write(&self, out: &mut Vec<u8>) {
        self.len().write(out);
        write_slice(self.as_bytes(), out);
    }
}

impl<'s> Writable for MqttString<'s> {
    open spec fn wire(&self) -> Seq<u8> {
        wire_binary(encode_utf8(self@))
    }

    fn written_len(&self) -> (n: usize) {
        MqttString::written_len(self)
    }

    fn write(&self, out: &mut Vec<u8>) {
        let bytes = self.as_str().as_bytes();
        let len: u16 = self.len();
        len.write(out);
        write_slice(bytes, out);
    }
}
} // verus!
