//! Reading typed values from a packet body.
//!
//! Every value is read from the front of what the decoder still holds.
//! Integers are big-endian. A value that the body has too few bytes for is
//! malformed: the whole body is in memory, so a short body is never a matter
//! of the transport.

use vstd::prelude::*;
use vstd::utf8::{decode_utf8, valid_utf8};
use crate::io::err::DecodeError;
use crate::io::reader::PacketDecoder;
use crate::types::binary::MqttBinary;
use crate::types::string::MqttString;
use crate::types::var_byte_int::{scan, Scan, VarByteInt, VarByteIntError};

verus! {
/// What reading a value from given bytes comes to: the value or the error,
/// and how many bytes the reader has moved past either way.
pub ghost struct Parsed<V> {
    pub result: Result<V, DecodeError>,
    pub consumed: nat,
}

/// A failed read that took `consumed` bytes.
pub open spec fn malformed<V>(consumed: nat) -> Parsed<V> {
    Parsed { result: Err(DecodeError::MalformedPacket), consumed }
}

/// The first `n` bytes, if there are that many; otherwise nothing is taken.
pub open spec fn parse_bytes(bytes: Seq<u8>, n: nat) -> Parsed<Seq<u8>> {
    if bytes.len() < n {
        malformed(0)
    } else {
        Parsed { result: Ok(bytes.take(n as int)), consumed: n }
    }
}

/// One byte.
pub open spec fn parse_u8(bytes: Seq<u8>) -> Parsed<u8> {
    if bytes.len() < 1 {
        malformed(0)
    } else {
        Parsed { result: Ok(bytes[0]), consumed: 1 }
    }
}

/// Two bytes, big-endian.
pub open spec fn parse_u16(bytes: Seq<u8>) -> Parsed<u16> {
    if bytes.len() < 2 {
        malformed(0)
    } else {
        Parsed { result: Ok((bytes[0] as nat * 256 + bytes[1] as nat) as u16), consumed: 2 }
    }
}

/// Four bytes, big-endian.
pub open spec fn parse_u32(bytes: Seq<u8>) -> Parsed<u32> {
    if bytes.len() < 4 {
        malformed(0)
    } else {
        Parsed {
            result: Ok(
                (bytes[0] as nat * 16_777_216 + bytes[1] as nat * 65_536 + bytes[2] as nat * 256
                    + bytes[3] as nat) as u32,
            ),
            consumed: 4,
        }
    }
}

/// One byte that must be 0 or 1. Any other byte is taken and refused.
pub open spec fn parse_bool(bytes: Seq<u8>) -> Parsed<bool> {
    if bytes.len() < 1 {
        malformed(0)
    } else if bytes[0] == 0 {
        Parsed { result: Ok(false), consumed: 1 }
    } else if bytes[0] == 1 {
        Parsed { result: Ok(true), consumed: 1 }
    } else {
        malformed(1)
    }
}

/// A variable byte integer, read one byte at a time; on failure the bytes
/// that were read are gone.
pub open spec fn parse_var_byte_int(bytes: Seq<u8>) -> Parsed<nat> {
    match scan(bytes) {
        Scan::Value { value, len } => Parsed { result: Ok(value), consumed: len },
        Scan::Truncated => malformed(bytes.len()),
        Scan::Malformed => malformed(5),
    }
}

/// A two byte length, then that many bytes. Where the data is short, the
/// length has been taken already.
pub open spec fn parse_binary(bytes: Seq<u8>) -> Parsed<Seq<u8>> {
    match parse_u16(bytes).result {
        Err(_) => malformed(0),
        Ok(len) => if bytes.len() - 2 < len {
            malformed(2)
        } else {
            Parsed { result: Ok(bytes.subrange(2, 2 + len)), consumed: 2 + len as nat }
        },
    }
}

/// Binary data that must be valid UTF-8. Data that is not is taken and
/// refused.
pub open spec fn parse_string(bytes: Seq<u8>) -> Parsed<Seq<char>> {
    match parse_binary(bytes).result {
        Err(_) => malformed(parse_binary(bytes).consumed),
        Ok(data) => if valid_utf8(data) {
            Parsed { result: Ok(decode_utf8(data)), consumed: parse_binary(bytes).consumed }
        } else {
            malformed(parse_binary(bytes).consumed)
        },
    }
}

/// Whether a read that returned `r` and left `after` did to `before` what
/// `parsed` says.
pub open spec fn read_as<T: View>(
    r: Result<T, DecodeError>,
    before: Seq<u8>,
    after: Seq<u8>,
    parsed: Parsed<T::V>,
) -> bool {
    &&& parsed.consumed <= before.len()
    &&& after == before.skip(parsed.consumed as int)
    &&& match r {
        Ok(v) => parsed.result == Ok::<T::V, DecodeError>(v@),
        Err(e) => parsed.result == Err::<T::V, DecodeError>(e),
    }
}

/// A value that can be read from a packet body.
pub trait Readable<'r>: Sized + View + 'r {
    /// What reading a value of this type from `bytes` comes to.
    spec fn parse(bytes: Seq<u8>) -> Parsed<Self::V>;

    /// Reads a value from the front of what the decoder holds.
    fn read(read: &mut PacketDecoder<'r>) -> (r: Result<Self, DecodeError>)
        ensures
            final(read).spec_header() == old(read).spec_header(),
            read_as(r, old(read).remaining(), final(read).remaining(), Self::parse(old(read).remaining())),
    ;
}

impl<'r, const N: usize> Readable<'r> for [u8; N] {
    open spec fn parse(bytes: Seq<u8>) -> Parsed<Seq<u8>> {
        parse_bytes(bytes, N as nat)
    }

    fn read(read: &mut PacketDecoder<'r>) -> (r: Result<Self, DecodeError>) {
        let bytes = match read.take_bytes(N) {
            Ok(bytes) => bytes,
            Err(_) => {
                assert(old(read).remaining().skip(0) =~= old(read).remaining());
                return Err(DecodeError::MalformedPacket);
            },
        };
        let mut array: [u8; N] = [0u8; N];
        let mut i: usize = 0;
        while i < N
            invariant
                i <= N,
                bytes@.len() == N,
                forall|j: int| 0 <= j < i ==> array@[j] == bytes@[j],
            decreases N - i,
        {
            array[i] = bytes[i];
            i = i + 1;
        }
        assert(array@ =~= bytes@);
        Ok(array)
    }
}

impl<'r> Readable<'r> for u8 {
    open spec fn parse(bytes: Seq<u8>) -> Parsed<u8> {
        parse_u8(bytes)
    }

    fn read(read: &mut PacketDecoder<'r>) -> (r: Result<Self, DecodeError>) {
        match <[u8; 1]>::read(read) {
            Ok(b) => Ok(b[0]),
            Err(e) => Err(e),
        }
    }
}

impl<'r> Readable<'r> for u16 {
    open spec fn parse(bytes: Seq<u8>) -> Parsed<u16> {
        parse_u16(bytes)
    }

    fn read(read: &mut PacketDecoder<'r>) -> (r: Result<Self, DecodeError>) {
        match <[u8; 2]>::read(read) {
            Ok(b) => Ok(b[0] as u16 * 256 + b[1] as u16),
            Err(e) => Err(e),
        }
    }
}

impl<'r> Readable<'r> for u32 {
    open spec fn parse(bytes: Seq<u8>) -> Parsed<u32> {
        parse_u32(bytes)
    }

    fn read(read: &mut PacketDecoder<'r>) -> (r: Result<Self, DecodeError>) {
        match <[u8; 4]>::read(read) {
            Ok(b) => Ok(
                b[0] as u32 * 16_777_216 + b[1] as u32 * 65_536 + b[2] as u32 * 256 + b[3] as u32,
            ),
            Err(e) => Err(e),
        }
    }
}

impl<'r> Readable<'r> for bool {
    open spec fn parse(bytes: Seq<u8>) -> Parsed<bool> {
        parse_bool(bytes)
    }

    fn read(read: &mut PacketDecoder<'r>) -> (r: Result<Self, DecodeError>) {
        match u8::read(read) {
            Ok(0) => Ok(false),
            Ok(1) => Ok(true),
            Ok(_) => Err(DecodeError::MalformedPacket),
            Err(e) => Err(e),
        }
    }
}

impl<'r> Readable<'r> for VarByteInt {
    open spec fn parse(bytes: Seq<u8>) -> Parsed<nat> {
        parse_var_byte_int(bytes)
    }

    fn read(read: &mut PacketDecoder<'r>) -> (r: Result<Self, DecodeError>) {
        let rest = read.peek();
        let (taken, r): (usize, Result<VarByteInt, DecodeError>) = match VarByteInt::decode(rest) {
            Ok((v, n)) => (n, Ok(v)),
            Err(VarByteIntError::Truncated) => (rest.len(), Err(DecodeError::MalformedPacket)),
            Err(VarByteIntError::Malformed) => (5, Err(DecodeError::MalformedPacket)),
        };
        let skipped = read.skip(taken);
        assert(skipped is Ok);
        r
    }
}

impl<'r> Readable<'r> for MqttBinary<'r> {
    open spec fn parse(bytes: Seq<u8>) -> Parsed<Seq<u8>> {
        parse_binary(bytes)
    }

    fn read(read: &mut PacketDecoder<'r>) -> (r: Result<Self, DecodeError>) {
        let ghost before = read.remaining();
        let len = match u16::read(read) {
            Ok(len) => len,
            Err(e) => {
                return Err(e);
            },
        };
        match read.take_bytes(len as usize) {
            Ok(data) => {
                proof {
                    assert(data@ =~= before.subrange(2, 2 + len));
                    assert(read.remaining() =~= before.skip(2 + len));
                }
                Ok(MqttBinary::from_slice_unchecked(data))
            },
            Err(_) => Err(DecodeError::MalformedPacket),
        }
    }
}

impl<'r> Readable<'r> for MqttString<'r> {
    open spec fn parse(bytes: Seq<u8>) -> Parsed<Seq<char>> {
        parse_string(bytes)
    }

    fn read(read: &mut PacketDecoder<'r>) -> (r: Result<Self, DecodeError>) {
        let binary = match MqttBinary::read(read) {
            Ok(binary) => binary,
            Err(e) => {
                return Err(e);
            },
        };
        match MqttString::from_binary(binary) {
            Ok(s) => Ok(s),
            Err(_) => Err(DecodeError::MalformedPacket),
        }
    }
}
} // verus!
