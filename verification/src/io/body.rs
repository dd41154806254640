//! Reading typed values from a stream under a budget.
//!
//! A body reader stands between a stream and the code that reads a packet
//! of declared length from it. The declared length is a budget: a read past
//! it fails with `InsufficientRemainingLen`, which says that the reader of
//! the packet went beyond the packet. The stream ending early is a
//! different failure, `UnexpectedEOF`, which says that the transport did not
//! deliver what was declared. Bytes are taken from the stream as a read goes
//! on, so a failed read has still consumed what came before the failure.

use vstd::prelude::*;
use vstd::utf8::{decode_utf8, valid_utf8};
use crate::eio::ErrorKind;
use crate::io::err::ReadError;
use crate::types::binary::MqttBinary;
use crate::types::string::MqttString;
use crate::types::var_byte_int::{scan, Scan, VarByteInt, VarByteIntError};

verus! {
/// Why a read from a body failed, over a stream with errors of type `E` and
/// a store with errors of type `B`.
#[derive(Debug, PartialEq, Eq)]
pub enum BodyReadError<E, B> {
    /// The stream failed.
    Read(E),
    /// No space could be provided for the data.
    Buffer(B),
    /// The stream ended.
    UnexpectedEOF,
    /// The packet has not enough remaining length for the value. Unlike
    /// `UnexpectedEOF` this is a bound that the packet itself set.
    InsufficientRemainingLen,
    MalformedPacket,
    ProtocolError,
    InvalidTopicName,
}

impl<E, B> From<E> for BodyReadError<E, B> {
    fn from(e: E) -> (r: BodyReadError<E, B>)
        ensures
            r == BodyReadError::<E, B>::Read(e),
    {
        BodyReadError::Read(e)
    }
}

impl<E, B> vstd::std_specs::convert::FromSpecImpl<E> for BodyReadError<E, B> {
    open spec fn obeys_from_spec() -> bool {
        true
    }

    open spec fn from_spec(e: E) -> BodyReadError<E, B> {
        BodyReadError::Read(e)
    }
}

/// A read error as the error of a body.
pub open spec fn body_of_read<E, B>(e: ReadError<E>) -> BodyReadError<E, B> {
    match e {
        ReadError::Read(e) => BodyReadError::Read(e),
        ReadError::UnexpectedEOF => BodyReadError::UnexpectedEOF,
        ReadError::MalformedPacket => BodyReadError::MalformedPacket,
        ReadError::ProtocolError => BodyReadError::ProtocolError,
        ReadError::InvalidTopicName => BodyReadError::InvalidTopicName,
    }
}

impl<E, B> From<ReadError<E>> for BodyReadError<E, B> {
    fn from(e: ReadError<E>) -> (r: BodyReadError<E, B>)
        ensures
            r == body_of_read::<E, B>(e),
    {
        match e {
            ReadError::Read(e) => BodyReadError::Read(e),
            ReadError::UnexpectedEOF => BodyReadError::UnexpectedEOF,
            ReadError::MalformedPacket => BodyReadError::MalformedPacket,
            ReadError::ProtocolError => BodyReadError::ProtocolError,
            ReadError::InvalidTopicName => BodyReadError::InvalidTopicName,
        }
    }
}

impl<E, B> vstd::std_specs::convert::FromSpecImpl<ReadError<E>> for BodyReadError<E, B> {
    open spec fn obeys_from_spec() -> bool {
        true
    }

    open spec fn from_spec(e: ReadError<E>) -> BodyReadError<E, B> {
        body_of_read(e)
    }
}

impl<B> BodyReadError<ErrorKind, B> {
    /// The kind of transport failure that the error amounts to.
    pub open spec fn spec_kind(&self) -> ErrorKind {
        match self {
            BodyReadError::Read(e) => *e,
            BodyReadError::Buffer(_) => ErrorKind::OutOfMemory,
            BodyReadError::UnexpectedEOF => ErrorKind::Other,
            _ => ErrorKind::InvalidData,
        }
    }

    /// The kind of transport failure that the error amounts to.
    pub fn kind(&self) -> (k: ErrorKind)
        ensures
            k == self.spec_kind(),
    {
        match self {
            BodyReadError::Read(e) => *e,
            BodyReadError::Buffer(_) => ErrorKind::OutOfMemory,
            BodyReadError::UnexpectedEOF => ErrorKind::Other,
            BodyReadError::InsufficientRemainingLen => ErrorKind::InvalidData,
            BodyReadError::MalformedPacket => ErrorKind::InvalidData,
            BodyReadError::ProtocolError => ErrorKind::InvalidData,
            BodyReadError::InvalidTopicName => ErrorKind::InvalidData,
        }
    }
}

/// A store too small for the data it was asked to hold.
#[derive(Clone, Copy, Debug, PartialEq, Eq, Structural)]
pub struct InsufficientSpace;

/// The error of a body read from memory.
pub type BodyError = BodyReadError<ErrorKind, InsufficientSpace>;

/// The error of a typed read from a body.
pub type FieldError = ReadError<BodyError>;

/// What a body reader holds: the bytes that the stream will still deliver
/// and the remaining length of the packet.
#[verifier::ext_equal]
pub ghost struct BodyView {
    pub stream: Seq<u8>,
    pub remaining_len: nat,
}

/// The reader after `n` bytes were taken from the stream.
pub open spec fn consume(v: BodyView, n: nat) -> BodyView {
    BodyView { stream: v.stream.skip(n as int), remaining_len: (v.remaining_len - n) as nat }
}

/// How many bytes a read can get before either bound stops it.
pub open spec fn reach(v: BodyView) -> nat {
    if v.remaining_len <= v.stream.len() {
        v.remaining_len
    } else {
        v.stream.len()
    }
}

/// The error of a read that was stopped: by the remaining length where that
/// ran out first or together with the stream, by the end of the stream
/// otherwise.
pub open spec fn stopped(v: BodyView) -> FieldError {
    if v.remaining_len <= v.stream.len() {
        ReadError::Read(BodyReadError::InsufficientRemainingLen)
    } else {
        ReadError::UnexpectedEOF
    }
}

/// Reads exactly `need` bytes. A read that cannot be completed takes what
/// it can reach.
pub open spec fn take_exact(v: BodyView, need: nat) -> (BodyView, Result<Seq<u8>, FieldError>) {
    if need <= reach(v) {
        (consume(v, need), Ok(v.stream.take(need as int)))
    } else {
        (consume(v, reach(v)), Err(stopped(v)))
    }
}

/// Reads one byte.
pub open spec fn take_u8(v: BodyView) -> (BodyView, Result<u8, FieldError>) {
    match take_exact(v, 1).1 {
        Ok(b) => (take_exact(v, 1).0, Ok(b[0])),
        Err(e) => (take_exact(v, 1).0, Err(e)),
    }
}

/// Reads two bytes as a big-endian number.
pub open spec fn take_u16(v: BodyView) -> (BodyView, Result<u16, FieldError>) {
    match take_exact(v, 2).1 {
        Ok(b) => (take_exact(v, 2).0, Ok((b[0] as nat * 256 + b[1] as nat) as u16)),
        Err(e) => (take_exact(v, 2).0, Err(e)),
    }
}

/// Reads four bytes as a big-endian number.
pub open spec fn take_u32(v: BodyView) -> (BodyView, Result<u32, FieldError>) {
    match take_exact(v, 4).1 {
        Ok(b) => (
            take_exact(v, 4).0,
            Ok(
                (b[0] as nat * 16_777_216 + b[1] as nat * 65_536 + b[2] as nat * 256
                    + b[3] as nat) as u32,
            ),
        ),
        Err(e) => (take_exact(v, 4).0, Err(e)),
    }
}

/// Reads one byte that must be 0 or 1.
pub open spec fn take_bool(v: BodyView) -> (BodyView, Result<bool, FieldError>) {
    match take_u8(v).1 {
        Ok(b) => (
            take_u8(v).0,
            if b == 0 {
                Ok(false)
            } else if b == 1 {
                Ok(true)
            } else {
                Err(ReadError::MalformedPacket)
            },
        ),
        Err(e) => (take_u8(v).0, Err(e)),
    }
}

/// Reads a variable byte integer, one byte at a time.
pub open spec fn take_var_byte_int(v: BodyView) -> (BodyView, Result<nat, FieldError>) {
    match scan(v.stream.take(reach(v) as int)) {
        Scan::Value { value, len } => (consume(v, len), Ok(value)),
        Scan::Malformed => (consume(v, 5), Err(ReadError::MalformedPacket)),
        Scan::Truncated => (consume(v, reach(v)), Err(stopped(v))),
    }
}

/// Reads `len` bytes into a store of `space` bytes. The remaining length
/// and the space are checked before anything is taken from the stream.
pub open spec fn take_stored(v: BodyView, len: nat, space: nat) -> (
    BodyView,
    Result<Seq<u8>, FieldError>,
) {
    if v.remaining_len < len {
        (v, Err(ReadError::Read(BodyReadError::InsufficientRemainingLen)))
    } else if space < len {
        (v, Err(ReadError::Read(BodyReadError::Buffer(InsufficientSpace))))
    } else if v.stream.len() < len {
        (consume(v, v.stream.len()), Err(ReadError::UnexpectedEOF))
    } else {
        (consume(v, len), Ok(v.stream.take(len as int)))
    }
}

/// Reads a two byte length and then that many bytes into a store.
pub open spec fn take_binary(v: BodyView, space: nat) -> (BodyView, Result<Seq<u8>, FieldError>) {
    match take_u16(v).1 {
        Ok(len) => take_stored(take_u16(v).0, len as nat, space),
        Err(e) => (take_u16(v).0, Err(e)),
    }
}

/// Reads binary data that must be valid UTF-8.
pub open spec fn take_string(v: BodyView, space: nat) -> (
    BodyView,
    Result<Seq<char>, FieldError>,
) {
    match take_binary(v, space).1 {
        Ok(data) => (
            take_binary(v, space).0,
            if valid_utf8(data) {
                Ok(decode_utf8(data))
            } else {
                Err(ReadError::MalformedPacket)
            },
        ),
        Err(e) => (take_binary(v, space).0, Err(e)),
    }
}

/// Moves past `len` bytes, which are charged to the remaining length at
/// once. More than the remaining length cannot be skipped.
pub open spec fn take_skip(v: BodyView, len: nat) -> (BodyView, Result<(), BodyError>) {
    if v.remaining_len < len {
        (v, Err(BodyReadError::InsufficientRemainingLen))
    } else if v.stream.len() < len {
        (
            BodyView { stream: Seq::empty(), remaining_len: (v.remaining_len - len) as nat },
            Err(BodyReadError::UnexpectedEOF),
        )
    } else {
        (consume(v, len), Ok(()))
    }
}

/// A reader of one packet body from the bytes of a stream.
pub struct BodyReader<'r> {
    stream: &'r [u8],
    pos: usize,
    remaining_len: usize,
}

impl<'r> View for BodyReader<'r> {
    type V = BodyView;

    closed spec fn view(&self) -> BodyView {
        BodyView { stream: self.stream@.skip(self.pos as int), remaining_len: self.remaining_len as nat }
    }
}

impl<'r> BodyReader<'r> {
    #[verifier::type_invariant]
    spec fn in_bounds(self) -> bool {
        self.pos <= self.stream@.len()
    }

    /// A reader of a body of `remaining_len` bytes from `stream`, the bytes
    /// that the transport delivers before it ends.
    pub fn new(stream: &'r [u8], remaining_len: usize) -> (r: BodyReader<'r>)
        ensures
            r@ == (BodyView { stream: stream@, remaining_len: remaining_len as nat }),
    {
        let r = BodyReader { stream, pos: 0, remaining_len };
        r
    }

    /// The remaining length of the packet.
    pub fn remaining_len(&self) -> (n: usize)
        ensures
            n == self@.remaining_len,
    {
        self.remaining_len
    }

    fn reach(&self) -> (n: usize)
        ensures
            n == reach(self@),
            self.pos + n <= self.stream@.len(),
            n <= self.remaining_len,
            self@.stream.len() == self.stream@.len() - self.pos,
            self.stream@.len() <= usize::MAX,
    {
        proof {
            use_type_invariant(self);
        }
        let left: usize = self.stream.len() - self.pos;
        if self.remaining_len <= left {
            self.remaining_len
        } else {
            left
        }
    }

    fn advance(&mut self, n: usize) -> (taken: &'r [u8])
        requires
            n <= reach(old(self)@),
        ensures
            final(self)@ == consume(old(self)@, n as nat),
            taken@ == old(self)@.stream.take(n as int),
    {
        self.reach();
        let taken = vstd::slice::slice_subrange(self.stream, self.pos, self.pos + n);
        self.pos = self.pos + n;
        self.remaining_len = self.remaining_len - n;
        taken
    }

    fn stopped(&self) -> (e: FieldError)
        ensures
            e == stopped(self@),
    {
        proof {
            use_type_invariant(self);
        }
        if self.remaining_len <= self.stream.len() - self.pos {
            ReadError::Read(BodyReadError::InsufficientRemainingLen)
        } else {
            ReadError::UnexpectedEOF
        }
    }

    /// Reads into `buf` what the stream has at hand, within the remaining
    /// length, and says how many bytes that was. Zero is the end of the
    /// stream, or an empty `buf`.
    pub fn read(&mut self, buf: &mut [u8]) -> (r: Result<usize, BodyError>)
        ensures
            final(buf)@.len() == old(buf)@.len(),
            old(buf)@.len() > 0 && old(self)@.remaining_len == 0 ==> {
                &&& r == Err::<usize, BodyError>(BodyReadError::InsufficientRemainingLen)
                &&& final(self)@ == old(self)@
                &&& final(buf)@ == old(buf)@
            },
            !(old(buf)@.len() > 0 && old(self)@.remaining_len == 0) ==> {
                &&& r matches Ok(n)
                &&& n == if old(buf)@.len() <= reach(old(self)@) {
                    old(buf)@.len()
                } else {
                    reach(old(self)@)
                }
                &&& final(self)@ == consume(old(self)@, n as nat)
                &&& final(buf)@ == old(self)@.stream.take(n as int) + old(buf)@.skip(n as int)
            },
    {
        if buf.len() > 0 && self.remaining_len == 0 {
            return Err(BodyReadError::InsufficientRemainingLen);
        }
        let reach: usize = self.reach();
        let n: usize = if buf.len() <= reach {
            buf.len()
        } else {
            reach
        };
        let taken = self.advance(n);
        let mut i: usize = 0;
        while i < n
            invariant
                i <= n,
                n == taken@.len(),
                n <= buf@.len(),
                buf@.len() == old(buf)@.len(),
                buf@ == taken@.take(i as int) + old(buf)@.skip(i as int),
            decreases n - i,
        {
            buf[i] = taken[i];
            i = i + 1;
        }
        Ok(n)
    }

    /// Reads exactly `len` bytes into the front of `store`.
    pub fn read_and_store(&mut self, len: usize, store: &mut [u8]) -> (r: Result<(), FieldError>)
        ensures
            final(self)@ == take_stored(old(self)@, len as nat, old(store)@.len()).0,
            final(store)@.len() == old(store)@.len(),
            match r {
                Ok(()) => {
                    &&& take_stored(old(self)@, len as nat, old(store)@.len()).1 matches Ok(data)
                    &&& final(store)@ == data + old(store)@.skip(len as int)
                },
                Err(e) => take_stored(old(self)@, len as nat, old(store)@.len()).1 == Err::<
                    Seq<u8>,
                    FieldError,
                >(e),
            },
    {
        if self.remaining_len < len {
            return Err(ReadError::Read(BodyReadError::InsufficientRemainingLen));
        }
        if store.len() < len {
            return Err(ReadError::Read(BodyReadError::Buffer(InsufficientSpace)));
        }
        let reach: usize = self.reach();
        if reach < len {
            self.advance(reach);
            return Err(ReadError::UnexpectedEOF);
        }
        let taken = self.advance(len);
        let mut i: usize = 0;
        while i < len
            invariant
                i <= len,
                len == taken@.len(),
                len <= store@.len(),
                store@.len() == old(store)@.len(),
                store@ == taken@.take(i as int) + old(store)@.skip(i as int),
            decreases len - i,
        {
            store[i] = taken[i];
            i = i + 1;
        }
        Ok(())
    }

    /// Moves past `len` bytes without keeping them.
    pub fn skip(&mut self, len: usize) -> (r: Result<(), BodyError>)
        ensures
            final(self)@ == take_skip(old(self)@, len as nat).0,
            match r {
                Ok(()) => take_skip(old(self)@, len as nat).1 is Ok,
                Err(e) => take_skip(old(self)@, len as nat).1 == Err::<(), BodyError>(e),
            },
    {
        if self.remaining_len < len {
            return Err(BodyReadError::InsufficientRemainingLen);
        }
        let reach: usize = self.reach();
        if reach < len {
            self.advance(reach);
            proof {
                use_type_invariant(&*self);
            }
            self.remaining_len = self.remaining_len - (len - reach);
            return Err(BodyReadError::UnexpectedEOF);
        }
        self.advance(len);
        Ok(())
    }

    /// Reads exactly `N` bytes.
    pub fn read_array<const N: usize>(&mut self) -> (r: Result<[u8; N], FieldError>)
        ensures
            final(self)@ == take_exact(old(self)@, N as nat).0,
            match r {
                Ok(a) => take_exact(old(self)@, N as nat).1 == Ok::<Seq<u8>, FieldError>(a@),
                Err(e) => take_exact(old(self)@, N as nat).1 == Err::<Seq<u8>, FieldError>(e),
            },
    {
        let reach: usize = self.reach();
        if N > reach {
            let e = self.stopped();
            self.advance(reach);
            return Err(e);
        }
        let taken = self.advance(N);
        let mut array: [u8; N] = [0u8; N];
        let mut i: usize = 0;
        while i < N
            invariant
                i <= N,
                taken@.len() == N,
                forall|j: int| 0 <= j < i ==> array@[j] == taken@[j],
            decreases N - i,
        {
            array[i] = taken[i];
            i = i + 1;
        }
        assert(array@ =~= taken@);
        Ok(array)
    }

    /// Reads one byte.
    pub fn read_u8(&mut self) -> (r: Result<u8, FieldError>)
        ensures
            final(self)@ == take_u8(old(self)@).0,
            r == take_u8(old(self)@).1,
    {
        match self.read_array::<1>() {
            Ok(b) => Ok(b[0]),
            Err(e) => Err(e),
        }
    }

    /// Reads a big-endian `u16`.
    pub fn read_u16(&mut self) -> (r: Result<u16, FieldError>)
        ensures
            final(self)@ == take_u16(old(self)@).0,
            r == take_u16(old(self)@).1,
    {
        match self.read_array::<2>() {
            Ok(b) => Ok(b[0] as u16 * 256 + b[1] as u16),
            Err(e) => Err(e),
        }
    }

    /// Reads a big-endian `u32`.
    pub fn read_u32(&mut self) -> (r: Result<u32, FieldError>)
        ensures
            final(self)@ == take_u32(old(self)@).0,
            r == take_u32(old(self)@).1,
    {
        match self.read_array::<4>() {
            Ok(b) => Ok(
                b[0] as u32 * 16_777_216 + b[1] as u32 * 65_536 + b[2] as u32 * 256 + b[3] as u32,
            ),
            Err(e) => Err(e),
        }
    }

    /// Reads a byte that must be 0 or 1.
    pub fn read_bool(&mut self) -> (r: Result<bool, FieldError>)
        ensures
            final(self)@ == take_bool(old(self)@).0,
            r == take_bool(old(self)@).1,
    {
        match self.read_u8() {
            Ok(0) => Ok(false),
            Ok(1) => Ok(true),
            Ok(_) => Err(ReadError::MalformedPacket),
            Err(e) => Err(e),
        }
    }

    /// Reads a variable byte integer.
    pub fn read_var_byte_int(&mut self) -> (r: Result<VarByteInt, FieldError>)
        ensures
            final(self)@ == take_var_byte_int(old(self)@).0,
            match r {
                Ok(v) => take_var_byte_int(old(self)@).1 == Ok::<nat, FieldError>(v@),
                Err(e) => take_var_byte_int(old(self)@).1 == Err::<nat, FieldError>(e),
            },
    {
        let reach: usize = self.reach();
        let window = vstd::slice::slice_subrange(self.stream, self.pos, self.pos + reach);
        assert(window@ =~= self@.stream.take(reach as int));
        match VarByteInt::decode(window) {
            Ok((v, n)) => {
                self.advance(n);
                Ok(v)
            },
            Err(VarByteIntError::Malformed) => {
                self.advance(5);
                Err(ReadError::MalformedPacket)
            },
            Err(VarByteIntError::Truncated) => {
                let e = self.stopped();
                self.advance(reach);
                Err(e)
            },
        }
    }

    /// Reads binary data into the front of `store` and hands it out from
    /// there.
    pub fn read_binary<'s>(&mut self, store: &'s mut [u8]) -> (r: Result<MqttBinary<'s>, FieldError>)
        ensures
            final(self)@ == take_binary(old(self)@, old(store)@.len()).0,
            match r {
                Ok(b) => take_binary(old(self)@, old(store)@.len()).1 == Ok::<Seq<u8>, FieldError>(
                    b@,
                ),
                Err(e) => take_binary(old(self)@, old(store)@.len()).1 == Err::<
                    Seq<u8>,
                    FieldError,
                >(e),
            },
    {
        let len: u16 = match self.read_u16() {
            Ok(len) => len,
            Err(e) => {
                return Err(e);
            },
        };
        match self.read_and_store(len as usize, store) {
            Ok(()) => {
                let data = vstd::slice::slice_subrange(&*store, 0, len as usize);
                assert(data@ =~= take_binary(old(self)@, old(store)@.len()).1->Ok_0);
                Ok(MqttBinary::from_slice_unchecked(data))
            },
            Err(e) => Err(e),
        }
    }

    /// Reads a string into the front of `store` and hands it out from there.
    pub fn read_string<'s>(&mut self, store: &'s mut [u8]) -> (r: Result<MqttString<'s>, FieldError>)
        ensures
            final(self)@ == take_string(old(self)@, old(store)@.len()).0,
            match r {
                Ok(s) => take_string(old(self)@, old(store)@.len()).1 == Ok::<
                    Seq<char>,
                    FieldError,
                >(s@),
                Err(e) => take_string(old(self)@, old(store)@.len()).1 == Err::<
                    Seq<char>,
                    FieldError,
                >(e),
            },
    {
        let binary = match self.read_binary(store) {
            Ok(binary) => binary,
            Err(e) => {
                return Err(e);
            },
        };
        match MqttString::from_binary(binary) {
            Ok(s) => Ok(s),
            Err(_) => Err(ReadError::MalformedPacket),
        }
    }
}
} // verus!
