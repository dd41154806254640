//! The packet receiver, which assembles one packet at a time in a fixed
//! buffer, and the decoder that walks a received body.
//!
//! The receiver never waits. Its owner asks `poll` what is needed, reads from
//! the transport, and hands the outcome to `advance`. Everything received so
//! far lives in the receiver between those calls, so a read that is abandoned
//! loses nothing: the next `poll` asks for the same bytes again.

use vstd::prelude::*;
use crate::eio::ErrorKind;
use crate::header::{valid_type_and_flags, FixedHeader, HeaderView, PacketType};
use crate::types::var_byte_int::{is_continuation, is_encoding, max_encodable, value_of, VarByteInt};

verus! {
/// Why no packet could be received.
#[derive(Clone, Copy, Debug, PartialEq, Eq, Structural)]
pub enum ReaderError {
    /// The transport failed to read.
    Read(ErrorKind),
    /// The transport reached the end of the stream inside a packet.
    EOF,
    /// The first header byte names no packet type.
    InvalidPacketType,
    /// The remaining length has a fourth byte that asks for a fifth.
    InvalidVarByteInt,
    /// The body is longer than the buffer.
    BufferExceeded,
}

impl From<ErrorKind> for ReaderError {
    fn from(e: ErrorKind) -> (r: ReaderError)
        ensures
            r == ReaderError::Read(e),
    {
        ReaderError::Read(e)
    }
}

impl vstd::std_specs::convert::FromSpecImpl<ErrorKind> for ReaderError {
    open spec fn obeys_from_spec() -> bool {
        true
    }

    open spec fn from_spec(e: ErrorKind) -> ReaderError {
        ReaderError::Read(e)
    }
}

/// What a receiver holds: the header, once complete, the bytes received since
/// the last reset, and the size of its buffer.
#[verifier::ext_equal]
pub ghost struct ReceiverView {
    pub header: Option<HeaderView>,
    pub filled: Seq<u8>,
    pub capacity: nat,
}

/// A receiver that has received nothing.
pub open spec fn initial(capacity: nat) -> ReceiverView {
    ReceiverView { header: None, filled: Seq::empty(), capacity }
}

/// The states a receiver can be in. Without a header it holds at most four
/// bytes: a first byte that names a packet type, then continuation bytes of
/// the remaining length. With a header it holds no more than the body.
pub open spec fn valid_state(v: ReceiverView) -> bool {
    &&& v.capacity >= 5
    &&& match v.header {
        None => {
            &&& v.filled.len() <= 4
            &&& v.filled.len() >= 1 ==> valid_type_and_flags(v.filled[0])
            &&& forall|j: int| 1 <= j < v.filled.len() ==> is_continuation(#[trigger] v.filled[j])
        },
        Some(h) => {
            &&& valid_type_and_flags(h.type_and_flags)
            &&& h.remaining_len <= max_encodable()
            &&& if h.remaining_len <= v.capacity {
                v.filled.len() <= h.remaining_len
            } else {
                v.filled.len() == 0
            }
        },
    }
}

/// A whole packet is buffered.
pub open spec fn ready(v: ReceiverView) -> bool {
    v.header matches Some(h) && h.remaining_len <= v.capacity && v.filled.len() == h.remaining_len
}

/// The header announces a body that the buffer cannot hold.
pub open spec fn exceeded(v: ReceiverView) -> bool {
    v.header matches Some(h) && h.remaining_len > v.capacity
}

/// More bytes are needed.
pub open spec fn pending(v: ReceiverView) -> bool {
    !ready(v) && !exceeded(v)
}

/// The most bytes that the next read may deliver: one while the header is
/// incomplete, then what is missing of the body.
pub open spec fn want(v: ReceiverView) -> nat {
    match v.header {
        None => 1,
        Some(h) => if v.filled.len() <= h.remaining_len {
            (h.remaining_len - v.filled.len()) as nat
        } else {
            0
        },
    }
}

/// The effect of one header byte. An invalid first byte and a continuation
/// byte in the last place are errors that discard the partial header. The
/// first length byte without the continuation flag completes the header and
/// empties the buffer for the body.
pub open spec fn header_byte(v: ReceiverView, byte: u8) -> (ReceiverView, Option<ReaderError>) {
    let i = v.filled.len();
    if i == 0 {
        if valid_type_and_flags(byte) {
            (ReceiverView { header: None, filled: seq![byte], capacity: v.capacity }, None)
        } else {
            (initial(v.capacity), Some(ReaderError::InvalidPacketType))
        }
    } else if is_continuation(byte) {
        if i >= 4 {
            (initial(v.capacity), Some(ReaderError::InvalidVarByteInt))
        } else {
            (ReceiverView { header: None, filled: v.filled.push(byte), capacity: v.capacity }, None)
        }
    } else {
        (
            ReceiverView {
                header: Some(
                    HeaderView {
                        type_and_flags: v.filled[0],
                        remaining_len: value_of(v.filled.subrange(1, i as int).push(byte)),
                    },
                ),
                filled: Seq::empty(),
                capacity: v.capacity,
            },
            None,
        )
    }
}

/// The effect of one answer of the transport on a receiver that needs bytes.
/// A failed read changes nothing. An empty read is the end of the stream and
/// discards what was received.
pub open spec fn deliver(v: ReceiverView, read: Result<Seq<u8>, ErrorKind>) -> (
    ReceiverView,
    Option<ReaderError>,
) {
    match read {
        Err(kind) => (v, Some(ReaderError::Read(kind))),
        Ok(chunk) => {
            if chunk.len() == 0 {
                (initial(v.capacity), Some(ReaderError::EOF))
            } else if v.header is None {
                header_byte(v, chunk[0])
            } else {
                (
                    ReceiverView {
                        header: v.header,
                        filled: v.filled + chunk,
                        capacity: v.capacity,
                    },
                    None,
                )
            }
        },
    }
}

/// Where a receiver stands after it was offered a run of bytes.
#[verifier::ext_equal]
pub ghost struct Fed {
    /// The state it ends in.
    pub state: ReceiverView,
    /// The error that stopped it, if one did.
    pub error: Option<ReaderError>,
    /// How many of the bytes it took.
    pub consumed: nat,
}

/// The same outcome after `n` bytes that were taken before.
pub open spec fn after(n: nat, fed: Fed) -> Fed {
    Fed { state: fed.state, error: fed.error, consumed: fed.consumed + n }
}

/// Offers `bytes` to a receiver, as a transport that delivers them in any
/// pieces would. The receiver takes bytes until its packet is complete, an
/// error stops it, or the bytes run out; running out is no end of stream.
pub open spec fn feed_all(v: ReceiverView, bytes: Seq<u8>) -> Fed
    decreases bytes.len(),
{
    if exceeded(v) {
        Fed { state: initial(v.capacity), error: Some(ReaderError::BufferExceeded), consumed: 0 }
    } else if ready(v) || bytes.len() == 0 {
        Fed { state: v, error: None, consumed: 0 }
    } else {
        let (next, error) = deliver(v, Ok(seq![bytes[0]]));
        if error is Some {
            Fed { state: next, error, consumed: 1 }
        } else {
            after(1, feed_all(next, bytes.drop_first()))
        }
    }
}

/// Every delivery leaves a valid state.
pub proof fn lemma_deliver_valid(v: ReceiverView, read: Result<Seq<u8>, ErrorKind>)
    requires
        valid_state(v),
        pending(v),
        read matches Ok(chunk) ==> chunk.len() <= want(v),
    ensures
        valid_state(deliver(v, read).0),
{
    if let Ok(chunk) = read {
        if chunk.len() > 0 && v.header is None {
            let byte = chunk[0];
            let i = v.filled.len() as int;
            if i > 0 && !is_continuation(byte) {
                let length = v.filled.subrange(1, i).push(byte);
                crate::types::var_byte_int::lemma_encoding_minimal(length);
            }
        }
    }
}

/// A piece delivered at once has the effect of its bytes delivered one
/// after the other.
pub proof fn lemma_feed_chunk(v: ReceiverView, bytes: Seq<u8>, n: nat)
    requires
        pending(v),
        1 <= n <= bytes.len(),
        n <= want(v),
    ensures
        ({
            let (next, error) = deliver(v, Ok(bytes.take(n as int)));
            feed_all(v, bytes) == if error is Some {
                Fed { state: next, error, consumed: n }
            } else {
                after(n, feed_all(next, bytes.skip(n as int)))
            }
        }),
    decreases n,
{
    let first = seq![bytes[0]];
    let one = deliver(v, Ok(first)).0;
    if v.header is None || n == 1 {
        assert(bytes.take(1) =~= first);
    } else {
        let rest = bytes.drop_first();
        let m = (n - 1) as nat;
        lemma_feed_chunk(one, rest, m);
        assert(rest.skip(m as int) =~= bytes.skip(n as int));
        let next = deliver(v, Ok(bytes.take(n as int))).0;
        assert(next =~= deliver(one, Ok(rest.take(m as int))).0);
    }
}

/// Receiving does not depend on how the stream is cut: a receiver that took
/// all of `a` without error and is then offered `b` stands where one that
/// was offered `a + b` in one piece stands.
pub proof fn lemma_feed_split(v: ReceiverView, a: Seq<u8>, b: Seq<u8>)
    requires
        feed_all(v, a).error is None,
        feed_all(v, a).consumed == a.len(),
    ensures
        feed_all(v, a + b) == after(a.len(), feed_all(feed_all(v, a).state, b)),
    decreases a.len(),
{
    if a.len() > 0 {
        let next = deliver(v, Ok(seq![a[0]])).0;
        assert((a + b).drop_first() =~= a.drop_first() + b);
        lemma_feed_split(next, a.drop_first(), b);
    }
}

/// Bytes behind the point where a receiver stopped change nothing.
pub proof fn lemma_feed_stops(v: ReceiverView, a: Seq<u8>, b: Seq<u8>)
    requires
        feed_all(v, a).error is Some || feed_all(v, a).consumed < a.len(),
    ensures
        feed_all(v, a + b) == feed_all(v, a),
    decreases a.len(),
{
    if !exceeded(v) && !ready(v) && a.len() > 0 {
        let (next, error) = deliver(v, Ok(seq![a[0]]));
        assert((a + b).drop_first() =~= a.drop_first() + b);
        if error is None {
            lemma_feed_stops(next, a.drop_first(), b);
        }
    }
}

proof fn lemma_feed_length_bytes(tf: u8, length: Seq<u8>, k: nat, capacity: nat)
    requires
        is_encoding(length),
        k < length.len(),
    ensures
        feed_all(
            ReceiverView { header: None, filled: seq![tf] + length.take(k as int), capacity },
            length.skip(k as int),
        ) == ({
            let header = HeaderView { type_and_flags: tf, remaining_len: value_of(length) };
            let state = ReceiverView { header: Some(header), filled: Seq::empty(), capacity };
            if value_of(length) <= capacity {
                Fed { state, error: None, consumed: (length.len() - k) as nat }
            } else {
                Fed {
                    state: initial(capacity),
                    error: Some(ReaderError::BufferExceeded),
                    consumed: (length.len() - k) as nat,
                }
            }
        }),
    decreases length.len() - k,
{
    let v = ReceiverView { header: None, filled: seq![tf] + length.take(k as int), capacity };
    let bytes = length.skip(k as int);
    let byte = length[k as int];
    let i = v.filled.len() as int;
    if k + 1 < length.len() {
        assert(v.filled.push(byte) =~= seq![tf] + length.take(k as int + 1));
        assert(bytes.drop_first() =~= length.skip(k as int + 1));
        lemma_feed_length_bytes(tf, length, k + 1, capacity);
    } else {
        reveal_with_fuel(feed_all, 2);
        assert(v.filled.subrange(1, i).push(byte) =~= length);
    }
}

/// A receiver that is offered a header as it stands on the wire, in
/// whatever pieces, holds that header afterwards, unless its body cannot
/// fit the buffer.
pub proof fn lemma_feed_header(type_and_flags: u8, remaining_len: nat, capacity: nat)
    requires
        valid_type_and_flags(type_and_flags),
        remaining_len <= max_encodable(),
    ensures
        feed_all(initial(capacity), crate::header::header_wire(type_and_flags, remaining_len))
            == ({
            let wire = crate::header::header_wire(type_and_flags, remaining_len);
            let header = HeaderView { type_and_flags, remaining_len };
            let state = ReceiverView { header: Some(header), filled: Seq::empty(), capacity };
            if remaining_len <= capacity {
                Fed { state, error: None, consumed: wire.len() }
            } else {
                Fed {
                    state: initial(capacity),
                    error: Some(ReaderError::BufferExceeded),
                    consumed: wire.len(),
                }
            }
        }),
{
    let length = crate::types::var_byte_int::encoding(remaining_len);
    let wire = crate::header::header_wire(type_and_flags, remaining_len);
    crate::types::var_byte_int::lemma_decode_encode(remaining_len);
    assert(wire.drop_first() =~= length);
    assert(length.skip(0) =~= length);
    lemma_feed_length_bytes(type_and_flags, length, 0, capacity);
}

proof fn lemma_feed_body(v: ReceiverView, bytes: Seq<u8>)
    requires
        v.header matches Some(h) && h.remaining_len <= v.capacity && v.filled.len() + bytes.len()
            <= h.remaining_len,
    ensures
        feed_all(v, bytes) == (Fed {
            state: ReceiverView {
                header: v.header,
                filled: v.filled + bytes,
                capacity: v.capacity,
            },
            error: None,
            consumed: bytes.len(),
        }),
    decreases bytes.len(),
{
    if bytes.len() > 0 {
        let next = deliver(v, Ok(seq![bytes[0]])).0;
        lemma_feed_body(next, bytes.drop_first());
    }
}

/// A packet on the wire is received as its header and its body, however
/// the stream is cut and whatever follows the packet, as long as the body
/// fits the buffer.
pub proof fn lemma_feed_packet(
    type_and_flags: u8,
    body: Seq<u8>,
    tail: Seq<u8>,
    capacity: nat,
)
    requires
        valid_type_and_flags(type_and_flags),
        body.len() <= max_encodable(),
        body.len() <= capacity,
    ensures
        ({
            let wire = crate::header::header_wire(type_and_flags, body.len());
            let header = HeaderView { type_and_flags, remaining_len: body.len() };
            let state = ReceiverView { header: Some(header), filled: body, capacity };
            &&& ready(state)
            &&& feed_all(initial(capacity), wire + body + tail) == (Fed {
                state,
                error: None,
                consumed: wire.len() + body.len(),
            })
        }),
{
    let wire = crate::header::header_wire(type_and_flags, body.len());
    let header = HeaderView { type_and_flags, remaining_len: body.len() };
    let empty = ReceiverView { header: Some(header), filled: Seq::empty(), capacity };
    lemma_feed_header(type_and_flags, body.len(), capacity);
    lemma_feed_split(initial(capacity), wire, body);
    lemma_feed_body(empty, body);
    lemma_feed_split(initial(capacity), wire + body, tail);
}

/// What `poll` found.
pub enum Progress {
    /// The packet is buffered; the token admits its decoding.
    Ready(PacketDecodeToken),
    /// The next read may deliver up to this many bytes.
    Pending(usize),
}

/// Proof that a complete packet with this header is buffered.
pub struct PacketDecodeToken(FixedHeader);

impl View for PacketDecodeToken {
    type V = HeaderView;

    closed spec fn view(&self) -> HeaderView {
        self.0@
    }
}

impl PacketDecodeToken {
    /// A token for a packet with `header`.
    pub fn new(header: FixedHeader) -> (t: PacketDecodeToken)
        ensures
            t@ == header@,
    {
        PacketDecodeToken(header)
    }

    /// The header of the packet.
    pub fn header(&self) -> (h: &FixedHeader)
        ensures
            h@ == self@,
    {
        &self.0
    }
}

/// Receives packets into a borrowed buffer of at least five bytes.
pub struct PacketReceiver<'b> {
    header: Option<FixedHeader>,
    buf: &'b mut [u8],
    initialized: usize,
}

impl<'b> View for PacketReceiver<'b> {
    type V = ReceiverView;

    closed spec fn view(&self) -> ReceiverView {
        ReceiverView {
            header: match self.header {
                None => None,
                Some(h) => Some(h@),
            },
            filled: self.buf@.take(self.initialized as int),
            capacity: self.buf@.len(),
        }
    }
}

impl<'b> PacketReceiver<'b> {
    /// The receiver's fields are consistent and its state is valid.
    pub closed spec fn wf(&self) -> bool {
        &&& self.initialized <= self.buf@.len()
        &&& valid_state(self@)
    }

    /// A well-formed receiver is in a valid state that holds no more than
    /// its buffer can.
    pub proof fn lemma_wf(&self)
        requires
            self.wf(),
        ensures
            valid_state(self@),
            self@.filled.len() <= self@.capacity,
    {
    }

    /// A receiver over `buf` that has received nothing.
    pub fn new(buf: &'b mut [u8]) -> (r: PacketReceiver<'b>)
        requires
            old(buf)@.len() >= 5,
        ensures
            r.wf(),
            r@ == initial(old(buf)@.len()),
    {
        let r = PacketReceiver { header: None, buf, initialized: 0 };
        r
    }

    /// The header of the packet in reception, once it is complete.
    pub fn header(&self) -> (h: Option<FixedHeader>)
        ensures
            match h {
                Some(h) => self@.header == Some(h@),
                None => self@.header is None,
            },
    {
        self.header
    }

    /// The number of bytes received since the last reset.
    pub fn initialized(&self) -> (n: usize)
        requires
            self.wf(),
        ensures
            n == self@.filled.len(),
    {
        self.initialized
    }

    /// The size of the buffer.
    pub fn capacity(&self) -> (n: usize)
        ensures
            n == self@.capacity,
    {
        self.buf.len()
    }

    fn reset(&mut self)
        requires
            old(self).buf@.len() >= 5,
        ensures
            final(self).wf(),
            final(self)@ == initial(old(self)@.capacity),
    {
        self.header = None;
        self.initialized = 0;
    }

    /// Says what is needed to complete the packet. A body that the buffer
    /// cannot hold is an error that discards the header.
    pub fn poll(&mut self) -> (r: Result<Progress, ReaderError>)
        requires
            old(self).wf(),
        ensures
            final(self).wf(),
            match r {
                Ok(Progress::Ready(token)) => {
                    &&& ready(old(self)@)
                    &&& Some(token@) == old(self)@.header
                    &&& final(self)@ == old(self)@
                },
                Ok(Progress::Pending(n)) => {
                    &&& pending(old(self)@)
                    &&& n == want(old(self)@)
                    &&& n >= 1
                    &&& final(self)@ == old(self)@
                },
                Err(e) => {
                    &&& exceeded(old(self)@)
                    &&& e == ReaderError::BufferExceeded
                    &&& final(self)@ == initial(old(self)@.capacity)
                },
            },
    {
        match self.header {
            None => Ok(Progress::Pending(1)),
            Some(header) => {
                let remaining_len: usize = header.remaining_len.size();
                if remaining_len > self.buf.len() {
                    self.reset();
                    Err(ReaderError::BufferExceeded)
                } else if self.initialized == remaining_len {
                    Ok(Progress::Ready(PacketDecodeToken::new(header)))
                } else {
                    Ok(Progress::Pending(remaining_len - self.initialized))
                }
            },
        }
    }

    /// Takes one byte of the header, received at the offset that `poll`
    /// asked for, and judges it at once.
    fn try_read_header(&mut self, byte: u8) -> (r: Result<(), ReaderError>)
        requires
            old(self).wf(),
            old(self)@.header is None,
        ensures
            final(self).wf(),
            final(self)@ == header_byte(old(self)@, byte).0,
            match r {
                Ok(()) => header_byte(old(self)@, byte).1 is None,
                Err(e) => header_byte(old(self)@, byte).1 == Some(e),
            },
    {
        let i: usize = self.initialized;
        let ghost before = self@;
        if i == 0 {
            if PacketType::from_type_and_flags(byte).is_err() {
                self.reset();
                return Err(ReaderError::InvalidPacketType);
            }
            self.buf[0] = byte;
            self.initialized = 1;
            return Ok(());
        }
        if byte >= 128 {
            if i == 4 {
                self.reset();
                return Err(ReaderError::InvalidVarByteInt);
            }
            self.buf[i] = byte;
            self.initialized = i + 1;
            assert(self@.filled =~= before.filled.push(byte));
            return Ok(());
        }
        self.buf[i] = byte;
        let type_and_flags: u8 = self.buf[0];
        let length = vstd::slice::slice_subrange(&*self.buf, 1, i + 1);
        proof {
            assert(length@ =~= before.filled.subrange(1, i as int).push(byte));
        }
        let remaining_len = VarByteInt::from_slice_unchecked(length);
        proof {
            crate::types::var_byte_int::lemma_encoding_minimal(length@);
        }
        self.initialized = 0;
        self.header = Some(FixedHeader { type_and_flags, remaining_len });
        Ok(())
    }

    /// Takes the outcome of the read that `poll` asked for: the bytes that
    /// the transport delivered, none at the end of the stream, or the kind
    /// of its failure.
    pub fn advance(&mut self, read: Result<&[u8], ErrorKind>) -> (r: Result<(), ReaderError>)
        requires
            old(self).wf(),
            pending(old(self)@),
            read matches Ok(chunk) ==> chunk@.len() <= want(old(self)@),
        ensures
            final(self).wf(),
            final(self)@ == deliver(old(self)@, spec_read(read)).0,
            match r {
                Ok(()) => deliver(old(self)@, spec_read(read)).1 is None,
                Err(e) => deliver(old(self)@, spec_read(read)).1 == Some(e),
            },
    {
        let chunk = match read {
            Err(kind) => {
                return Err(ReaderError::Read(kind));
            },
            Ok(chunk) => chunk,
        };
        if chunk.len() == 0 {
            self.reset();
            return Err(ReaderError::EOF);
        }
        if self.header.is_none() {
            return self.try_read_header(chunk[0]);
        }
        let ghost before = self@;
        let start: usize = self.initialized;
        let capacity: usize = self.buf.len();
        let mut k: usize = 0;
        while k < chunk.len()
            invariant
                k <= chunk@.len(),
                capacity == self.buf@.len(),
                start + chunk@.len() <= self.buf@.len(),
                self.initialized == start,
                self.header == old(self).header,
                self.buf@.len() == before.capacity,
                self.buf@.take(start as int) == before.filled,
                self.buf@.subrange(start as int, start + k) == chunk@.take(k as int),
            decreases chunk@.len() - k,
        {
            self.buf[start + k] = chunk[k];
            k = k + 1;
        }
        self.initialized = start + chunk.len();
        proof {
            assert(chunk@.take(chunk@.len() as int) =~= chunk@);
        }
        Ok(())
    }

    /// Receives from bytes that are at hand, as many as the packet still
    /// needs, and says how many it took. `Ok(None)` asks for more bytes.
    pub fn feed(&mut self, bytes: &[u8]) -> (r: (usize, Result<Option<PacketDecodeToken>, ReaderError>))
        requires
            old(self).wf(),
        ensures
            final(self).wf(),
            final(self)@ == feed_all(old(self)@, bytes@).state,
            r.0 == feed_all(old(self)@, bytes@).consumed,
            r.0 <= bytes@.len(),
            match r.1 {
                Ok(Some(token)) => {
                    &&& feed_all(old(self)@, bytes@).error is None
                    &&& ready(final(self)@)
                    &&& final(self)@.header == Some(token@)
                },
                Ok(None) => {
                    &&& feed_all(old(self)@, bytes@).error is None
                    &&& pending(final(self)@)
                    &&& r.0 == bytes@.len()
                },
                Err(e) => feed_all(old(self)@, bytes@).error == Some(e),
            },
    {
        let mut i: usize = 0;
        proof {
            assert(bytes@.skip(0) =~= bytes@);
        }
        loop
            invariant
                self.wf(),
                i <= bytes@.len(),
                feed_all(old(self)@, bytes@) == after(i as nat, feed_all(self@, bytes@.skip(i as int))),
            decreases bytes@.len() - i,
        {
            let ghost before = self@;
            let ghost rest = bytes@.skip(i as int);
            match self.poll() {
                Err(e) => {
                    return (i, Err(e));
                },
                Ok(Progress::Ready(token)) => {
                    return (i, Ok(Some(token)));
                },
                Ok(Progress::Pending(want)) => {
                    if i == bytes.len() {
                        return (i, Ok(None));
                    }
                    let left: usize = bytes.len() - i;
                    let n: usize = if want < left {
                        want
                    } else {
                        left
                    };
                    let chunk = vstd::slice::slice_subrange(bytes, i, i + n);
                    proof {
                        assert(rest.skip(n as int) =~= bytes@.skip(i + n));
                        lemma_feed_chunk(before, rest, n as nat);
                    }
                    match self.advance(Ok(chunk)) {
                        Err(e) => {
                            return (i + n, Err(e));
                        },
                        Ok(()) => {
                            i = i + n;
                        },
                    }
                },
            }
        }
    }

    /// Whether `token` stands for the packet that is buffered now.
    pub fn holds(&self, token: &PacketDecodeToken) -> (b: bool)
        requires
            self.wf(),
        ensures
            b == (ready(self@) && self@.header == Some(token@)),
    {
        match self.header {
            None => false,
            Some(header) => {
                proof {
                    if header@ == token@ {
                        crate::types::var_byte_int::lemma_same_value(
                            header.remaining_len,
                            token.0.remaining_len,
                        );
                    }
                }
                header.type_and_flags == token.0.type_and_flags && header.remaining_len.value()
                    == token.0.remaining_len.value() && header.remaining_len.size()
                    <= self.buf.len() && header.remaining_len.size() == self.initialized
            },
        }
    }

    /// Hands the buffered body to a decoder and makes the receiver ready for
    /// the next packet. The body stays in place for as long as the decoder
    /// lives.
    pub fn into_decoder(&mut self, token: PacketDecodeToken) -> (d: PacketDecoder<'_>)
        requires
            old(self).wf(),
            ready(old(self)@),
            old(self)@.header == Some(token@),
        ensures
            d.spec_header()@ == token@,
            d.remaining() == old(self)@.filled,
            final(self).wf(),
            final(self)@ == initial(old(self)@.capacity),
    {
        let len: usize = self.initialized;
        self.header = None;
        self.initialized = 0;
        let body = vstd::slice::slice_subrange(&*self.buf, 0, len);
        PacketDecoder::new(token, body)
    }
}

/// The outcome of a read as plain values.
pub open spec fn spec_read(read: Result<&[u8], ErrorKind>) -> Result<Seq<u8>, ErrorKind> {
    match read {
        Ok(chunk) => Ok(chunk@),
        Err(kind) => Err(kind),
    }
}

/// A request for more bytes than the body still holds.
#[derive(Clone, Copy, Debug, PartialEq, Eq, Structural)]
pub struct InsufficientLen;

/// A cursor over the body of one received packet. It hands out parts of the
/// buffer itself and only ever moves forward.
pub struct PacketDecoder<'d> {
    header: FixedHeader,
    buf: &'d [u8],
    pos: usize,
}

impl<'d> PacketDecoder<'d> {
    #[verifier::type_invariant]
    spec fn in_bounds(self) -> bool {
        self.pos <= self.buf@.len()
    }

    /// The header of the packet.
    pub closed spec fn spec_header(&self) -> FixedHeader {
        self.header
    }

    /// The bytes of the body that have not been taken yet.
    pub closed spec fn remaining(&self) -> Seq<u8> {
        self.buf@.skip(self.pos as int)
    }

    /// A decoder at the start of `buf`, the body that `token` stands for.
    pub fn new(token: PacketDecodeToken, buf: &'d [u8]) -> (d: PacketDecoder<'d>)
        ensures
            d.spec_header()@ == token@,
            d.remaining() == buf@,
    {
        let PacketDecodeToken(header) = token;
        let d = PacketDecoder { header, buf, pos: 0 };
        d
    }

    /// The header of the packet.
    pub fn header(&self) -> (h: &FixedHeader)
        ensures
            *h == self.spec_header(),
    {
        &self.header
    }

    /// The bytes not taken yet, which stay where they are.
    pub fn peek(&self) -> (bytes: &'d [u8])
        ensures
            bytes@ == self.remaining(),
    {
        proof {
            use_type_invariant(self);
        }
        let bytes = vstd::slice::slice_subrange(self.buf, self.pos, self.buf.len());
        bytes
    }

    /// The number of bytes not taken yet.
    pub fn remaining_len(&self) -> (n: usize)
        ensures
            n == self.remaining().len(),
    {
        proof {
            use_type_invariant(self);
        }
        self.buf.len() - self.pos
    }

    /// Moves past the next `len` bytes, if the body has that many left.
    /// Otherwise nothing moves.
    pub fn skip(&mut self, len: usize) -> (r: Result<(), InsufficientLen>)
        ensures
            final(self).spec_header() == old(self).spec_header(),
            len <= old(self).remaining().len() ==> r is Ok && final(self).remaining() == old(
                self,
            ).remaining().skip(len as int),
            len > old(self).remaining().len() ==> r is Err && final(self).remaining() == old(
                self,
            ).remaining(),
    {
        proof {
            use_type_invariant(&*self);
        }
        if len > self.buf.len() - self.pos {
            Err(InsufficientLen)
        } else {
            self.pos = self.pos + len;
            Ok(())
        }
    }

    /// Takes the next `len` bytes out of the buffer, without copying them,
    /// if the body has that many left. Otherwise nothing moves.
    pub fn take_bytes(&mut self, len: usize) -> (r: Result<&'d [u8], InsufficientLen>)
        ensures
            final(self).spec_header() == old(self).spec_header(),
            len <= old(self).remaining().len() ==> r is Ok && r->Ok_0@ == old(
                self,
            ).remaining().take(len as int) && final(self).remaining() == old(
                self,
            ).remaining().skip(len as int),
            len > old(self).remaining().len() ==> r is Err && final(self).remaining() == old(
                self,
            ).remaining(),
    {
        proof {
            use_type_invariant(&*self);
        }
        if len > self.buf.len() - self.pos {
            Err(InsufficientLen)
        } else {
            let end: usize = self.pos + len;
            let bytes = vstd::slice::slice_subrange(self.buf, self.pos, end);
            self.pos = end;
            Ok(bytes)
        }
    }
}
} // verus!
