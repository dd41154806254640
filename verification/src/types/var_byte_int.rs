//! The variable byte integer: MQTT's 1 to 4 byte length encoding.

use vstd::prelude::*;

verus! {
/// The largest value a variable byte integer can hold, `2^28 - 1`.
pub open spec fn max_encodable() -> nat {
    268_435_455
}

/// Whether a byte announces that another byte follows it.
pub open spec fn is_continuation(byte: u8) -> bool {
    byte >= 128
}

/// The minimal encoding of `v`: seven value bits per byte, least significant
/// group first, the high bit set on every byte but the last.
pub open spec fn encoding(v: nat) -> Seq<u8>
    decreases v,
{
    if v < 128 {
        seq![v as u8]
    } else {
        seq![(128 + v % 128) as u8] + encoding(v / 128)
    }
}

/// The number that the low seven bits of `bytes` spell, least significant
/// group first. Continuation flags are ignored.
pub open spec fn value_of(bytes: Seq<u8>) -> nat
    decreases bytes.len(),
{
    if bytes.len() == 0 {
        0
    } else {
        (bytes[0] % 128) as nat + 128 * value_of(bytes.drop_first())
    }
}

/// A complete encoding: one to four bytes, each a continuation byte except
/// the last.
pub open spec fn is_encoding(bytes: Seq<u8>) -> bool {
    &&& 1 <= bytes.len() <= 4
    &&& !is_continuation(bytes[bytes.len() - 1])
    &&& forall|i: int| 0 <= i < bytes.len() - 1 ==> is_continuation(#[trigger] bytes[i])
}

/// `128^k`.
pub open spec fn pow128(k: nat) -> nat
    decreases k,
{
    if k == 0 {
        1
    } else {
        128 * pow128((k - 1) as nat)
    }
}

/// The number of bytes in the minimal encoding of `v`.
pub open spec fn encoded_len(v: nat) -> nat {
    if v < 128 {
        1
    } else if v < 16_384 {
        2
    } else if v < 2_097_152 {
        3
    } else {
        4
    }
}

proof fn lemma_pow128_values()
    ensures
        pow128(0) == 1,
        pow128(1) == 128,
        pow128(2) == 16_384,
        pow128(3) == 2_097_152,
        pow128(4) == 268_435_456,
{
    reveal_with_fuel(pow128, 5);
}

proof fn lemma_value_bound(bytes: Seq<u8>)
    ensures
        value_of(bytes) < pow128(bytes.len()),
    decreases bytes.len(),
{
    if bytes.len() > 0 {
        lemma_value_bound(bytes.drop_first());
    }
}

proof fn lemma_encoding_shape(v: nat, k: nat)
    requires
        k >= 1,
        v < pow128(k),
    ensures
        1 <= encoding(v).len() <= k,
        !is_continuation(encoding(v).last()),
        forall|i: int| 0 <= i < encoding(v).len() - 1 ==> is_continuation(#[trigger] encoding(v)[i]),
        value_of(encoding(v)) == v,
    decreases v,
{
    if v >= 128 {
        let rest = encoding(v / 128);
        assert(k >= 2) by {
            reveal_with_fuel(pow128, 2);
        }
        lemma_encoding_shape(v / 128, (k - 1) as nat);
        let e = encoding(v);
        assert(e.drop_first() =~= rest);
    } else {
        let e = encoding(v);
        assert(value_of(e) == (e[0] % 128) as nat + 128 * value_of(e.drop_first()));
    }
}

/// Decoding inverts encoding: every value up to the maximum has an encoding
/// that is complete and spells that value.
pub proof fn lemma_decode_encode(v: nat)
    requires
        v <= max_encodable(),
    ensures
        is_encoding(encoding(v)),
        value_of(encoding(v)) == v,
{
    lemma_pow128_values();
    lemma_encoding_shape(v, 4);
}

/// The encoding of a value has exactly as many bytes as its magnitude needs.
pub proof fn lemma_encoding_len(v: nat)
    requires
        v <= max_encodable(),
    ensures
        encoding(v).len() == encoded_len(v),
{
    reveal_with_fuel(encoding, 4);
}

/// No complete encoding of a value is shorter than the one `encoding` gives.
pub proof fn lemma_encoding_minimal(bytes: Seq<u8>)
    requires
        is_encoding(bytes),
    ensures
        value_of(bytes) <= max_encodable(),
        encoded_len(value_of(bytes)) <= bytes.len(),
{
    lemma_pow128_values();
    lemma_value_bound(bytes);
}

/// The number of continuation bytes at the front of `s`.
pub open spec fn continuation_run(s: Seq<u8>) -> nat
    decreases s.len(),
{
    if s.len() == 0 || !is_continuation(s[0]) {
        0
    } else {
        1 + continuation_run(s.drop_first())
    }
}

/// What a decoder that reads `s` from the front, one byte at a time, finds.
pub ghost enum Scan {
    /// A complete encoding of `value` in the first `len` bytes.
    Value { value: nat, len: nat },
    /// The input ended before a byte without the continuation flag.
    Truncated,
    /// Four continuation bytes were followed by a fifth byte.
    Malformed,
}

/// Decoding stops at the first byte without the continuation flag. A fifth
/// byte is never part of an encoding: reaching one is malformed input, while
/// running out of input earlier is only a truncation.
pub open spec fn scan(s: Seq<u8>) -> Scan {
    let k = continuation_run(s);
    if k < s.len() && k < 4 {
        Scan::Value { value: value_of(s.take(k as int + 1)), len: k + 1 }
    } else if s.len() >= 5 {
        Scan::Malformed
    } else {
        Scan::Truncated
    }
}

proof fn lemma_value_push(s: Seq<u8>, b: u8)
    ensures
        value_of(s.push(b)) == value_of(s) + (b % 128) * pow128(s.len()),
    decreases s.len(),
{
    let t = s.push(b);
    if s.len() == 0 {
        assert(value_of(t.drop_first()) == 0);
        assert(pow128(0) == 1);
    } else {
        assert(t.drop_first() =~= s.drop_first().push(b));
        lemma_value_push(s.drop_first(), b);
        assert(128 * ((b % 128) * pow128((s.len() - 1) as nat)) == (b % 128) * pow128(s.len()))
            by (nonlinear_arith)
            requires
                pow128(s.len()) == 128 * pow128((s.len() - 1) as nat),
        ;
        assert(128 * (value_of(s.drop_first()) + (b % 128) * pow128((s.len() - 1) as nat)) == 128
            * value_of(s.drop_first()) + 128 * ((b % 128) * pow128((s.len() - 1) as nat)))
            by (nonlinear_arith);
    }
}

proof fn lemma_run_prefix(s: Seq<u8>, i: nat)
    requires
        i <= s.len(),
        forall|j: int| 0 <= j < i ==> is_continuation(#[trigger] s[j]),
    ensures
        continuation_run(s) >= i,
        i < s.len() && !is_continuation(s[i as int]) ==> continuation_run(s) == i,
        i == s.len() ==> continuation_run(s) == i,
    decreases i,
{
    if i > 0 {
        let t = s.drop_first();
        lemma_run_prefix(t, (i - 1) as nat);
    }
}

/// The scan of a complete encoding, whatever follows it, is the value that
/// the encoding spells and its own length.
pub proof fn lemma_scan_complete(bytes: Seq<u8>, tail: Seq<u8>)
    requires
        is_encoding(bytes),
    ensures
        scan(bytes + tail) == (Scan::Value { value: value_of(bytes), len: bytes.len() }),
{
    let s = bytes + tail;
    let k = (bytes.len() - 1) as nat;
    lemma_run_prefix(s, k);
    assert(s.take(k as int + 1) =~= bytes);
}

/// Decoding what was encoded gives the value back, whatever bytes follow.
pub proof fn lemma_scan_encoding(v: nat, tail: Seq<u8>)
    requires
        v <= max_encodable(),
    ensures
        scan(encoding(v) + tail) == (Scan::Value { value: v, len: encoded_len(v) }),
{
    lemma_decode_encode(v);
    lemma_encoding_len(v);
    lemma_scan_complete(encoding(v), tail);
}

/// Input that opens with five continuation bytes is malformed.
pub proof fn lemma_scan_five_continuations(s: Seq<u8>)
    requires
        s.len() >= 5,
        forall|j: int| 0 <= j < 5 ==> is_continuation(#[trigger] s[j]),
    ensures
        scan(s) == Scan::Malformed,
{
    lemma_run_prefix(s.take(5), 5);
    lemma_run_prefix(s, 5);
}

/// Why a byte sequence could not be decoded.
#[derive(Clone, Copy, Debug, PartialEq, Eq, Structural)]
pub enum VarByteIntError {
    /// The input ended before the encoding did.
    Truncated,
    /// The encoding runs past four bytes.
    Malformed,
}

/// A number that does not fit a variable byte integer.
#[derive(Clone, Copy, Debug, PartialEq, Eq, Structural)]
pub struct TooLarge;

/// An integer in `[0, 268_435_455]`, the range that one to four encoded
/// bytes can express.
#[derive(Clone, Copy, Debug, PartialEq, Eq, Structural)]
pub struct VarByteInt(u32);

impl View for VarByteInt {
    type V = nat;

    closed spec fn view(&self) -> nat {
        self.0 as nat
    }
}

/// Two variable byte integers of one value are the same.
pub proof fn lemma_same_value(a: VarByteInt, b: VarByteInt)
    requires
        a@ == b@,
    ensures
        a == b,
{
}

impl VarByteInt {
    /// The largest value that can be encoded.
    pub const MAX_ENCODABLE: u32 = 268_435_455;

    #[verifier::type_invariant]
    spec fn in_range(self) -> bool {
        self.0 <= 268_435_455
    }

    /// The value as a `u32`.
    pub fn value(&self) -> (v: u32)
        ensures
            v == self@,
            v <= max_encodable(),
    {
        proof {
            use_type_invariant(self);
        }
        self.0
    }

    /// The value as a `usize`, for use as a length.
    pub fn size(&self) -> (n: usize)
        ensures
            n == self@,
            n <= max_encodable(),
    {
        proof {
            use_type_invariant(self);
        }
        self.0 as usize
    }

    /// The value `v` if it is in range.
    pub fn new(v: u32) -> (r: Result<VarByteInt, TooLarge>)
        ensures
            v <= max_encodable() ==> r is Ok && r->Ok_0@ == v,
            v > max_encodable() ==> r is Err,
    {
        if v <= 268_435_455 {
            Ok(VarByteInt(v))
        } else {
            Err(TooLarge)
        }
    }

    /// The number of bytes that `encode` produces, between 1 and 4.
    pub fn written_len(&self) -> (n: usize)
        ensures
            n == encoded_len(self@),
            n == encoding(self@).len(),
            1 <= n <= 4,
    {
        proof {
            use_type_invariant(self);
            lemma_encoding_len(self@);
        }
        if self.0 < 128 {
            1
        } else if self.0 < 16_384 {
            2
        } else if self.0 < 2_097_152 {
            3
        } else {
            4
        }
    }

    /// The minimal encoding of the value.
    pub fn encode(&self) -> (out: Vec<u8>)
        ensures
            out@ == encoding(self@),
            is_encoding(out@),
            value_of(out@) == self@,
            out@.len() == encoded_len(self@),
    {
        proof {
            use_type_invariant(self);
            lemma_decode_encode(self@);
            lemma_encoding_len(self@);
        }
        let mut out: Vec<u8> = Vec::new();
        let mut rest: u32 = self.0;
        while rest >= 128
            invariant
                encoding(self@) == out@ + encoding(rest as nat),
            decreases rest,
        {
            let byte: u8 = (128 + rest % 128) as u8;
            out.push(byte);
            rest = rest / 128;
        }
        out.push(rest as u8);
        out
    }

    /// The value that a complete encoding spells.
    pub fn from_slice_unchecked(bytes: &[u8]) -> (v: VarByteInt)
        requires
            is_encoding(bytes@),
        ensures
            v@ == value_of(bytes@),
    {
        let mut value: u32 = 0;
        let mut weight: u32 = 1;
        let mut i: usize = 0;
        proof {
            lemma_pow128_values();
        }
        while i < bytes.len()
            invariant
                i <= bytes@.len() <= 4,
                value == value_of(bytes@.take(i as int)),
                value < pow128(i as nat),
                i < 4 ==> weight == pow128(i as nat),
            decreases bytes@.len() - i,
        {
            let byte: u8 = bytes[i];
            proof {
                lemma_pow128_values();
                lemma_value_push(bytes@.take(i as int), byte);
                assert(bytes@.take(i as int).push(byte) =~= bytes@.take(i + 1));
                lemma_value_bound(bytes@.take(i + 1));
                assert((byte % 128) * weight <= 127 * weight) by (nonlinear_arith)
                    requires
                        byte % 128 <= 127,
                ;
            }
            value = value + (byte % 128) as u32 * weight;
            if i < 3 {
                weight = weight * 128;
            }
            i = i + 1;
        }
        proof {
            lemma_pow128_values();
            assert(bytes@.take(i as int) =~= bytes@);
        }
        VarByteInt(value)
    }

    /// The value of `bytes` if they are exactly one complete encoding.
    pub fn from_slice(bytes: &[u8]) -> (r: Option<VarByteInt>)
        ensures
            r is Some <==> is_encoding(bytes@),
            r matches Some(v) ==> v@ == value_of(bytes@),
    {
        let n: usize = bytes.len();
        if n == 0 || n > 4 {
            return None;
        }
        let mut i: usize = 0;
        while i < n - 1
            invariant
                1 <= n <= 4,
                n == bytes@.len(),
                i <= n - 1,
                forall|j: int| 0 <= j < i ==> is_continuation(#[trigger] bytes@[j]),
            decreases n - i,
        {
            if bytes[i] < 128 {
                return None;
            }
            i = i + 1;
        }
        if bytes[n - 1] >= 128 {
            return None;
        }
        Some(Self::from_slice_unchecked(bytes))
    }

    /// Decodes from the front of `bytes`, reading one byte at a time, and
    /// says how many bytes the encoding took.
    pub fn decode(bytes: &[u8]) -> (r: Result<(VarByteInt, usize), VarByteIntError>)
        ensures
            match scan(bytes@) {
                Scan::Value { value, len } => r matches Ok((v, n)) && v@ == value && n == len,
                Scan::Truncated => r == Err::<(VarByteInt, usize), _>(VarByteIntError::Truncated),
                Scan::Malformed => r == Err::<(VarByteInt, usize), _>(VarByteIntError::Malformed),
            },
    {
        let mut i: usize = 0;
        while i < bytes.len() && i < 4
            invariant
                i <= bytes@.len(),
                i <= 4,
                forall|j: int| 0 <= j < i ==> is_continuation(#[trigger] bytes@[j]),
            decreases 4 - i,
        {
            if bytes[i] < 128 {
                proof {
                    lemma_run_prefix(bytes@, i as nat);
                }
                let head = vstd::slice::slice_subrange(bytes, 0, i + 1);
                return Ok((Self::from_slice_unchecked(head), i + 1));
            }
            i = i + 1;
        }
        proof {
            lemma_run_prefix(bytes@, i as nat);
        }
        if bytes.len() >= 5 {
            Err(VarByteIntError::Malformed)
        } else {
            Err(VarByteIntError::Truncated)
        }
    }
}

impl From<u8> for VarByteInt {
    fn from(v: u8) -> (r: VarByteInt)
        ensures
            r@ == v,
    {
        VarByteInt(v as u32)
    }
}

impl vstd::std_specs::convert::FromSpecImpl<u8> for VarByteInt {
    open spec fn obeys_from_spec() -> bool {
        true
    }

    closed spec fn from_spec(v: u8) -> VarByteInt {
        VarByteInt(v as u32)
    }
}

impl From<u16> for VarByteInt {
    fn from(v: u16) -> (r: VarByteInt)
        ensures
            r@ == v,
    {
        VarByteInt(v as u32)
    }
}

impl vstd::std_specs::convert::FromSpecImpl<u16> for VarByteInt {
    open spec fn obeys_from_spec() -> bool {
        true
    }

    closed spec fn from_spec(v: u16) -> VarByteInt {
        VarByteInt(v as u32)
    }
}

impl TryFrom<u32> for VarByteInt {
    type Error = TooLarge;

    fn try_from(v: u32) -> (r: Result<VarByteInt, TooLarge>)
        ensures
            v <= max_encodable() ==> r is Ok && r->Ok_0@ == v,
            v > max_encodable() ==> r is Err,
    {
        if v <= 268_435_455 {
            Ok(VarByteInt(v))
        } else {
            Err(TooLarge)
        }
    }
}

impl vstd::std_specs::convert::TryFromSpecImpl<u32> for VarByteInt {
    open spec fn obeys_try_from_spec() -> bool {
        true
    }

    closed spec fn try_from_spec(v: u32) -> Result<VarByteInt, TooLarge> {
        if v <= 268_435_455 {
            Ok(VarByteInt(v))
        } else {
            Err(TooLarge)
        }
    }
}
} // verus!
