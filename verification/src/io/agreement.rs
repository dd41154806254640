//! The two ways of reading agree. A body reader whose stream holds the whole
//! body reads what a decoder reads from the buffered body: the same values,
//! and an error exactly where the decoder has one.

use vstd::prelude::*;
use crate::io::body::{
    take_binary, take_bool, take_exact, take_string, take_u16, take_u32, take_u8,
    take_var_byte_int, BodyView,
};
use crate::io::read::{
    parse_binary, parse_bool, parse_bytes, parse_string, parse_u16, parse_u32, parse_u8,
    parse_var_byte_int, Parsed,
};
use crate::io::err::ReadError;

verus! {
/// The body of a reader whose stream holds all of it.
pub open spec fn buffered(v: BodyView) -> Seq<u8> {
    v.stream.take(v.remaining_len as int)
}

/// Whether a read from a stream and a read from a buffer came out alike.
pub open spec fn alike<V, E>(streamed: Result<V, ReadError<E>>, parsed: Parsed<V>) -> bool {
    match streamed {
        Ok(v) => parsed.result == Ok::<V, crate::io::err::DecodeError>(v),
        Err(_) => parsed.result is Err,
    }
}

/// Bytes are read alike.
pub proof fn lemma_bytes_agree(v: BodyView, n: nat)
    requires
        v.remaining_len <= v.stream.len(),
    ensures
        alike(take_exact(v, n).1, parse_bytes(buffered(v), n)),
{
    if n <= v.remaining_len {
        assert(v.stream.take(n as int) =~= buffered(v).take(n as int));
    }
}

/// A `u8` is read alike.
pub proof fn lemma_u8_agrees(v: BodyView)
    requires
        v.remaining_len <= v.stream.len(),
    ensures
        alike(take_u8(v).1, parse_u8(buffered(v))),
{
}

/// A `u16` is read alike.
pub proof fn lemma_u16_agrees(v: BodyView)
    requires
        v.remaining_len <= v.stream.len(),
    ensures
        alike(take_u16(v).1, parse_u16(buffered(v))),
{
}

/// A `u32` is read alike.
pub proof fn lemma_u32_agrees(v: BodyView)
    requires
        v.remaining_len <= v.stream.len(),
    ensures
        alike(take_u32(v).1, parse_u32(buffered(v))),
{
}

/// A `bool` is read alike.
pub proof fn lemma_bool_agrees(v: BodyView)
    requires
        v.remaining_len <= v.stream.len(),
    ensures
        alike(take_bool(v).1, parse_bool(buffered(v))),
{
}

/// A variable byte integer is read alike.
pub proof fn lemma_var_byte_int_agrees(v: BodyView)
    requires
        v.remaining_len <= v.stream.len(),
    ensures
        alike(take_var_byte_int(v).1, parse_var_byte_int(buffered(v))),
{
}

/// Binary data is read alike into a store that is large enough for it.
pub proof fn lemma_binary_agrees(v: BodyView, space: nat)
    requires
        v.remaining_len <= v.stream.len(),
        space >= 65_535,
    ensures
        alike(take_binary(v, space).1, parse_binary(buffered(v))),
{
    if v.remaining_len >= 2 {
        let len = take_u16(v).1->Ok_0;
        let rest = take_u16(v).0;
        if rest.remaining_len >= len {
            assert(rest.stream.take(len as int) =~= buffered(v).subrange(2, 2 + len));
        }
    }
}

/// A string is read alike into a store that is large enough for it.
pub proof fn lemma_string_agrees(v: BodyView, space: nat)
    requires
        v.remaining_len <= v.stream.len(),
        space >= 65_535,
    ensures
        alike(take_string(v, space).1, parse_string(buffered(v))),
{
    lemma_binary_agrees(v, space);
}
} // verus!
