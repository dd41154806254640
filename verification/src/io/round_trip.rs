//! Reading gives back what writing wrote, whatever follows it in the body.

use vstd::prelude::*;
use vstd::utf8::encode_utf8;
use crate::io::read::{
    parse_binary, parse_bool, parse_string, parse_u16, parse_u32, parse_u8, parse_var_byte_int,
    Parsed,
};
use crate::io::write::{wire_binary, wire_bool, wire_u16, wire_u32};
use crate::types::var_byte_int::{encoded_len, encoding, lemma_scan_encoding, max_encodable};

verus! {
/// A byte is read back as it was written.
pub proof fn lemma_u8_round_trip(v: u8, tail: Seq<u8>)
    ensures
        parse_u8(seq![v] + tail) == (Parsed { result: Ok(v), consumed: 1 }),
{
}

/// A `u16` is read back as it was written.
pub proof fn lemma_u16_round_trip(v: u16, tail: Seq<u8>)
    ensures
        parse_u16(wire_u16(v) + tail) == (Parsed { result: Ok(v), consumed: 2 }),
{
}

/// A `u32` is read back as it was written.
pub proof fn lemma_u32_round_trip(v: u32, tail: Seq<u8>)
    ensures
        parse_u32(wire_u32(v) + tail) == (Parsed { result: Ok(v), consumed: 4 }),
{
}

/// A `bool` is read back as it was written.
pub proof fn lemma_bool_round_trip(v: bool, tail: Seq<u8>)
    ensures
        parse_bool(wire_bool(v) + tail) == (Parsed { result: Ok(v), consumed: 1 }),
{
}

/// A variable byte integer is read back as it was written.
pub proof fn lemma_var_byte_int_round_trip(v: nat, tail: Seq<u8>)
    requires
        v <= max_encodable(),
    ensures
        parse_var_byte_int(encoding(v) + tail) == (Parsed {
            result: Ok(v),
            consumed: encoded_len(v),
        }),
{
    lemma_scan_encoding(v, tail);
}

/// Binary data that a two byte length can count is read back as it was
/// written.
pub proof fn lemma_binary_round_trip(data: Seq<u8>, tail: Seq<u8>)
    requires
        data.len() <= 65_535,
    ensures
        parse_binary(wire_binary(data) + tail) == (Parsed {
            result: Ok(data),
            consumed: 2 + data.len(),
        }),
{
    let bytes = wire_binary(data) + tail;
    let len = data.len() as u16;
    lemma_u16_round_trip(len, data + tail);
    assert(bytes.subrange(2, 2 + len) =~= data);
}

/// Text whose encoding a two byte length can count is read back as it was
/// written.
pub proof fn lemma_string_round_trip(text: Seq<char>, tail: Seq<u8>)
    requires
        encode_utf8(text).len() <= 65_535,
    ensures
        parse_string(wire_binary(encode_utf8(text)) + tail) == (Parsed {
            result: Ok(text),
            consumed: 2 + encode_utf8(text).len(),
        }),
{
    lemma_binary_round_trip(encode_utf8(text), tail);
    vstd::utf8::encode_utf8_valid_utf8(text);
    vstd::utf8::encode_utf8_decode_utf8(text);
}
} // verus!
