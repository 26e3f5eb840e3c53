//! The format's laws.
//!
//! Each public lemma here states a property of the wire format that
//! holds for every value, over the same specification functions the
//! encoder's and decoders' contracts use: what an encoder appends is
//! exactly what a decoder splits back off (with any trailing bytes
//! untouched), every encoding is 4-byte aligned, and padding is zero.

use vstd::prelude::*;

use crate::wire::{
    dec_i32, dec_i64, dec_padded, dec_u32, dec_u64, dec_var_opaque, enc_bool, enc_i32, enc_i64,
    enc_padded, enc_u32, enc_u64, enc_var_opaque, pad_len, word32, word64,
};
use vstd::utf8::{decode_utf8, encode_utf8, is_scalar, valid_utf8};

verus! {

/// Reading four big-endian bytes of `v` back as a word gives `v`.
proof fn lemma_word32_of_enc(v: u32)
    by (bit_vector)
    ensures
        word32((v >> 24) as u8, (v >> 16) as u8, (v >> 8) as u8, v as u8) == v,
{
}

/// Reading eight big-endian bytes of `v` back as a word gives `v`.
proof fn lemma_word64_of_enc(v: u64)
    by (bit_vector)
    ensures
        word64(
            (v >> 56) as u8,
            (v >> 48) as u8,
            (v >> 40) as u8,
            (v >> 32) as u8,
            (v >> 24) as u8,
            (v >> 16) as u8,
            (v >> 8) as u8,
            v as u8,
        ) == v,
{
}

/// A signed 32-bit value survives the trip through its unsigned bits.
proof fn lemma_i32_cast(v: i32)
    by (bit_vector)
    ensures
        ((v as u32) as i32) == v,
{
}

/// A signed hyper value survives the trip through its unsigned bits.
proof fn lemma_i64_cast(v: i64)
    by (bit_vector)
    ensures
        ((v as u64) as i64) == v,
{
}

/// Widening a narrow unsigned value and truncating back is identity.
proof fn lemma_u8_cast(v: u8)
    by (bit_vector)
    ensures
        ((v as u32) as u8) == v,
{
}

/// Widening a narrow unsigned value and truncating back is identity.
proof fn lemma_u16_cast(v: u16)
    by (bit_vector)
    ensures
        ((v as u32) as u16) == v,
{
}

/// Sign-extending a narrow signed value and truncating back is
/// identity.
proof fn lemma_i8_cast(v: i8)
    by (bit_vector)
    ensures
        ((v as i32) as i8) == v,
{
}

/// Sign-extending a narrow signed value and truncating back is
/// identity.
proof fn lemma_i16_cast(v: i16)
    by (bit_vector)
    ensures
        ((v as i32) as i16) == v,
{
}

/// The padding after `n` payload bytes is at most three bytes and
/// completes a 4-byte block.
pub proof fn lemma_pad_len(n: int)
    requires
        n >= 0,
    ensures
        0 <= pad_len(n) < 4,
        (n + pad_len(n)) % 4 == 0,
{
}

/// Every encoding occupies a multiple of four bytes: the fixed blocks
/// by their size, padded opaque data by construction, and
/// variable-length opaque data including its count prefix.
pub proof fn lemma_encodings_aligned(v32: u32, v64: u64, b: Seq<u8>)
    ensures
        enc_u32(v32).len() == 4,
        enc_u64(v64).len() == 8,
        enc_padded(b).len() == b.len() + pad_len(b.len() as int),
        enc_padded(b).len() % 4 == 0,
        b.len() <= u32::MAX ==> enc_var_opaque(b).len() == 4 + b.len() + pad_len(b.len() as int),
        b.len() <= u32::MAX ==> enc_var_opaque(b).len() % 4 == 0,
{
    lemma_pad_len(b.len() as int);
}

/// Padded opaque data carries its payload unchanged, and every byte of
/// the padding region is zero.
pub proof fn lemma_padding_zero(b: Seq<u8>)
    ensures
        enc_padded(b).take(b.len() as int) == b,
        forall|i: int| b.len() <= i < enc_padded(b).len() ==> enc_padded(b)[i] == 0u8,
{
    assert(enc_padded(b).take(b.len() as int) =~= b);
}

/// Decoding an encoded unsigned integer yields the value back and
/// leaves any trailing bytes unread.
pub proof fn lemma_u32_round_trip(v: u32, rest: Seq<u8>)
    ensures
        dec_u32(enc_u32(v) + rest) == Some((v, rest)),
{
    let s = enc_u32(v) + rest;
    lemma_word32_of_enc(v);
    assert(s.skip(4) =~= rest);
}

/// Decoding an encoded signed integer yields the value back.
pub proof fn lemma_i32_round_trip(v: i32, rest: Seq<u8>)
    ensures
        dec_i32(enc_i32(v) + rest) == Some((v, rest)),
{
    lemma_u32_round_trip(v as u32, rest);
    lemma_i32_cast(v);
}

/// Decoding an encoded unsigned hyper integer yields the value back.
pub proof fn lemma_u64_round_trip(v: u64, rest: Seq<u8>)
    ensures
        dec_u64(enc_u64(v) + rest) == Some((v, rest)),
{
    let s = enc_u64(v) + rest;
    lemma_word64_of_enc(v);
    assert(s.skip(8) =~= rest);
}

/// Decoding an encoded signed hyper integer yields the value back.
pub proof fn lemma_i64_round_trip(v: i64, rest: Seq<u8>)
    ensures
        dec_i64(enc_i64(v) + rest) == Some((v, rest)),
{
    lemma_u64_round_trip(v as u64, rest);
    lemma_i64_cast(v);
}

/// Decoding an encoded boolean yields its wire tag, which is always 0
/// or 1, so a decoder accepts it and returns the boolean itself.
pub proof fn lemma_bool_round_trip(v: bool, rest: Seq<u8>)
    ensures
        dec_u32(enc_bool(v) + rest) == Some(((if v { 1u32 } else { 0u32 }), rest)),
{
    lemma_u32_round_trip(if v { 1u32 } else { 0u32 }, rest);
}

/// Decoding narrow unsigned values: the 4-byte block holds the value,
/// and truncating back to the narrow width is exact.
pub proof fn lemma_u8_round_trip(v: u8, rest: Seq<u8>)
    ensures
        dec_u32(enc_u32(v as u32) + rest) == Some((v as u32, rest)),
        ((v as u32) as u8) == v,
{
    lemma_u32_round_trip(v as u32, rest);
    lemma_u8_cast(v);
}

/// Decoding narrow unsigned values: truncating back is exact.
pub proof fn lemma_u16_round_trip(v: u16, rest: Seq<u8>)
    ensures
        dec_u32(enc_u32(v as u32) + rest) == Some((v as u32, rest)),
        ((v as u32) as u16) == v,
{
    lemma_u32_round_trip(v as u32, rest);
    lemma_u16_cast(v);
}

/// Decoding narrow signed values: the 4-byte block holds the
/// sign-extended value, and truncating back is exact.
pub proof fn lemma_i8_round_trip(v: i8, rest: Seq<u8>)
    ensures
        dec_i32(enc_i32(v as i32) + rest) == Some((v as i32, rest)),
        ((v as i32) as i8) == v,
{
    lemma_i32_round_trip(v as i32, rest);
    lemma_i8_cast(v);
}

/// Decoding narrow signed values: truncating back is exact.
pub proof fn lemma_i16_round_trip(v: i16, rest: Seq<u8>)
    ensures
        dec_i32(enc_i32(v as i32) + rest) == Some((v as i32, rest)),
        ((v as i32) as i16) == v,
{
    lemma_i32_round_trip(v as i32, rest);
    lemma_i16_cast(v);
}

/// Decoding an encoded character: the 4-byte block holds its scalar
/// value, that value is always a valid Unicode scalar, and no other
/// character shares it.
pub proof fn lemma_char_round_trip(c: char, rest: Seq<u8>)
    ensures
        dec_u32(enc_u32(c as u32) + rest) == Some((c as u32, rest)),
        is_scalar(c as u32),
        forall|c2: char| #[trigger] (c2 as u32) == c as u32 ==> c2 == c,
{
    lemma_u32_round_trip(c as u32, rest);
    vstd::utf8::char_is_scalar(c);
    assert forall|c2: char| #[trigger] (c2 as u32) == c as u32 implies c2 == c by {
        vstd::utf8::char_u32_cast(c, c as u32);
        vstd::utf8::char_u32_cast(c2, c2 as u32);
    }
}

/// Decoding padded opaque data yields the payload back and leaves any
/// trailing bytes unread.
pub proof fn lemma_padded_round_trip(b: Seq<u8>, rest: Seq<u8>)
    ensures
        dec_padded(b.len() as int, enc_padded(b) + rest) == Some((b, rest)),
{
    let n = b.len() as int;
    lemma_pad_len(n);
    let s = enc_padded(b) + rest;
    assert(s.take(n) =~= b);
    assert(s.skip(n + pad_len(n)) =~= rest);
}

/// Decoding variable-length opaque data yields the payload back and
/// leaves any trailing bytes unread.
pub proof fn lemma_var_opaque_round_trip(b: Seq<u8>, rest: Seq<u8>)
    requires
        b.len() <= u32::MAX,
    ensures
        dec_var_opaque(enc_var_opaque(b) + rest) == Some((b, rest)),
{
    let s = enc_var_opaque(b) + rest;
    assert(s =~= enc_u32(b.len() as u32) + (enc_padded(b) + rest));
    lemma_u32_round_trip(b.len() as u32, enc_padded(b) + rest);
    lemma_padded_round_trip(b, rest);
}

/// Fields of an aggregate are concatenated with no prefix, and decode
/// back in order: after the first field of a record is split off,
/// exactly the remaining fields (and any trailing bytes) are left.
pub proof fn lemma_record_round_trip(a: u32, b: Seq<u8>, rest: Seq<u8>)
    requires
        b.len() <= u32::MAX,
    ensures
        match dec_u32(enc_u32(a) + enc_var_opaque(b) + rest) {
            Some(a_rest) => a_rest.0 == a && dec_var_opaque(a_rest.1) == Some((b, rest)),
            None => false,
        },
{
    assert(enc_u32(a) + enc_var_opaque(b) + rest =~= enc_u32(a) + (enc_var_opaque(b) + rest));
    lemma_u32_round_trip(a, enc_var_opaque(b) + rest);
    lemma_var_opaque_round_trip(b, rest);
}

/// Decoding an encoded string: the opaque payload is the string's
/// UTF-8 bytes, those bytes are valid UTF-8, and decoding them gives
/// the original characters back.
pub proof fn lemma_string_round_trip(s: Seq<char>, rest: Seq<u8>)
    requires
        encode_utf8(s).len() <= u32::MAX,
    ensures
        dec_var_opaque(enc_var_opaque(encode_utf8(s)) + rest) == Some((encode_utf8(s), rest)),
        valid_utf8(encode_utf8(s)),
        decode_utf8(encode_utf8(s)) == s,
{
    lemma_var_opaque_round_trip(encode_utf8(s), rest);
    broadcast use vstd::utf8::encode_utf8_valid_utf8, vstd::utf8::encode_utf8_decode_utf8;

}

} // verus!
