//! The XDR wire format, as specification functions.
//!
//! Every contract in this crate is stated over these functions. The
//! encode side maps a value to the exact byte sequence RFC 4506 gives
//! it; the decode side (`dec_*`) maps a byte stream to the first value
//! it holds and the unread tail, or to `None` when the stream is too
//! short.

use vstd::prelude::*;

verus! {

/// Zero bytes needed to bring `n` payload bytes to a 4-byte boundary.
pub open spec fn pad_len(n: int) -> int {
    (4 - n % 4) % 4
}

/// The number of zero bytes that follow `n` data bytes on the wire:
/// every XDR item occupies a multiple of four bytes, so a payload of
/// `n` bytes is completed with `padding_for(n)` zeros.
pub fn padding_for(n: usize) -> (r: usize)
    ensures
        r == pad_len(n as int),
        (n + r) % 4 == 0,
{
    let rem: usize = n % 4;
    if rem == 0 {
        0
    } else {
        4 - rem
    }
}

/// A run of `n` zero bytes.
pub open spec fn zeros(n: int) -> Seq<u8> {
    Seq::new(n as nat, |i: int| 0u8)
}

/// The 4-byte big-endian encoding of an unsigned 32-bit integer.
pub open spec fn enc_u32(v: u32) -> Seq<u8> {
    seq![(v >> 24) as u8, (v >> 16) as u8, (v >> 8) as u8, v as u8]
}

/// The unsigned 32-bit integer read from four big-endian bytes.
pub open spec fn word32(b0: u8, b1: u8, b2: u8, b3: u8) -> u32 {
    ((b0 as u32) << 24) | ((b1 as u32) << 16) | ((b2 as u32) << 8) | (b3 as u32)
}

/// The 8-byte big-endian encoding of an unsigned 64-bit integer.
pub open spec fn enc_u64(v: u64) -> Seq<u8> {
    seq![
        (v >> 56) as u8,
        (v >> 48) as u8,
        (v >> 40) as u8,
        (v >> 32) as u8,
        (v >> 24) as u8,
        (v >> 16) as u8,
        (v >> 8) as u8,
        v as u8,
    ]
}

/// The unsigned 64-bit integer read from eight big-endian bytes.
pub open spec fn word64(b0: u8, b1: u8, b2: u8, b3: u8, b4: u8, b5: u8, b6: u8, b7: u8) -> u64 {
    ((b0 as u64) << 56) | ((b1 as u64) << 48) | ((b2 as u64) << 40) | ((b3 as u64) << 32)
        | ((b4 as u64) << 24) | ((b5 as u64) << 16) | ((b6 as u64) << 8) | (b7 as u64)
}

/// The 4-byte encoding of a signed 32-bit integer: its two's-complement
/// bits, big-endian.
pub open spec fn enc_i32(v: i32) -> Seq<u8> {
    enc_u32(v as u32)
}

/// The 8-byte encoding of a signed hyper integer.
pub open spec fn enc_i64(v: i64) -> Seq<u8> {
    enc_u64(v as u64)
}

/// The 4-byte encoding of a boolean: 1 for true, 0 for false.
pub open spec fn enc_bool(v: bool) -> Seq<u8> {
    enc_u32(if v { 1u32 } else { 0u32 })
}

/// Payload bytes followed by their zero padding.
pub open spec fn enc_padded(b: Seq<u8>) -> Seq<u8> {
    b + zeros(pad_len(b.len() as int))
}

/// Variable-length opaque: a 4-byte count, the payload, the padding.
pub open spec fn enc_var_opaque(b: Seq<u8>) -> Seq<u8>
    recommends
        b.len() <= u32::MAX,
{
    enc_u32(b.len() as u32) + enc_padded(b)
}

/// Splits off an unsigned 32-bit integer, or `None` when fewer than
/// four bytes remain.
pub open spec fn dec_u32(s: Seq<u8>) -> Option<(u32, Seq<u8>)> {
    if s.len() >= 4 {
        Some((word32(s[0], s[1], s[2], s[3]), s.skip(4)))
    } else {
        None
    }
}

/// Splits off an unsigned 64-bit integer.
pub open spec fn dec_u64(s: Seq<u8>) -> Option<(u64, Seq<u8>)> {
    if s.len() >= 8 {
        Some((word64(s[0], s[1], s[2], s[3], s[4], s[5], s[6], s[7]), s.skip(8)))
    } else {
        None
    }
}

/// Splits off a signed 32-bit integer (the same four bytes, reread as
/// two's complement).
pub open spec fn dec_i32(s: Seq<u8>) -> Option<(i32, Seq<u8>)> {
    match dec_u32(s) {
        Some((v, rest)) => Some((v as i32, rest)),
        None => None,
    }
}

/// Splits off a signed hyper integer.
pub open spec fn dec_i64(s: Seq<u8>) -> Option<(i64, Seq<u8>)> {
    match dec_u64(s) {
        Some((v, rest)) => Some((v as i64, rest)),
        None => None,
    }
}

/// Splits off `n` payload bytes and consumes their padding.
pub open spec fn dec_padded(n: int, s: Seq<u8>) -> Option<(Seq<u8>, Seq<u8>)> {
    if s.len() >= n + pad_len(n) {
        Some((s.take(n), s.skip(n + pad_len(n))))
    } else {
        None
    }
}

/// Splits off a variable-length opaque item: count, payload, padding.
pub open spec fn dec_var_opaque(s: Seq<u8>) -> Option<(Seq<u8>, Seq<u8>)> {
    match dec_u32(s) {
        Some((n, rest)) => dec_padded(n as int, rest),
        None => None,
    }
}

} // verus!
