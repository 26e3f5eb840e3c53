//! The XDR encoder.
//!
//! [`Serializer`] is generic over any [`ByteSink`], so the same verified
//! writer serves both in-memory encoding (the sink is a `Vec<u8>`) and
//! streaming encoding (the sink hands bytes onward as they arrive).
//! Every method's contract pins the exact byte sequence appended to the
//! sink, in terms of the specification functions of [`crate::wire`].

use vstd::prelude::*;

use crate::error::Error;
use crate::wire::{
    enc_bool, enc_i32, enc_i64, enc_padded, enc_u32, enc_u64, enc_var_opaque, pad_len, zeros,
};
use vstd::utf8::encode_utf8;

verus! {

/// A destination for encoded bytes.
///
/// The library verifies the encoder against this contract; `Vec<u8>`
/// implements it here, and callers may implement it for their own
/// sinks (files, sockets). An implementation must append exactly the
/// bytes it is given, in order, and may fail only with [`Error::Io`].
/// An *infallible* sink is one that accepts every write; the encoder's
/// contracts promise success outright when the sink is infallible.
pub trait ByteSink {
    /// The bytes accepted so far. An implementation outside this
    /// crate that leaves this at its default says nothing about what
    /// it holds; the contracts below then promise nothing about it.
    open spec fn sunk(&self) -> Seq<u8> {
        Seq::empty()
    }

    /// Whether this sink accepts every write. An implementation
    /// outside this crate that leaves the default in place simply
    /// gets no promise of success, only the bound on which error can
    /// come back.
    open spec fn infallible(&self) -> bool {
        false
    }

    /// Accepts all of `data`, or reports a sink failure.
    fn put_all(&mut self, data: &[u8]) -> (r: Result<(), Error>)
        ensures
            final(self).infallible() == old(self).infallible(),
            old(self).infallible() ==> r is Ok,
            match r {
                Ok(()) => final(self).sunk() == old(self).sunk() + data@,
                Err(e) => e is Io,
            },
    ;
}

impl ByteSink for Vec<u8> {
    open spec fn sunk(&self) -> Seq<u8> {
        self@
    }

    open spec fn infallible(&self) -> bool {
        true
    }

    fn put_all(&mut self, data: &[u8]) -> (r: Result<(), Error>)
        ensures
            r is Ok,
            match r {
                Ok(()) => final(self).sunk() == old(self).sunk() + data@,
                Err(e) => e is Io,
            },
    {
        let mut i: usize = 0;
        while i < data.len()
            invariant
                i <= data@.len(),
                self@ == old(self)@ + data@.take(i as int),
            decreases data@.len() - i,
        {
            self.push(data[i]);
            i = i + 1;
            proof {
                assert(self@ =~= old(self)@ + data@.take(i as int));
            }
        }
        proof {
            assert(self@ =~= old(self)@ + data@);
        }
        Ok(())
    }
}

/// A `Vec` holding `n` zero bytes.
fn zero_bytes(n: usize) -> (r: Vec<u8>)
    ensures
        r@ == zeros(n as int),
{
    let mut r: Vec<u8> = Vec::new();
    let mut i: usize = 0;
    while i < n
        invariant
            i <= n,
            r@ == zeros(i as int),
        decreases n - i,
    {
        r.push(0u8);
        i = i + 1;
        proof {
            assert(r@ =~= zeros(i as int));
        }
    }
    r
}

/// The four big-endian bytes of `v`.
fn be_bytes_u32(v: u32) -> (r: Vec<u8>)
    ensures
        r@ == enc_u32(v),
{
    let mut r: Vec<u8> = Vec::new();
    r.push((v >> 24) as u8);
    r.push((v >> 16) as u8);
    r.push((v >> 8) as u8);
    r.push(v as u8);
    proof {
        assert(r@ =~= enc_u32(v));
    }
    r
}

/// The eight big-endian bytes of `v`.
fn be_bytes_u64(v: u64) -> (r: Vec<u8>)
    ensures
        r@ == enc_u64(v),
{
    let mut r: Vec<u8> = Vec::new();
    r.push((v >> 56) as u8);
    r.push((v >> 48) as u8);
    r.push((v >> 40) as u8);
    r.push((v >> 32) as u8);
    r.push((v >> 24) as u8);
    r.push((v >> 16) as u8);
    r.push((v >> 8) as u8);
    r.push(v as u8);
    proof {
        assert(r@ =~= enc_u64(v));
    }
    r
}

/// The XDR encoder. Generic over any [`ByteSink`].
pub struct Serializer<S: ByteSink> {
    /// The sink the encoded bytes go to.
    pub writer: S,
}

impl<S: ByteSink> Serializer<S> {
    /// The bytes this encoder has produced, as its sink holds them.
    pub open spec fn out(&self) -> Seq<u8> {
        self.writer.sunk()
    }

    /// Whether the underlying sink accepts every write. With an
    /// infallible sink — `Vec<u8>` is one — every write method below
    /// is promised to succeed, unless the encoder itself refuses the
    /// value first.
    pub open spec fn infallible(&self) -> bool {
        self.writer.infallible()
    }

    /// Wraps a sink.
    pub fn new(writer: S) -> (r: Self)
        ensures
            r.writer == writer,
    {
        Serializer { writer }
    }

    /// Consumes the encoder and returns the inner sink.
    pub fn into_writer(self) -> (r: S)
        ensures
            r == self.writer,
    {
        self.writer
    }

    /// Hands `bytes` to the sink unchanged.
    pub fn write_all(&mut self, bytes: &[u8]) -> (r: Result<(), Error>)
        ensures
            final(self).infallible() == old(self).infallible(),
            old(self).infallible() ==> r is Ok,
            match r {
                Ok(()) => final(self).out() == old(self).out() + bytes@,
                Err(e) => e is Io,
            },
    {
        self.writer.put_all(bytes)
    }

    /// Writes a 4-byte big-endian unsigned integer.
    pub fn write_u32(&mut self, v: u32) -> (r: Result<(), Error>)
        ensures
            final(self).infallible() == old(self).infallible(),
            old(self).infallible() ==> r is Ok,
            match r {
                Ok(()) => final(self).out() == old(self).out() + enc_u32(v),
                Err(e) => e is Io,
            },
    {
        let buf = be_bytes_u32(v);
        self.write_all(buf.as_slice())
    }

    /// Writes a 4-byte big-endian signed integer (two's complement).
    pub fn write_i32(&mut self, v: i32) -> (r: Result<(), Error>)
        ensures
            final(self).infallible() == old(self).infallible(),
            old(self).infallible() ==> r is Ok,
            match r {
                Ok(()) => final(self).out() == old(self).out() + enc_i32(v),
                Err(e) => e is Io,
            },
    {
        self.write_u32(v as u32)
    }

    /// Writes an 8-byte big-endian unsigned hyper integer.
    pub fn write_u64(&mut self, v: u64) -> (r: Result<(), Error>)
        ensures
            final(self).infallible() == old(self).infallible(),
            old(self).infallible() ==> r is Ok,
            match r {
                Ok(()) => final(self).out() == old(self).out() + enc_u64(v),
                Err(e) => e is Io,
            },
    {
        let buf = be_bytes_u64(v);
        self.write_all(buf.as_slice())
    }

    /// Writes an 8-byte big-endian signed hyper integer.
    pub fn write_i64(&mut self, v: i64) -> (r: Result<(), Error>)
        ensures
            final(self).infallible() == old(self).infallible(),
            old(self).infallible() ==> r is Ok,
            match r {
                Ok(()) => final(self).out() == old(self).out() + enc_i64(v),
                Err(e) => e is Io,
            },
    {
        self.write_u64(v as u64)
    }

    /// Writes `bytes` followed by enough zero bytes to reach a 4-byte
    /// boundary.
    pub fn write_padded_bytes(&mut self, bytes: &[u8]) -> (r: Result<(), Error>)
        ensures
            final(self).infallible() == old(self).infallible(),
            old(self).infallible() ==> r is Ok,
            match r {
                Ok(()) => final(self).out() == old(self).out() + enc_padded(bytes@),
                Err(e) => e is Io,
            },
    {
        match self.write_all(bytes) {
            Ok(()) => {}
            Err(e) => {
                return Err(e);
            }
        }
        let rem: usize = bytes.len() % 4;
        if rem != 0 {
            let pad = zero_bytes(4 - rem);
            match self.write_all(pad.as_slice()) {
                Ok(()) => {}
                Err(e) => {
                    return Err(e);
                }
            }
        }
        proof {
            assert(self.out() =~= old(self).out() + enc_padded(bytes@));
        }
        Ok(())
    }

    /// Writes an XDR variable-length opaque item: a 4-byte count, the
    /// payload, the padding. Fails with [`Error::LengthOverflow`] when
    /// the payload cannot be counted in 32 bits.
    pub fn write_opaque_variable(&mut self, bytes: &[u8]) -> (r: Result<(), Error>)
        ensures
            final(self).infallible() == old(self).infallible(),
            bytes@.len() <= u32::MAX && old(self).infallible() ==> r is Ok,
            bytes@.len() > u32::MAX ==> r == Err::<(), Error>(
                Error::LengthOverflow { max: u32::MAX, got: u32::MAX },
            ) && *final(self) == *old(self),
            bytes@.len() <= u32::MAX ==> match r {
                Ok(()) => final(self).out() == old(self).out() + enc_var_opaque(bytes@),
                Err(e) => e is Io,
            },
    {
        if bytes.len() > u32::MAX as usize {
            return Err(Error::LengthOverflow { max: u32::MAX, got: u32::MAX });
        }
        match self.write_u32(bytes.len() as u32) {
            Ok(()) => {}
            Err(e) => {
                return Err(e);
            }
        }
        let r = self.write_padded_bytes(bytes);
        proof {
            if r is Ok {
                assert(self.out() =~= old(self).out() + enc_var_opaque(bytes@));
            }
        }
        r
    }

    /// Writes a boolean as a 4-byte unsigned int: 1 for true, 0 for
    /// false.
    pub fn serialize_bool(&mut self, v: bool) -> (r: Result<(), Error>)
        ensures
            final(self).infallible() == old(self).infallible(),
            old(self).infallible() ==> r is Ok,
            match r {
                Ok(()) => final(self).out() == old(self).out() + enc_bool(v),
                Err(e) => e is Io,
            },
    {
        self.write_u32(if v { 1 } else { 0 })
    }

    /// Writes a narrow signed integer as a 4-byte int, sign-extended.
    pub fn serialize_i8(&mut self, v: i8) -> (r: Result<(), Error>)
        ensures
            final(self).infallible() == old(self).infallible(),
            old(self).infallible() ==> r is Ok,
            match r {
                Ok(()) => final(self).out() == old(self).out() + enc_i32(v as i32),
                Err(e) => e is Io,
            },
    {
        self.write_i32(v as i32)
    }

    /// Writes a narrow signed integer as a 4-byte int, sign-extended.
    pub fn serialize_i16(&mut self, v: i16) -> (r: Result<(), Error>)
        ensures
            final(self).infallible() == old(self).infallible(),
            old(self).infallible() ==> r is Ok,
            match r {
                Ok(()) => final(self).out() == old(self).out() + enc_i32(v as i32),
                Err(e) => e is Io,
            },
    {
        self.write_i32(v as i32)
    }

    /// Writes a narrow unsigned integer as a 4-byte unsigned int,
    /// zero-extended.
    pub fn serialize_u8(&mut self, v: u8) -> (r: Result<(), Error>)
        ensures
            final(self).infallible() == old(self).infallible(),
            old(self).infallible() ==> r is Ok,
            match r {
                Ok(()) => final(self).out() == old(self).out() + enc_u32(v as u32),
                Err(e) => e is Io,
            },
    {
        self.write_u32(v as u32)
    }

    /// Writes a narrow unsigned integer as a 4-byte unsigned int,
    /// zero-extended.
    pub fn serialize_u16(&mut self, v: u16) -> (r: Result<(), Error>)
        ensures
            final(self).infallible() == old(self).infallible(),
            old(self).infallible() ==> r is Ok,
            match r {
                Ok(()) => final(self).out() == old(self).out() + enc_u32(v as u32),
                Err(e) => e is Io,
            },
    {
        self.write_u32(v as u32)
    }

    /// Writes a character as a 4-byte unsigned int holding its Unicode
    /// scalar value.
    pub fn serialize_char(&mut self, v: char) -> (r: Result<(), Error>)
        ensures
            final(self).infallible() == old(self).infallible(),
            old(self).infallible() ==> r is Ok,
            match r {
                Ok(()) => final(self).out() == old(self).out() + enc_u32(v as u32),
                Err(e) => e is Io,
            },
    {
        self.write_u32(v as u32)
    }

    /// Writes a string as variable-length opaque data: a 4-byte count
    /// of its UTF-8 bytes, the bytes, their padding.
    pub fn serialize_str(&mut self, v: &str) -> (r: Result<(), Error>)
        ensures
            final(self).infallible() == old(self).infallible(),
            encode_utf8(v@).len() <= u32::MAX && old(self).infallible() ==> r is Ok,
            encode_utf8(v@).len() > u32::MAX ==> r == Err::<(), Error>(
                Error::LengthOverflow { max: u32::MAX, got: u32::MAX },
            ) && *final(self) == *old(self),
            encode_utf8(v@).len() <= u32::MAX ==> match r {
                Ok(()) => final(self).out() == old(self).out() + enc_var_opaque(encode_utf8(v@)),
                Err(e) => e is Io,
            },
    {
        self.write_opaque_variable(v.as_bytes())
    }

    /// Writes a byte buffer as variable-length opaque data.
    pub fn serialize_bytes(&mut self, v: &[u8]) -> (r: Result<(), Error>)
        ensures
            final(self).infallible() == old(self).infallible(),
            v@.len() <= u32::MAX && old(self).infallible() ==> r is Ok,
            v@.len() > u32::MAX ==> r == Err::<(), Error>(
                Error::LengthOverflow { max: u32::MAX, got: u32::MAX },
            ) && *final(self) == *old(self),
            v@.len() <= u32::MAX ==> match r {
                Ok(()) => final(self).out() == old(self).out() + enc_var_opaque(v@),
                Err(e) => e is Io,
            },
    {
        self.write_opaque_variable(v)
    }

    /// Writes the absent arm of optional data: a 4-byte zero.
    pub fn serialize_none(&mut self) -> (r: Result<(), Error>)
        ensures
            final(self).infallible() == old(self).infallible(),
            old(self).infallible() ==> r is Ok,
            match r {
                Ok(()) => final(self).out() == old(self).out() + enc_u32(0),
                Err(e) => e is Io,
            },
    {
        self.write_u32(0)
    }

    /// Writes the present-arm discriminant of optional data: a 4-byte
    /// one. The caller writes the value itself afterwards.
    pub fn serialize_some_tag(&mut self) -> (r: Result<(), Error>)
        ensures
            final(self).infallible() == old(self).infallible(),
            old(self).infallible() ==> r is Ok,
            match r {
                Ok(()) => final(self).out() == old(self).out() + enc_u32(1),
                Err(e) => e is Io,
            },
    {
        self.write_u32(1)
    }

    /// Writes XDR void: no bytes at all.
    pub fn serialize_unit(&mut self) -> (r: Result<(), Error>)
        ensures
            r == Ok::<(), Error>(()),
            *final(self) == *old(self),
    {
        Ok(())
    }

    /// Writes the 4-byte discriminant that selects a tagged-union arm
    /// (the variant's zero-based declaration index). For arms that
    /// carry data, the caller writes the arm's payload afterwards.
    pub fn serialize_variant_index(&mut self, variant_index: u32) -> (r: Result<(), Error>)
        ensures
            final(self).infallible() == old(self).infallible(),
            old(self).infallible() ==> r is Ok,
            match r {
                Ok(()) => final(self).out() == old(self).out() + enc_u32(variant_index),
                Err(e) => e is Io,
            },
    {
        self.write_u32(variant_index)
    }

    /// Writes the 4-byte element count that opens a variable-length
    /// sequence. A caller that cannot name the count up front fails
    /// with [`Error::LengthRequired`]; the count is truncated to 32
    /// bits as written.
    pub fn serialize_seq_len(&mut self, len: Option<usize>) -> (r: Result<(), Error>)
        ensures
            final(self).infallible() == old(self).infallible(),
            len is Some && old(self).infallible() ==> r is Ok,
            match len {
                None => r == Err::<(), Error>(Error::LengthRequired) && *final(self) == *old(
                    self,
                ),
                Some(l) => match r {
                    Ok(()) => final(self).out() == old(self).out() + enc_u32(l as u32),
                    Err(e) => e is Io,
                },
            },
    {
        match len {
            None => Err(Error::LengthRequired),
            Some(l) => self.write_u32(l as u32),
        }
    }

    /// Writes the 4-byte pair count that opens a map; fails with
    /// [`Error::LengthRequired`] when the count is unknown.
    pub fn serialize_map_len(&mut self, len: Option<usize>) -> (r: Result<(), Error>)
        ensures
            final(self).infallible() == old(self).infallible(),
            len is Some && old(self).infallible() ==> r is Ok,
            match len {
                None => r == Err::<(), Error>(Error::LengthRequired) && *final(self) == *old(
                    self,
                ),
                Some(l) => match r {
                    Ok(()) => final(self).out() == old(self).out() + enc_u32(l as u32),
                    Err(e) => e is Io,
                },
            },
    {
        match len {
            None => Err(Error::LengthRequired),
            Some(l) => self.write_u32(l as u32),
        }
    }

    /// Writes fixed-length opaque data: the raw bytes and their
    /// padding, with no count prefix.
    pub fn serialize_fixed_opaque(&mut self, bytes: &[u8]) -> (r: Result<(), Error>)
        ensures
            final(self).infallible() == old(self).infallible(),
            old(self).infallible() ==> r is Ok,
            match r {
                Ok(()) => final(self).out() == old(self).out() + enc_padded(bytes@),
                Err(e) => e is Io,
            },
    {
        self.write_padded_bytes(bytes)
    }
}

} // verus!
