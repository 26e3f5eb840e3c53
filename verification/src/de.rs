//! The XDR decoders.
//!
//! Two decoders share the wire contract of [`crate::wire`]:
//!
//! - [`Deserializer`] is backed by a borrowed byte slice; opaque data
//!   and strings are returned zero-copy where the types permit.
//! - [`ReaderDeserializer`] is backed by any pull-based [`ByteSource`]
//!   and returns owned values.
//!
//! Every read method's contract says exactly which prefix of the
//! unread input is consumed and which value those bytes denote.

use vstd::prelude::*;

use crate::error::Error;
use crate::wire::{dec_i32, dec_i64, dec_padded, dec_u32, dec_u64, dec_var_opaque, pad_len};
use vstd::slice::{slice_subrange, slice_to_vec};
use vstd::utf8::{decode_utf8, encode_utf8, is_scalar, valid_utf8};

verus! {

/// Relies on `core::str::from_utf8`: it succeeds exactly on valid
/// UTF-8 input, and the resulting `&str` views the given bytes.
#[verifier::external_body]
fn str_from_utf8<'a>(b: &'a [u8]) -> (r: Result<&'a str, Error>)
    ensures
        match r {
            Ok(s) => valid_utf8(b@) && encode_utf8(s@) == b@,
            Err(e) => !valid_utf8(b@) && e == Error::InvalidString,
        },
{
    core::str::from_utf8(b).map_err(|_| Error::InvalidString)
}

/// Relies on `char::from_u32`: it returns `Some` exactly on Unicode
/// scalar values, and the returned character has the given code.
#[verifier::external_body]
fn char_from_u32(v: u32) -> (r: Option<char>)
    ensures
        match r {
            Some(c) => is_scalar(v) && c as u32 == v,
            None => !is_scalar(v),
        },
{
    char::from_u32(v)
}

/// For a valid UTF-8 byte sequence, the characters a `&str` over those
/// bytes holds are the sequence's UTF-8 decoding.
proof fn lemma_utf8_chars_of_bytes(chars: Seq<char>, b: Seq<u8>)
    requires
        valid_utf8(b),
        encode_utf8(chars) == b,
    ensures
        chars == decode_utf8(b),
{
    broadcast use vstd::utf8::encode_utf8_decode_utf8;

}

/// Zero-copy XDR decoder backed by a byte slice.
pub struct Deserializer<'a> {
    /// The whole input buffer.
    pub input: &'a [u8],
    /// How many bytes have been consumed.
    pub pos: usize,
}

impl<'a> Deserializer<'a> {
    /// The cursor never passes the end of the input.
    pub open spec fn wf(&self) -> bool {
        self.pos <= self.input@.len()
    }

    /// The unread portion of the input.
    pub open spec fn rem(&self) -> Seq<u8> {
        self.input@.skip(self.pos as int)
    }

    /// Starts decoding at the beginning of `input`.
    pub fn new(input: &'a [u8]) -> (r: Self)
        ensures
            r.wf(),
            r.input == input,
            r.rem() == input@,
    {
        let r = Deserializer { input, pos: 0 };
        proof {
            assert(r.rem() =~= input@);
        }
        r
    }

    /// Returns the unconsumed portion of the input buffer.
    pub fn remaining(&self) -> (r: &'a [u8])
        requires
            self.wf(),
        ensures
            r@ == self.rem(),
    {
        slice_subrange(self.input, self.pos, self.input.len())
    }

    /// Consumes exactly `n` bytes, or fails with
    /// [`Error::UnexpectedEof`] leaving the cursor in place.
    pub fn take(&mut self, n: usize) -> (r: Result<&'a [u8], Error>)
        requires
            old(self).wf(),
        ensures
            final(self).wf(),
            final(self).input == old(self).input,
            if n <= old(self).rem().len() {
                r matches Ok(b) && b@ == old(self).rem().take(n as int) && final(self).rem()
                    == old(self).rem().skip(n as int)
            } else {
                r == Err::<&'a [u8], Error>(Error::UnexpectedEof) && *final(self) == *old(self)
            },
    {
        if n > self.input.len() - self.pos {
            return Err(Error::UnexpectedEof);
        }
        let b = slice_subrange(self.input, self.pos, self.pos + n);
        proof {
            assert(b@ =~= self.rem().take(n as int));
            assert(self.input@.skip((self.pos + n) as int) =~= self.rem().skip(n as int));
        }
        self.pos = self.pos + n;
        Ok(b)
    }

    /// Reads a 4-byte big-endian unsigned integer.
    pub fn read_u32(&mut self) -> (r: Result<u32, Error>)
        requires
            old(self).wf(),
        ensures
            final(self).wf(),
            final(self).input == old(self).input,
            match dec_u32(old(self).rem()) {
                Some(v_rest) => r == Ok::<u32, Error>(v_rest.0) && final(self).rem() == v_rest.1,
                None => r == Err::<u32, Error>(Error::UnexpectedEof) && *final(self) == *old(self),
            },
    {
        let b = match self.take(4) {
            Ok(b) => b,
            Err(e) => {
                return Err(e);
            }
        };
        let v: u32 = ((b[0] as u32) << 24) | ((b[1] as u32) << 16) | ((b[2] as u32) << 8) | (
        b[3] as u32);
        Ok(v)
    }

    /// Reads a 4-byte big-endian signed integer.
    pub fn read_i32(&mut self) -> (r: Result<i32, Error>)
        requires
            old(self).wf(),
        ensures
            final(self).wf(),
            final(self).input == old(self).input,
            match dec_i32(old(self).rem()) {
                Some(v_rest) => r == Ok::<i32, Error>(v_rest.0) && final(self).rem() == v_rest.1,
                None => r == Err::<i32, Error>(Error::UnexpectedEof) && *final(self) == *old(self),
            },
    {
        match self.read_u32() {
            Ok(v) => Ok(v as i32),
            Err(e) => Err(e),
        }
    }

    /// Reads an 8-byte big-endian unsigned hyper integer.
    pub fn read_u64(&mut self) -> (r: Result<u64, Error>)
        requires
            old(self).wf(),
        ensures
            final(self).wf(),
            final(self).input == old(self).input,
            match dec_u64(old(self).rem()) {
                Some(v_rest) => r == Ok::<u64, Error>(v_rest.0) && final(self).rem() == v_rest.1,
                None => r == Err::<u64, Error>(Error::UnexpectedEof) && *final(self) == *old(self),
            },
    {
        let b = match self.take(8) {
            Ok(b) => b,
            Err(e) => {
                return Err(e);
            }
        };
        let v: u64 = ((b[0] as u64) << 56) | ((b[1] as u64) << 48) | ((b[2] as u64) << 40) | ((
        b[3] as u64) << 32) | ((b[4] as u64) << 24) | ((b[5] as u64) << 16) | ((b[6] as u64) << 8)
            | (b[7] as u64);
        Ok(v)
    }

    /// Reads an 8-byte big-endian signed hyper integer.
    pub fn read_i64(&mut self) -> (r: Result<i64, Error>)
        requires
            old(self).wf(),
        ensures
            final(self).wf(),
            final(self).input == old(self).input,
            match dec_i64(old(self).rem()) {
                Some(v_rest) => r == Ok::<i64, Error>(v_rest.0) && final(self).rem() == v_rest.1,
                None => r == Err::<i64, Error>(Error::UnexpectedEof) && *final(self) == *old(self),
            },
    {
        match self.read_u64() {
            Ok(v) => Ok(v as i64),
            Err(e) => Err(e),
        }
    }

    /// Reads `n` payload bytes and consumes their 0-3 padding bytes;
    /// the returned slice borrows the payload only.
    pub fn read_padded_bytes(&mut self, n: usize) -> (r: Result<&'a [u8], Error>)
        requires
            old(self).wf(),
        ensures
            final(self).wf(),
            final(self).input == old(self).input,
            match dec_padded(n as int, old(self).rem()) {
                Some(b_rest) => r matches Ok(d) && d@ == b_rest.0 && final(self).rem()
                    == b_rest.1,
                None => r == Err::<&'a [u8], Error>(Error::UnexpectedEof),
            },
    {
        let data = match self.take(n) {
            Ok(d) => d,
            Err(e) => {
                return Err(e);
            }
        };
        let rem: usize = n % 4;
        if rem != 0 {
            match self.take(4 - rem) {
                Ok(_) => {}
                Err(e) => {
                    return Err(e);
                }
            }
        }
        proof {
            let s = old(self).rem();
            assert(s.skip(n as int).skip(pad_len(n as int)) =~= s.skip(n + pad_len(n as int)));
        }
        Ok(data)
    }

    /// Reads a variable-length opaque item: a 4-byte count, that many
    /// payload bytes, their padding.
    pub fn read_variable_opaque(&mut self) -> (r: Result<&'a [u8], Error>)
        requires
            old(self).wf(),
        ensures
            final(self).wf(),
            final(self).input == old(self).input,
            match dec_var_opaque(old(self).rem()) {
                Some(b_rest) => r matches Ok(d) && d@ == b_rest.0 && final(self).rem()
                    == b_rest.1,
                None => r == Err::<&'a [u8], Error>(Error::UnexpectedEof),
            },
    {
        let n = match self.read_u32() {
            Ok(n) => n,
            Err(e) => {
                return Err(e);
            }
        };
        self.read_padded_bytes(n as usize)
    }

    /// Like [`Self::read_variable_opaque`], but returns owned bytes.
    pub fn read_variable_opaque_owned(&mut self) -> (r: Result<Vec<u8>, Error>)
        requires
            old(self).wf(),
        ensures
            final(self).wf(),
            final(self).input == old(self).input,
            match dec_var_opaque(old(self).rem()) {
                Some(b_rest) => r matches Ok(d) && d@ == b_rest.0 && final(self).rem()
                    == b_rest.1,
                None => r == Err::<Vec<u8>, Error>(Error::UnexpectedEof),
            },
    {
        match self.read_variable_opaque() {
            Ok(d) => Ok(slice_to_vec(d)),
            Err(e) => Err(e),
        }
    }

    /// Reads a 4-byte boolean. Wire values other than 0 and 1 fail
    /// with [`Error::InvalidBool`].
    pub fn read_bool(&mut self) -> (r: Result<bool, Error>)
        requires
            old(self).wf(),
        ensures
            final(self).wf(),
            final(self).input == old(self).input,
            match dec_u32(old(self).rem()) {
                Some(v_rest) => final(self).rem() == v_rest.1 && r == (if v_rest.0 == 0 {
                    Ok::<bool, Error>(false)
                } else if v_rest.0 == 1 {
                    Ok::<bool, Error>(true)
                } else {
                    Err::<bool, Error>(Error::InvalidBool(v_rest.0))
                }),
                None => r == Err::<bool, Error>(Error::UnexpectedEof) && *final(self) == *old(self),
            },
    {
        match self.read_u32() {
            Ok(0) => Ok(false),
            Ok(1) => Ok(true),
            Ok(v) => Err(Error::InvalidBool(v)),
            Err(e) => Err(e),
        }
    }

    /// Reads the 4-byte discriminant of optional data: `false` for an
    /// absent value, `true` when the value follows. Other wire values
    /// fail with [`Error::InvalidOption`].
    pub fn read_option_tag(&mut self) -> (r: Result<bool, Error>)
        requires
            old(self).wf(),
        ensures
            final(self).wf(),
            final(self).input == old(self).input,
            match dec_u32(old(self).rem()) {
                Some(v_rest) => final(self).rem() == v_rest.1 && r == (if v_rest.0 == 0 {
                    Ok::<bool, Error>(false)
                } else if v_rest.0 == 1 {
                    Ok::<bool, Error>(true)
                } else {
                    Err::<bool, Error>(Error::InvalidOption(v_rest.0))
                }),
                None => r == Err::<bool, Error>(Error::UnexpectedEof) && *final(self) == *old(self),
            },
    {
        match self.read_u32() {
            Ok(0) => Ok(false),
            Ok(1) => Ok(true),
            Ok(v) => Err(Error::InvalidOption(v)),
            Err(e) => Err(e),
        }
    }

    /// Reads a narrow signed integer from a 4-byte int; the high bits
    /// are discarded by truncation.
    pub fn read_i8(&mut self) -> (r: Result<i8, Error>)
        requires
            old(self).wf(),
        ensures
            final(self).wf(),
            final(self).input == old(self).input,
            match dec_i32(old(self).rem()) {
                Some(v_rest) => r == Ok::<i8, Error>(v_rest.0 as i8) && final(self).rem()
                    == v_rest.1,
                None => r == Err::<i8, Error>(Error::UnexpectedEof) && *final(self) == *old(self),
            },
    {
        match self.read_i32() {
            Ok(v) => Ok(v as i8),
            Err(e) => Err(e),
        }
    }

    /// Reads a narrow signed integer from a 4-byte int by truncation.
    pub fn read_i16(&mut self) -> (r: Result<i16, Error>)
        requires
            old(self).wf(),
        ensures
            final(self).wf(),
            final(self).input == old(self).input,
            match dec_i32(old(self).rem()) {
                Some(v_rest) => r == Ok::<i16, Error>(v_rest.0 as i16) && final(self).rem()
                    == v_rest.1,
                None => r == Err::<i16, Error>(Error::UnexpectedEof) && *final(self) == *old(self),
            },
    {
        match self.read_i32() {
            Ok(v) => Ok(v as i16),
            Err(e) => Err(e),
        }
    }

    /// Reads a narrow unsigned integer from a 4-byte unsigned int by
    /// truncation.
    pub fn read_u8(&mut self) -> (r: Result<u8, Error>)
        requires
            old(self).wf(),
        ensures
            final(self).wf(),
            final(self).input == old(self).input,
            match dec_u32(old(self).rem()) {
                Some(v_rest) => r == Ok::<u8, Error>(v_rest.0 as u8) && final(self).rem()
                    == v_rest.1,
                None => r == Err::<u8, Error>(Error::UnexpectedEof) && *final(self) == *old(self),
            },
    {
        match self.read_u32() {
            Ok(v) => Ok(v as u8),
            Err(e) => Err(e),
        }
    }

    /// Reads a narrow unsigned integer from a 4-byte unsigned int by
    /// truncation.
    pub fn read_u16(&mut self) -> (r: Result<u16, Error>)
        requires
            old(self).wf(),
        ensures
            final(self).wf(),
            final(self).input == old(self).input,
            match dec_u32(old(self).rem()) {
                Some(v_rest) => r == Ok::<u16, Error>(v_rest.0 as u16) && final(self).rem()
                    == v_rest.1,
                None => r == Err::<u16, Error>(Error::UnexpectedEof) && *final(self) == *old(self),
            },
    {
        match self.read_u32() {
            Ok(v) => Ok(v as u16),
            Err(e) => Err(e),
        }
    }

    /// Reads a character from a 4-byte unsigned int. Values outside
    /// the Unicode scalar range fail with [`Error::InvalidString`].
    pub fn read_char(&mut self) -> (r: Result<char, Error>)
        requires
            old(self).wf(),
        ensures
            final(self).wf(),
            final(self).input == old(self).input,
            match dec_u32(old(self).rem()) {
                Some(v_rest) => final(self).rem() == v_rest.1 && (if is_scalar(v_rest.0) {
                    r matches Ok(c) && c as u32 == v_rest.0
                } else {
                    r == Err::<char, Error>(Error::InvalidString)
                }),
                None => r == Err::<char, Error>(Error::UnexpectedEof) && *final(self) == *old(self),
            },
    {
        let v = match self.read_u32() {
            Ok(v) => v,
            Err(e) => {
                return Err(e);
            }
        };
        match char_from_u32(v) {
            Some(c) => Ok(c),
            None => Err(Error::InvalidString),
        }
    }

    /// Reads a string as variable-length opaque data and verifies it
    /// is UTF-8; the result borrows from the input buffer.
    pub fn read_str(&mut self) -> (r: Result<&'a str, Error>)
        requires
            old(self).wf(),
        ensures
            final(self).wf(),
            final(self).input == old(self).input,
            match dec_var_opaque(old(self).rem()) {
                Some(b_rest) => final(self).rem() == b_rest.1 && (if valid_utf8(b_rest.0) {
                    r matches Ok(s) && s@ == decode_utf8(b_rest.0) && encode_utf8(s@) == b_rest.0
                } else {
                    r == Err::<&'a str, Error>(Error::InvalidString)
                }),
                None => r == Err::<&'a str, Error>(Error::UnexpectedEof),
            },
    {
        let bytes = match self.read_variable_opaque() {
            Ok(b) => b,
            Err(e) => {
                return Err(e);
            }
        };
        match str_from_utf8(bytes) {
            Ok(s) => {
                proof {
                    lemma_utf8_chars_of_bytes(s@, bytes@);
                }
                Ok(s)
            }
            Err(e) => Err(e),
        }
    }

    /// Reads a string as variable-length opaque data into an owned
    /// `String`; non-UTF-8 bytes fail with [`Error::InvalidString`].
    pub fn read_string(&mut self) -> (r: Result<String, Error>)
        requires
            old(self).wf(),
        ensures
            final(self).wf(),
            final(self).input == old(self).input,
            match dec_var_opaque(old(self).rem()) {
                Some(b_rest) => final(self).rem() == b_rest.1 && (if valid_utf8(b_rest.0) {
                    r matches Ok(s) && s@ == decode_utf8(b_rest.0) && encode_utf8(s@) == b_rest.0
                } else {
                    r == Err::<String, Error>(Error::InvalidString)
                }),
                None => r == Err::<String, Error>(Error::UnexpectedEof),
            },
    {
        match self.read_str() {
            Ok(s) => Ok(s.to_owned()),
            Err(e) => Err(e),
        }
    }
}

/// A pull-based producer of bytes.
///
/// The reader-backed decoder is verified against this contract;
/// [`BufSource`] implements it here, and callers may implement it for
/// their own sources (files, sockets). A *faithful* source is one that
/// delivers exactly the bytes of `avail`, in order; the decoder's
/// contracts pin the decoded value only for faithful sources, and for
/// any other source still bound which errors can come back.
pub trait ByteSource {
    /// The bytes a faithful source has left to deliver.
    open spec fn avail(&self) -> Seq<u8> {
        Seq::empty()
    }

    /// Whether this source delivers exactly `avail`, in order. An
    /// implementation outside this crate that leaves the defaults in
    /// place is simply not faithful: the decoder then still bounds
    /// which errors can come back, but pins no decoded value.
    open spec fn faithful(&self) -> bool {
        false
    }

    /// Produces exactly `n` bytes, or fails with
    /// [`Error::UnexpectedEof`] (too few bytes left) or [`Error::Io`].
    fn read_exact(&mut self, n: usize) -> (r: Result<Vec<u8>, Error>)
        ensures
            final(self).faithful() == old(self).faithful(),
            match r {
                Ok(v) => v@.len() == n,
                Err(e) => e is UnexpectedEof || e is Io,
            },
            old(self).faithful() ==> match r {
                Ok(v) => n <= old(self).avail().len() && v@ == old(self).avail().take(n as int)
                    && final(self).avail() == old(self).avail().skip(n as int),
                Err(e) => old(self).avail().len() < n && e == Error::UnexpectedEof && final(self).avail() == old(self).avail(),
            },
    ;
}

/// A [`ByteSource`] over an owned byte buffer, delivering its bytes
/// front to back.
pub struct BufSource {
    /// The bytes this source delivers.
    pub data: Vec<u8>,
    /// How many bytes have been delivered already.
    pub pos: usize,
}

impl BufSource {
    /// A source that delivers all of `data`.
    pub fn new(data: Vec<u8>) -> (r: Self)
        ensures
            r.faithful(),
            r.avail() == data@,
    {
        let r = BufSource { data, pos: 0 };
        proof {
            assert(r.avail() =~= r.data@);
        }
        r
    }
}

impl ByteSource for BufSource {
    open spec fn avail(&self) -> Seq<u8> {
        self.data@.skip(self.pos as int)
    }

    open spec fn faithful(&self) -> bool {
        self.pos <= self.data@.len()
    }

    fn read_exact(&mut self, n: usize) -> (r: Result<Vec<u8>, Error>)
        ensures
            final(self).faithful() == old(self).faithful(),
            match r {
                Ok(v) => v@.len() == n,
                Err(e) => e is UnexpectedEof || e is Io,
            },
            old(self).faithful() ==> match r {
                Ok(v) => n <= old(self).avail().len() && v@ == old(self).avail().take(n as int)
                    && final(self).avail() == old(self).avail().skip(n as int),
                Err(e) => old(self).avail().len() < n && e == Error::UnexpectedEof && final(self).avail() == old(self).avail(),
            },
    {
        if self.pos > self.data.len() || n > self.data.len() - self.pos {
            return Err(Error::UnexpectedEof);
        }
        let b = slice_subrange(self.data.as_slice(), self.pos, self.pos + n);
        proof {
            assert(b@ =~= self.avail().take(n as int));
            assert(self.data@.skip((self.pos + n) as int) =~= self.avail().skip(n as int));
        }
        self.pos = self.pos + n;
        Ok(slice_to_vec(b))
    }
}

/// XDR decoder backed by any pull-based [`ByteSource`].
///
/// All decoded strings and byte sequences are returned as owned
/// values. For a faithful source, each contract pins the decoded value
/// through the same `dec_*` functions the slice decoder uses, so the
/// two decoders agree byte for byte.
pub struct ReaderDeserializer<R: ByteSource> {
    /// The byte source being decoded.
    pub reader: R,
}

impl<R: ByteSource> ReaderDeserializer<R> {
    /// The bytes the underlying source has left.
    pub open spec fn avail(&self) -> Seq<u8> {
        self.reader.avail()
    }

    /// Whether the underlying source is faithful.
    pub open spec fn faithful(&self) -> bool {
        self.reader.faithful()
    }

    /// Wraps a byte source.
    pub fn new(reader: R) -> (r: Self)
        ensures
            r.reader == reader,
    {
        ReaderDeserializer { reader }
    }

    /// Consumes the decoder and returns the inner source.
    pub fn into_reader(self) -> (r: R)
        ensures
            r == self.reader,
    {
        self.reader
    }

    /// Pulls exactly `n` bytes from the source.
    pub fn read_exact_buf(&mut self, n: usize) -> (r: Result<Vec<u8>, Error>)
        ensures
            final(self).faithful() == old(self).faithful(),
            match r {
                Ok(v) => v@.len() == n,
                Err(e) => e is UnexpectedEof || e is Io,
            },
            old(self).faithful() ==> match r {
                Ok(v) => n <= old(self).avail().len() && v@ == old(self).avail().take(n as int)
                    && final(self).avail() == old(self).avail().skip(n as int),
                Err(e) => old(self).avail().len() < n && e == Error::UnexpectedEof && final(self).avail() == old(self).avail(),
            },
    {
        self.reader.read_exact(n)
    }

    /// Reads a 4-byte big-endian unsigned integer.
    pub fn read_u32(&mut self) -> (r: Result<u32, Error>)
        ensures
            final(self).faithful() == old(self).faithful(),
            r matches Err(e) ==> (e is UnexpectedEof || e is Io),
            old(self).faithful() ==> match dec_u32(old(self).avail()) {
                Some(v_rest) => r == Ok::<u32, Error>(v_rest.0) && final(self).avail()
                    == v_rest.1,
                None => r == Err::<u32, Error>(Error::UnexpectedEof) && final(self).avail()
                    == old(self).avail(),
            },
    {
        let b = match self.read_exact_buf(4) {
            Ok(b) => b,
            Err(e) => {
                return Err(e);
            }
        };
        let v: u32 = ((b[0] as u32) << 24) | ((b[1] as u32) << 16) | ((b[2] as u32) << 8) | (
        b[3] as u32);
        Ok(v)
    }

    /// Reads a 4-byte big-endian signed integer.
    pub fn read_i32(&mut self) -> (r: Result<i32, Error>)
        ensures
            final(self).faithful() == old(self).faithful(),
            r matches Err(e) ==> (e is UnexpectedEof || e is Io),
            old(self).faithful() ==> match dec_i32(old(self).avail()) {
                Some(v_rest) => r == Ok::<i32, Error>(v_rest.0) && final(self).avail()
                    == v_rest.1,
                None => r == Err::<i32, Error>(Error::UnexpectedEof) && final(self).avail()
                    == old(self).avail(),
            },
    {
        match self.read_u32() {
            Ok(v) => Ok(v as i32),
            Err(e) => Err(e),
        }
    }

    /// Reads an 8-byte big-endian unsigned hyper integer.
    pub fn read_u64(&mut self) -> (r: Result<u64, Error>)
        ensures
            final(self).faithful() == old(self).faithful(),
            r matches Err(e) ==> (e is UnexpectedEof || e is Io),
            old(self).faithful() ==> match dec_u64(old(self).avail()) {
                Some(v_rest) => r == Ok::<u64, Error>(v_rest.0) && final(self).avail()
                    == v_rest.1,
                None => r == Err::<u64, Error>(Error::UnexpectedEof) && final(self).avail()
                    == old(self).avail(),
            },
    {
        let b = match self.read_exact_buf(8) {
            Ok(b) => b,
            Err(e) => {
                return Err(e);
            }
        };
        let v: u64 = ((b[0] as u64) << 56) | ((b[1] as u64) << 48) | ((b[2] as u64) << 40) | ((
        b[3] as u64) << 32) | ((b[4] as u64) << 24) | ((b[5] as u64) << 16) | ((b[6] as u64) << 8)
            | (b[7] as u64);
        Ok(v)
    }

    /// Reads an 8-byte big-endian signed hyper integer.
    pub fn read_i64(&mut self) -> (r: Result<i64, Error>)
        ensures
            final(self).faithful() == old(self).faithful(),
            r matches Err(e) ==> (e is UnexpectedEof || e is Io),
            old(self).faithful() ==> match dec_i64(old(self).avail()) {
                Some(v_rest) => r == Ok::<i64, Error>(v_rest.0) && final(self).avail()
                    == v_rest.1,
                None => r == Err::<i64, Error>(Error::UnexpectedEof) && final(self).avail()
                    == old(self).avail(),
            },
    {
        match self.read_u64() {
            Ok(v) => Ok(v as i64),
            Err(e) => Err(e),
        }
    }

    /// Reads `n` payload bytes and consumes their 0-3 padding bytes.
    pub fn read_padded_bytes(&mut self, n: usize) -> (r: Result<Vec<u8>, Error>)
        ensures
            final(self).faithful() == old(self).faithful(),
            r matches Err(e) ==> (e is UnexpectedEof || e is Io),
            old(self).faithful() ==> match dec_padded(n as int, old(self).avail()) {
                Some(b_rest) => r matches Ok(d) && d@ == b_rest.0 && final(self).avail()
                    == b_rest.1,
                None => r == Err::<Vec<u8>, Error>(Error::UnexpectedEof),
            },
    {
        let data = match self.read_exact_buf(n) {
            Ok(d) => d,
            Err(e) => {
                return Err(e);
            }
        };
        let rem: usize = n % 4;
        if rem != 0 {
            match self.read_exact_buf(4 - rem) {
                Ok(_) => {}
                Err(e) => {
                    return Err(e);
                }
            }
        }
        proof {
            if old(self).faithful() {
                let s = old(self).avail();
                if s.len() >= n + pad_len(n as int) {
                    assert(s.skip(n as int).skip(pad_len(n as int)) =~= s.skip(
                        n + pad_len(n as int),
                    ));
                }
            }
        }
        Ok(data)
    }

    /// Reads a variable-length opaque item: a 4-byte count, that many
    /// payload bytes, their padding.
    pub fn read_variable_opaque(&mut self) -> (r: Result<Vec<u8>, Error>)
        ensures
            final(self).faithful() == old(self).faithful(),
            r matches Err(e) ==> (e is UnexpectedEof || e is Io),
            old(self).faithful() ==> match dec_var_opaque(old(self).avail()) {
                Some(b_rest) => r matches Ok(d) && d@ == b_rest.0 && final(self).avail()
                    == b_rest.1,
                None => r == Err::<Vec<u8>, Error>(Error::UnexpectedEof),
            },
    {
        let n = match self.read_u32() {
            Ok(n) => n,
            Err(e) => {
                return Err(e);
            }
        };
        self.read_padded_bytes(n as usize)
    }

    /// Reads a 4-byte boolean. Wire values other than 0 and 1 fail
    /// with [`Error::InvalidBool`].
    pub fn read_bool(&mut self) -> (r: Result<bool, Error>)
        ensures
            final(self).faithful() == old(self).faithful(),
            r matches Err(e) ==> (e is UnexpectedEof || e is Io || e is InvalidBool),
            old(self).faithful() ==> match dec_u32(old(self).avail()) {
                Some(v_rest) => final(self).avail() == v_rest.1 && r == (if v_rest.0 == 0 {
                    Ok::<bool, Error>(false)
                } else if v_rest.0 == 1 {
                    Ok::<bool, Error>(true)
                } else {
                    Err::<bool, Error>(Error::InvalidBool(v_rest.0))
                }),
                None => r == Err::<bool, Error>(Error::UnexpectedEof) && final(self).avail()
                    == old(self).avail(),
            },
    {
        match self.read_u32() {
            Ok(0) => Ok(false),
            Ok(1) => Ok(true),
            Ok(v) => Err(Error::InvalidBool(v)),
            Err(e) => Err(e),
        }
    }

    /// Reads the 4-byte discriminant of optional data. Wire values
    /// other than 0 and 1 fail with [`Error::InvalidOption`].
    pub fn read_option_tag(&mut self) -> (r: Result<bool, Error>)
        ensures
            final(self).faithful() == old(self).faithful(),
            r matches Err(e) ==> (e is UnexpectedEof || e is Io || e is InvalidOption),
            old(self).faithful() ==> match dec_u32(old(self).avail()) {
                Some(v_rest) => final(self).avail() == v_rest.1 && r == (if v_rest.0 == 0 {
                    Ok::<bool, Error>(false)
                } else if v_rest.0 == 1 {
                    Ok::<bool, Error>(true)
                } else {
                    Err::<bool, Error>(Error::InvalidOption(v_rest.0))
                }),
                None => r == Err::<bool, Error>(Error::UnexpectedEof) && final(self).avail()
                    == old(self).avail(),
            },
    {
        match self.read_u32() {
            Ok(0) => Ok(false),
            Ok(1) => Ok(true),
            Ok(v) => Err(Error::InvalidOption(v)),
            Err(e) => Err(e),
        }
    }

    /// Reads a narrow signed integer from a 4-byte int by truncation.
    pub fn read_i8(&mut self) -> (r: Result<i8, Error>)
        ensures
            final(self).faithful() == old(self).faithful(),
            r matches Err(e) ==> (e is UnexpectedEof || e is Io),
            old(self).faithful() ==> match dec_i32(old(self).avail()) {
                Some(v_rest) => r == Ok::<i8, Error>(v_rest.0 as i8) && final(self).avail()
                    == v_rest.1,
                None => r == Err::<i8, Error>(Error::UnexpectedEof) && final(self).avail() == old(self).avail(),
            },
    {
        match self.read_i32() {
            Ok(v) => Ok(v as i8),
            Err(e) => Err(e),
        }
    }

    /// Reads a narrow signed integer from a 4-byte int by truncation.
    pub fn read_i16(&mut self) -> (r: Result<i16, Error>)
        ensures
            final(self).faithful() == old(self).faithful(),
            r matches Err(e) ==> (e is UnexpectedEof || e is Io),
            old(self).faithful() ==> match dec_i32(old(self).avail()) {
                Some(v_rest) => r == Ok::<i16, Error>(v_rest.0 as i16) && final(self).avail()
                    == v_rest.1,
                None => r == Err::<i16, Error>(Error::UnexpectedEof) && final(self).avail()
                    == old(self).avail(),
            },
    {
        match self.read_i32() {
            Ok(v) => Ok(v as i16),
            Err(e) => Err(e),
        }
    }

    /// Reads a narrow unsigned integer from a 4-byte unsigned int by
    /// truncation.
    pub fn read_u8(&mut self) -> (r: Result<u8, Error>)
        ensures
            final(self).faithful() == old(self).faithful(),
            r matches Err(e) ==> (e is UnexpectedEof || e is Io),
            old(self).faithful() ==> match dec_u32(old(self).avail()) {
                Some(v_rest) => r == Ok::<u8, Error>(v_rest.0 as u8) && final(self).avail()
                    == v_rest.1,
                None => r == Err::<u8, Error>(Error::UnexpectedEof) && final(self).avail() == old(self).avail(),
            },
    {
        match self.read_u32() {
            Ok(v) => Ok(v as u8),
            Err(e) => Err(e),
        }
    }

    /// Reads a narrow unsigned integer from a 4-byte unsigned int by
    /// truncation.
    pub fn read_u16(&mut self) -> (r: Result<u16, Error>)
        ensures
            final(self).faithful() == old(self).faithful(),
            r matches Err(e) ==> (e is UnexpectedEof || e is Io),
            old(self).faithful() ==> match dec_u32(old(self).avail()) {
                Some(v_rest) => r == Ok::<u16, Error>(v_rest.0 as u16) && final(self).avail()
                    == v_rest.1,
                None => r == Err::<u16, Error>(Error::UnexpectedEof) && final(self).avail()
                    == old(self).avail(),
            },
    {
        match self.read_u32() {
            Ok(v) => Ok(v as u16),
            Err(e) => Err(e),
        }
    }

    /// Reads a character from a 4-byte unsigned int. Values outside
    /// the Unicode scalar range fail with [`Error::InvalidString`].
    pub fn read_char(&mut self) -> (r: Result<char, Error>)
        ensures
            final(self).faithful() == old(self).faithful(),
            r matches Err(e) ==> (e is UnexpectedEof || e is Io || e is InvalidString),
            old(self).faithful() ==> match dec_u32(old(self).avail()) {
                Some(v_rest) => final(self).avail() == v_rest.1 && (if is_scalar(v_rest.0) {
                    r matches Ok(c) && c as u32 == v_rest.0
                } else {
                    r == Err::<char, Error>(Error::InvalidString)
                }),
                None => r == Err::<char, Error>(Error::UnexpectedEof) && final(self).avail()
                    == old(self).avail(),
            },
    {
        let v = match self.read_u32() {
            Ok(v) => v,
            Err(e) => {
                return Err(e);
            }
        };
        match char_from_u32(v) {
            Some(c) => Ok(c),
            None => Err(Error::InvalidString),
        }
    }

    /// Reads a string as variable-length opaque data into an owned
    /// `String`; non-UTF-8 bytes fail with [`Error::InvalidString`].
    pub fn read_string(&mut self) -> (r: Result<String, Error>)
        ensures
            final(self).faithful() == old(self).faithful(),
            r matches Err(e) ==> (e is UnexpectedEof || e is Io || e is InvalidString),
            old(self).faithful() ==> match dec_var_opaque(old(self).avail()) {
                Some(b_rest) => final(self).avail() == b_rest.1 && (if valid_utf8(b_rest.0) {
                    r matches Ok(s) && s@ == decode_utf8(b_rest.0) && encode_utf8(s@) == b_rest.0
                } else {
                    r == Err::<String, Error>(Error::InvalidString)
                }),
                None => r == Err::<String, Error>(Error::UnexpectedEof),
            },
    {
        let bytes = match self.read_variable_opaque() {
            Ok(b) => b,
            Err(e) => {
                return Err(e);
            }
        };
        match str_from_utf8(bytes.as_slice()) {
            Ok(s) => {
                proof {
                    lemma_utf8_chars_of_bytes(s@, bytes@);
                }
                Ok(s.to_owned())
            }
            Err(e) => Err(e),
        }
    }
}

} // verus!
