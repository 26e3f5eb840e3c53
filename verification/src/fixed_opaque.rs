//! Fixed-length opaque data (RFC 4506 section 4.9).
//!
//! A fixed-length byte array of `N` elements is encoded as the `N` raw
//! bytes followed by 0-3 zero bytes of padding — no count prefix, and
//! no promotion of each byte to a 4-byte integer. The default
//! aggregate path would emit `4 * N` bytes for the same array; the
//! [`XdrFixedOpaque`] trait routes such fields through
//! [`Serializer::serialize_fixed_opaque`] and
//! [`Deserializer::read_padded_bytes`] instead.

use vstd::prelude::*;

use crate::de::{ByteSource, Deserializer, ReaderDeserializer};
use crate::error::Error;
use crate::ser::{ByteSink, Serializer};
use crate::wire::{dec_padded, enc_padded};

verus! {

/// Closes [`XdrFixedOpaque`] to outside implementations: only byte
/// arrays carry the fixed-opaque encoding.
pub trait Sealed {

}

/// A value that is encoded as XDR fixed-length opaque data.
///
/// Implemented for `[u8; N]` for every `N`. The wire length is the
/// array length; the bytes cross the wire unchanged.
pub trait XdrFixedOpaque: Sealed + View<V = Seq<u8>> + Sized {
    /// The byte length on the wire (before padding).
    spec fn spec_fixed_len() -> usize;

    /// The byte length on the wire (before padding).
    fn fixed_len() -> (r: usize)
        ensures
            r == Self::spec_fixed_len(),
    ;

    /// Borrows the raw bytes.
    fn as_bytes(&self) -> (r: &[u8])
        ensures
            r@ == self@,
            r@.len() == Self::spec_fixed_len(),
    ;

    /// Reconstructs the value from a slice of exactly
    /// [`Self::fixed_len`] bytes; any other length yields `None`.
    fn from_exact_bytes(bytes: &[u8]) -> (r: Option<Self>)
        ensures
            match r {
                Some(v) => bytes@.len() == Self::spec_fixed_len() && v@ == bytes@,
                None => bytes@.len() != Self::spec_fixed_len(),
            },
    ;
}

impl<const N: usize> Sealed for [u8; N] {

}

impl<const N: usize> XdrFixedOpaque for [u8; N] {
    open spec fn spec_fixed_len() -> usize {
        N
    }

    fn fixed_len() -> (r: usize)
        ensures
            r == Self::spec_fixed_len(),
    {
        N
    }

    fn as_bytes(&self) -> (r: &[u8])
        ensures
            r@ == self@,
            r@.len() == Self::spec_fixed_len(),
    {
        self.as_slice()
    }

    fn from_exact_bytes(bytes: &[u8]) -> (r: Option<Self>)
        ensures
            match r {
                Some(v) => bytes@.len() == Self::spec_fixed_len() && v@ == bytes@,
                None => bytes@.len() != Self::spec_fixed_len(),
            },
    {
        if bytes.len() != N {
            return None;
        }
        let mut a: [u8; N] = [0u8; N];
        let mut i: usize = 0;
        while i < N
            invariant
                i <= N,
                bytes@.len() == N,
                a@.len() == N,
                forall|j: int| 0 <= j < i ==> a@[j] == bytes@[j],
            decreases N - i,
        {
            a[i] = bytes[i];
            i = i + 1;
        }
        proof {
            assert(a@ =~= bytes@);
        }
        Some(a)
    }
}

/// Encodes `value` as fixed-length opaque data: its raw bytes plus
/// padding, with no count prefix.
pub fn serialize_fixed<T: XdrFixedOpaque, S: ByteSink>(value: &T, out: &mut Serializer<S>) -> (r:
    Result<(), Error>)
    ensures
        final(out).infallible() == old(out).infallible(),
        old(out).infallible() ==> r is Ok,
        match r {
            Ok(()) => final(out).out() == old(out).out() + enc_padded(value@),
            Err(e) => e is Io,
        },
{
    out.serialize_fixed_opaque(value.as_bytes())
}

/// Decodes a fixed-length opaque value from a byte slice: exactly
/// `T::fixed_len()` raw bytes plus their padding are consumed.
pub fn deserialize_fixed<'a, T: XdrFixedOpaque>(de: &mut Deserializer<'a>) -> (r: Result<
    T,
    Error,
>)
    requires
        old(de).wf(),
    ensures
        final(de).wf(),
        final(de).input == old(de).input,
        match dec_padded(T::spec_fixed_len() as int, old(de).rem()) {
            Some(b_rest) => r matches Ok(v) && v@ == b_rest.0 && final(de).rem() == b_rest.1,
            None => r == Err::<T, Error>(Error::UnexpectedEof),
        },
{
    let bytes = match de.read_padded_bytes(T::fixed_len()) {
        Ok(b) => b,
        Err(e) => {
            return Err(e);
        }
    };
    match T::from_exact_bytes(bytes) {
        Some(v) => Ok(v),
        None => Err(Error::UnexpectedEof),
    }
}

/// Decodes a fixed-length opaque value from a pull-based source.
pub fn deserialize_fixed_from_reader<T: XdrFixedOpaque, R: ByteSource>(
    de: &mut ReaderDeserializer<R>,
) -> (r: Result<T, Error>)
    ensures
        final(de).faithful() == old(de).faithful(),
        r matches Err(e) ==> (e is UnexpectedEof || e is Io),
        old(de).faithful() ==> match dec_padded(T::spec_fixed_len() as int, old(de).avail()) {
            Some(b_rest) => r matches Ok(v) && v@ == b_rest.0 && final(de).avail() == b_rest.1,
            None => r == Err::<T, Error>(Error::UnexpectedEof),
        },
{
    let bytes = match de.read_padded_bytes(T::fixed_len()) {
        Ok(b) => b,
        Err(e) => {
            return Err(e);
        }
    };
    match T::from_exact_bytes(bytes.as_slice()) {
        Some(v) => Ok(v),
        None => Err(Error::UnexpectedEof),
    }
}

} // verus!
