//! Encoding and decoding of values in the XDR wire format (RFC 4506): the
//! big-endian, 4-byte-aligned serialisation used by ONC RPC and NFS.
//!
//! The crate is organised bottom-up:
//!
//! - [`wire`] gives the wire format itself as specification functions:
//!   what the byte sequence for each XDR unit is, and how a byte stream
//!   is split back into units.
//! - [`error`] is the shared failure vocabulary.
//! - [`ser`] writes XDR bytes into any [`ser::ByteSink`].
//! - [`de`] reads XDR bytes back, either zero-copy from a borrowed slice
//!   or from a pull-based [`de::ByteSource`].
//! - [`fixed_opaque`] handles fixed-length opaque byte arrays, which are
//!   written raw (no length prefix, no per-byte promotion).
//! - [`laws`] states and proves the format's round-trip and alignment
//!   properties.

pub mod de;
pub mod error;
pub mod fixed_opaque;
pub mod laws;
pub mod ser;
pub mod wire;

pub use de::{BufSource, ByteSource, Deserializer, ReaderDeserializer};
pub use error::Error;
pub use fixed_opaque::XdrFixedOpaque;
pub use ser::{ByteSink, Serializer};
pub use wire::{pad_len, padding_for};
