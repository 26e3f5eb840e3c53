//! The failure vocabulary shared by the encoder and both decoders.

use vstd::prelude::*;

verus! {

/// Everything that can go wrong while encoding or decoding XDR.
#[derive(Debug, Clone, PartialEq)]
pub enum Error {
    /// A free-form message from the layer driving the codec.
    Message(String),
    /// The decoder ran out of input bytes.
    UnexpectedEof,
    /// A sequence or map length was not known ahead of time (XDR
    /// requires the count up front).
    LengthRequired,
    /// Decoded bytes were not valid UTF-8, or a decoded character code
    /// was not a Unicode scalar value.
    InvalidString,
    /// A union discriminant was not valid; reserved for schema-level
    /// use by callers.
    InvalidDiscriminant(i32),
    /// A 4-byte boolean held a value other than 0 or 1.
    InvalidBool(u32),
    /// An optional-data discriminant held a value other than 0 or 1.
    InvalidOption(u32),
    /// Data exceeded the declared maximum length.
    LengthOverflow { max: u32, got: u32 },
    /// Padding bytes were non-zero; reserved for strict decoders.
    InvalidPadding,
    /// The requested operation has no XDR wire shape.
    Unsupported(&'static str),
    /// The underlying byte sink or byte source failed.
    Io(String),
}

impl Error {
    /// A short, fixed description of the error kind.
    pub fn describe(&self) -> (r: &'static str)
        ensures
            r@ == self.spec_describe(),
    {
        match self {
            Error::Message(_) => "codec error",
            Error::UnexpectedEof => "unexpected end of input",
            Error::LengthRequired => "sequence length must be known before serialization",
            Error::InvalidString => "string contains invalid bytes",
            Error::InvalidDiscriminant(_) => "invalid discriminant value",
            Error::InvalidBool(_) => "invalid boolean encoding (must be 0 or 1)",
            Error::InvalidOption(_) => "invalid optional discriminant (must be 0 or 1)",
            Error::LengthOverflow { .. } => "length exceeds maximum",
            Error::InvalidPadding => "non-zero padding bytes",
            Error::Unsupported(_) => "XDR does not support this type",
            Error::Io(_) => "I/O error",
        }
    }

    /// The description each variant carries.
    pub open spec fn spec_describe(&self) -> Seq<char> {
        match self {
            Error::Message(_) => "codec error"@,
            Error::UnexpectedEof => "unexpected end of input"@,
            Error::LengthRequired => "sequence length must be known before serialization"@,
            Error::InvalidString => "string contains invalid bytes"@,
            Error::InvalidDiscriminant(_) => "invalid discriminant value"@,
            Error::InvalidBool(_) => "invalid boolean encoding (must be 0 or 1)"@,
            Error::InvalidOption(_) => "invalid optional discriminant (must be 0 or 1)"@,
            Error::LengthOverflow { .. } => "length exceeds maximum"@,
            Error::InvalidPadding => "non-zero padding bytes"@,
            Error::Unsupported(_) => "XDR does not support this type"@,
            Error::Io(_) => "I/O error"@,
        }
    }
}

} // verus!
