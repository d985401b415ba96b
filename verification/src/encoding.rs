//! Base64 (RFC 4648, standard alphabet, padded) for binary attachments.
use vstd::prelude::*;

use base64::Engine;

use crate::text::{decimal, push_decimal};

verus! {

/// Why a text is not valid padded base64 (one variant per decoding error
/// of the `base64` crate, with the same fields).
#[derive(Debug, Clone, Copy, PartialEq, Eq, Structural)]
pub enum Base64Error {
    /// A symbol outside the alphabet, or a misplaced `=`.
    InvalidByte { offset: usize, byte: u8 },
    /// The number of symbols cannot end a quad.
    InvalidLength { length: usize },
    /// The last symbol has bits set that would be discarded.
    InvalidLastSymbol { offset: usize, byte: u8 },
    /// The padding is absent or wrong.
    InvalidPadding,
}

/// The symbol of a 6-bit value in the standard alphabet (RFC 4648):
/// `A`-`Z`, `a`-`z`, `0`-`9`, `+`, `/`.
pub open spec fn base64_symbol(v: int) -> char {
    if v < 26 {
        (65 + v) as char
    } else if v < 52 {
        (97 + (v - 26)) as char
    } else if v < 62 {
        (48 + (v - 52)) as char
    } else if v == 62 {
        '+'
    } else {
        '/'
    }
}

/// The padded standard base64 text of `bytes`: each group of three bytes
/// becomes four symbols of six bits each; a last group of one or two bytes
/// is completed with zero bits and padded with `=` to four characters.
pub open spec fn base64_encoded(bytes: Seq<u8>) -> Seq<char>
    decreases bytes.len(),
{
    if bytes.len() == 0 {
        Seq::empty()
    } else if bytes.len() == 1 {
        let x = bytes[0] as int;
        seq![base64_symbol(x / 4), base64_symbol((x % 4) * 16), '=', '=']
    } else if bytes.len() == 2 {
        let x = bytes[0] as int;
        let y = bytes[1] as int;
        seq![base64_symbol(x / 4), base64_symbol((x % 4) * 16 + y / 16), base64_symbol((y % 16) * 4), '=']
    } else {
        let x = bytes[0] as int;
        let y = bytes[1] as int;
        let z = bytes[2] as int;
        seq![
            base64_symbol(x / 4),
            base64_symbol((x % 4) * 16 + y / 16),
            base64_symbol((y % 16) * 4 + z / 64),
            base64_symbol(z % 64),
        ] + base64_encoded(bytes.skip(3))
    }
}

/// The bytes that a padded standard base64 text stands for, or why it
/// stands for none.
pub uninterp spec fn base64_decoded(text: Seq<char>) -> Result<Seq<u8>, Base64Error>;

/// `text` decodes to `bytes`.
pub open spec fn decodes_to(text: Seq<char>, bytes: Seq<u8>) -> bool {
    base64_decoded(text) == Ok::<Seq<u8>, Base64Error>(bytes)
}

/// The view of a decoding outcome.
pub open spec fn decoded_view(r: Result<Vec<u8>, Base64Error>) -> Result<Seq<u8>, Base64Error> {
    match r {
        Ok(v) => Ok(v@),
        Err(e) => Err(e),
    }
}

/// `base64::engine::general_purpose::STANDARD.encode`: the padded
/// standard-alphabet text of the bytes (RFC 4648, section 4), stated
/// group by group, and decoding it with the same engine gives the bytes back (the
/// round trip that RFC 4648 defines and the crate's tests check). The
/// crate panics when the text's length overflows `usize`; the bound rules
/// that out.
#[verifier::external_body]
pub(crate) fn encode_standard(bytes: &[u8]) -> (s: String)
    requires
        (bytes@.len() / 3 + 1) * 4 <= usize::MAX,
    ensures
        s@ == base64_encoded(bytes@),
        decodes_to(s@, bytes@),
{
    base64::engine::general_purpose::STANDARD.encode(bytes)
}

/// `base64::engine::general_purpose::STANDARD.decode`: the bytes of a
/// padded standard-alphabet text, or the crate's error, variant for variant.
/// The contract names the outcome; what it is on a given text is not stated.
#[verifier::external_body]
pub(crate) fn decode_standard(text: &str) -> (r: Result<Vec<u8>, Base64Error>)
    ensures
        decoded_view(r) == base64_decoded(text@),
{
    match base64::engine::general_purpose::STANDARD.decode(text) {
        Ok(v) => Ok(v),
        Err(base64::DecodeError::InvalidByte(offset, byte)) => Err(Base64Error::InvalidByte { offset, byte }),
        Err(base64::DecodeError::InvalidLength(length)) => Err(Base64Error::InvalidLength { length }),
        Err(base64::DecodeError::InvalidLastSymbol(offset, byte)) => Err(
            Base64Error::InvalidLastSymbol { offset, byte },
        ),
        Err(base64::DecodeError::InvalidPadding) => Err(Base64Error::InvalidPadding),
    }
}

/// The text of a decoding error, as the `base64` crate displays it.
pub open spec fn base64_error_text(e: Base64Error) -> Seq<char> {
    match e {
        Base64Error::InvalidByte { offset, byte } => "Invalid symbol "@ + decimal(byte as nat) + ", offset "@
            + decimal(offset as nat) + "."@,
        Base64Error::InvalidLength { length } => "Invalid input length: "@ + decimal(length as nat),
        Base64Error::InvalidLastSymbol { offset, byte } => "Invalid last symbol "@ + decimal(byte as nat)
            + ", offset "@ + decimal(offset as nat) + "."@,
        Base64Error::InvalidPadding => "Invalid padding"@,
    }
}

impl Base64Error {
    /// The error's text, as the `base64` crate displays it.
    pub fn message(&self) -> (s: String)
        ensures
            s@ == base64_error_text(*self),
    {
        let mut s = String::new();
        match *self {
            Base64Error::InvalidByte { offset, byte } => {
                s.append("Invalid symbol ");
                push_decimal(&mut s, byte as u64);
                s.append(", offset ");
                push_decimal(&mut s, offset as u64);
                s.append(".");
            },
            Base64Error::InvalidLength { length } => {
                s.append("Invalid input length: ");
                push_decimal(&mut s, length as u64);
            },
            Base64Error::InvalidLastSymbol { offset, byte } => {
                s.append("Invalid last symbol ");
                push_decimal(&mut s, byte as u64);
                s.append(", offset ");
                push_decimal(&mut s, offset as u64);
                s.append(".");
            },
            Base64Error::InvalidPadding => {
                s.append("Invalid padding");
            },
        }
        s
    }
}

} // verus!
