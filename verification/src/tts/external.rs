//! The calls into outside crates that reading the speech service's replies needs:
//! Base64 decoding and its error messages (`base64`) and reading one member of a JSON document
//! (`serde_json`). Verus does not see inside these crates; the contracts below are
//! what this library takes on trust about them.

use crate::text::decimal;
use base64::Engine as _;
use vstd::prelude::*;

verus! {

/// Why a Base64 decoding failed: the variants of `base64::DecodeError`, with their
/// fields.
#[derive(Debug, Clone, Copy, PartialEq, Eq, Structural)]
pub enum Base64Failure {
    /// A byte outside the alphabet, at `offset`.
    InvalidByte { offset: usize, byte: u8 },
    /// A number of symbols that no padded text can have.
    InvalidLength { length: usize },
    /// A last symbol at `offset` whose unused bits are not zero.
    InvalidLastSymbol { offset: usize, byte: u8 },
    /// Padding that is absent or not canonical.
    InvalidPadding,
}

/// What `base64::engine::general_purpose::STANDARD.decode` gives for a text: the
/// decoded bytes, or why it refuses the text. The standard alphabet with canonical
/// `=` padding is a fixed algorithm, so the result depends on the text alone.
pub uninterp spec fn base64_standard_decode(text: Seq<char>) -> Result<Seq<u8>, Base64Failure>;

/// Decodes `text` as standard, padded Base64 by calling
/// `base64::engine::general_purpose::STANDARD.decode` (the `Engine::decode` method of
/// the `base64` crate), and turns its `DecodeError` into the matching
/// `Base64Failure`. Trusted: the result is `base64_standard_decode(text@)`.
#[verifier::external_body]
pub fn base64_decode(text: &str) -> (res: Result<Vec<u8>, Base64Failure>)
    ensures
        match res {
            Ok(bytes) => base64_standard_decode(text@) == Ok::<Seq<u8>, Base64Failure>(bytes@),
            Err(f) => base64_standard_decode(text@) == Err::<Seq<u8>, Base64Failure>(f),
        },
{
    match base64::engine::general_purpose::STANDARD.decode(text) {
        Ok(bytes) => Ok(bytes),
        Err(base64::DecodeError::InvalidByte(offset, byte)) => Err(Base64Failure::InvalidByte { offset, byte }),
        Err(base64::DecodeError::InvalidLength(length)) => Err(Base64Failure::InvalidLength { length }),
        Err(base64::DecodeError::InvalidLastSymbol(offset, byte)) => Err(Base64Failure::InvalidLastSymbol { offset, byte }),
        Err(base64::DecodeError::InvalidPadding) => Err(Base64Failure::InvalidPadding),
    }
}

/// The message that the `Display` impl of `base64::DecodeError` writes for each
/// variant (base64 0.22, `decode.rs`): numbers in decimal.
pub open spec fn base64_error_message(f: Base64Failure) -> Seq<char> {
    match f {
        Base64Failure::InvalidByte { offset, byte } => "Invalid symbol "@ + decimal(byte as nat)
            + ", offset "@ + decimal(offset as nat) + "."@,
        Base64Failure::InvalidLength { length } => "Invalid input length: "@ + decimal(
            length as nat,
        ),
        Base64Failure::InvalidLastSymbol { offset, byte } => "Invalid last symbol "@ + decimal(
            byte as nat,
        ) + ", offset "@ + decimal(offset as nat) + "."@,
        Base64Failure::InvalidPadding => "Invalid padding"@,
    }
}

/// The message of a decoding failure, written by the `Display` impl of
/// `base64::DecodeError` for the matching variant. Trusted: the text is
/// `base64_error_message(*failure)`, as that impl's `write!` calls show.
#[verifier::external_body]
pub fn decode_error_text(failure: &Base64Failure) -> (res: String)
    ensures
        res@ == base64_error_message(*failure),
{
    let err = match *failure {
        Base64Failure::InvalidByte { offset, byte } => base64::DecodeError::InvalidByte(offset, byte),
        Base64Failure::InvalidLength { length } => base64::DecodeError::InvalidLength(length),
        Base64Failure::InvalidLastSymbol { offset, byte } => base64::DecodeError::InvalidLastSymbol(offset, byte),
        Base64Failure::InvalidPadding => base64::DecodeError::InvalidPadding,
    };
    err.to_string()
}

/// What reading the member `key` of the JSON text `text` as a boolean gives:
/// `None` where `text` is not JSON, `Some(None)` where it is JSON but not an object
/// with a boolean member `key`, and `Some(Some(b))` where that member is the boolean
/// `b`. JSON parsing is a fixed algorithm, so the result depends on the two texts
/// alone.
pub uninterp spec fn json_bool_member(text: Seq<char>, key: Seq<char>) -> Option<Option<bool>>;

/// Parses `text` with `serde_json::from_str` into a `serde_json::Value` and, when it
/// parses, reads the member `key` with `Value::get` and `Value::as_bool`. Trusted: the
/// result is `json_bool_member(text@, key@)`.
#[verifier::external_body]
pub fn read_json_bool_member(text: &str, key: &str) -> (res: Option<Option<bool>>)
    ensures
        res == json_bool_member(text@, key@),
{
    match serde_json::from_str::<serde_json::Value>(text) {
        Ok(value) => match value.get(key) {
            Some(member) => Some(member.as_bool()),
            None => Some(None),
        },
        Err(_) => None,
    }
}

} // verus!
