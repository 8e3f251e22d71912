//! Credential-at-rest protection.
//!
//! A secret is stored as the base64 text of its ciphertext. The ciphers in
//! this library are the pass-through ones of builds without an operating
//! system key store: the "ciphertext" is the UTF-8 text itself, so stored
//! values are only base64-encoded, not encrypted. A shell that has a key store
//! (DPAPI on Windows) encrypts and decrypts around [`crate::base64::encode`]
//! and [`crate::base64::decode`] itself, and reads what it recovered with
//! [`plaintext_text`] or [`field_text`].

use vstd::prelude::*;
use vstd::utf8::{decode_utf8, encode_utf8, valid_utf8};
use crate::base64::{base64_round_trip, decode, decoding, encode, encoding};

verus! {

/// Whether secrets written through this library are encrypted: they are not
/// (see the module documentation).
pub const ENCRYPTION_ACTIVE: bool = false;

/// Why a stored secret could not be recovered.
#[derive(Debug, Clone, Copy, PartialEq, Eq)]
pub enum StoreError {
    /// The stored text is not base64.
    InvalidBase64,
    /// The recovered bytes are not UTF-8 text.
    InvalidUtf8,
}

impl StoreError {
    /// The human-readable description of the error.
    pub fn message(&self) -> (res: &'static str)
        ensures
            res@ == (match self {
                StoreError::InvalidBase64 => "invalid base64 character in stored credential"@,
                StoreError::InvalidUtf8 => "decrypted data was not valid UTF-8"@,
            }),
    {
        match self {
            StoreError::InvalidBase64 => "invalid base64 character in stored credential",
            StoreError::InvalidUtf8 => "decrypted data was not valid UTF-8",
        }
    }
}

/// The stored form of the secret `plaintext`.
pub open spec fn protected(plaintext: Seq<char>) -> Seq<char> {
    encoding(encode_utf8(plaintext))
}

/// What recovering the stored text `encoded` gives.
pub open spec fn unprotected(encoded: Seq<char>) -> Result<Seq<char>, StoreError> {
    match decoding(encode_utf8(encoded)) {
        Err(_) => Err(StoreError::InvalidBase64),
        Ok(bytes) => if valid_utf8(bytes) {
            Ok(decode_utf8(bytes))
        } else {
            Err(StoreError::InvalidUtf8)
        },
    }
}

/// `String::from_utf8`, with its error dropped. Trusted: it succeeds exactly
/// when the bytes are valid UTF-8, and then the string holds the characters
/// they encode.
#[verifier::external_body]
fn string_from_utf8(bytes: Vec<u8>) -> (res: Option<String>)
    ensures
        res is Some == valid_utf8(bytes@),
        res matches Some(s) ==> s@ == decode_utf8(bytes@),
{
    String::from_utf8(bytes).ok()
}

/// Pass-through "encryption": the bytes are kept as they are.
pub fn encrypt(plaintext: &[u8]) -> (res: Result<Vec<u8>, StoreError>)
    ensures
        res matches Ok(v) && v@ == plaintext@,
{
    Ok(vstd::slice::slice_to_vec(plaintext))
}

/// Pass-through "decryption": the bytes are kept as they are.
pub fn decrypt(ciphertext: &[u8]) -> (res: Result<Vec<u8>, StoreError>)
    ensures
        res matches Ok(v) && v@ == ciphertext@,
{
    Ok(vstd::slice::slice_to_vec(ciphertext))
}

/// Protects a secret for storage and returns it as base64 text.
pub fn protect(plaintext: &str) -> (res: Result<String, StoreError>)
    ensures
        res matches Ok(s) && s@ == protected(plaintext@),
{
    let bytes = encrypt(plaintext.as_bytes())?;
    Ok(encode(bytes.as_slice()))
}

/// The text that recovered plaintext bytes hold, or `InvalidUtf8` when they
/// are not UTF-8.
pub fn plaintext_text(bytes: Vec<u8>) -> (res: Result<String, StoreError>)
    ensures
        match res {
            Ok(s) => valid_utf8(bytes@) && s@ == decode_utf8(bytes@),
            Err(e) => !valid_utf8(bytes@) && e == StoreError::InvalidUtf8,
        },
{
    match string_from_utf8(bytes) {
        Some(s) => Ok(s),
        None => Err(StoreError::InvalidUtf8),
    }
}

/// Reverses [`protect`], turning stored base64 text back into the secret.
pub fn unprotect(encoded: &str) -> (res: Result<String, StoreError>)
    ensures
        match res {
            Ok(s) => unprotected(encoded@) == Ok::<Seq<char>, StoreError>(s@),
            Err(e) => unprotected(encoded@) == Err::<Seq<char>, StoreError>(e),
        },
{
    let bytes = match decode(encoded) {
        Ok(bytes) => bytes,
        Err(_) => return Err(StoreError::InvalidBase64),
    };
    let plaintext = decrypt(bytes.as_slice())?;
    plaintext_text(plaintext)
}

/// What a stored field reads as, given the plaintext bytes recovered from it
/// (`None` when decoding or decrypting failed): empty for an empty field or
/// when nothing readable was recovered.
pub open spec fn field_reading(stored: Seq<char>, plaintext: Option<Seq<u8>>) -> Seq<char> {
    if stored.len() == 0 {
        seq![]
    } else {
        match plaintext {
            Some(bytes) => if valid_utf8(bytes) {
                decode_utf8(bytes)
            } else {
                seq![]
            },
            None => seq![],
        }
    }
}

/// The value of the stored field `stored`, given the plaintext bytes that
/// decoding and decrypting it gave (`None` when either failed).
pub fn field_text(stored: &str, plaintext: Option<Vec<u8>>) -> (res: String)
    ensures
        res@ == field_reading(
            stored@,
            match plaintext {
                Some(v) => Some(v@),
                None => None,
            },
        ),
{
    if stored.is_empty() {
        return String::new();
    }
    match plaintext {
        Some(bytes) => match plaintext_text(bytes) {
            Ok(s) => s,
            Err(_) => String::new(),
        },
        None => String::new(),
    }
}

/// Recovering the stored form of a secret gives back the secret.
pub proof fn protect_round_trip(plaintext: Seq<char>)
    ensures
        unprotected(protected(plaintext)) == Ok::<Seq<char>, StoreError>(plaintext),
{
    base64_round_trip(encode_utf8(plaintext));
    vstd::utf8::encode_utf8_valid_utf8(plaintext);
    vstd::utf8::encode_utf8_decode_utf8(plaintext);
}

/// Stored forms hold no whitespace, and only the empty secret has an empty
/// stored form.
pub proof fn protected_is_plain(plaintext: Seq<char>)
    ensures
        forall|i: int|
            0 <= i < protected(plaintext).len() ==> !crate::text::is_white_space(
                #[trigger] protected(plaintext)[i],
            ),
        protected(plaintext).len() == 0 ==> plaintext.len() == 0,
{
    crate::base64::encoding_has_no_whitespace(encode_utf8(plaintext));
    protect_round_trip(plaintext);
    if protected(plaintext).len() == 0 {
        let empty: Seq<char> = seq![];
        assert(protected(plaintext) == empty);
        assert(encode_utf8(empty) == Seq::<u8>::empty());
        let nothing: Seq<u8> = seq![];
        assert(crate::base64::without_spaces(nothing) == nothing);
        assert(crate::base64::without_padding(nothing) == nothing);
        assert(crate::base64::pack(crate::base64::sextets(nothing)) == nothing);
        assert(decode_utf8(nothing) == empty);
    }
}

} // verus!
