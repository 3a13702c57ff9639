//! Webhook signatures: HMAC-SHA256 over the payload, keyed by the shared
//! secret, carried as standard base64 text.

use vstd::prelude::*;
use vstd::utf8::*;
use base64::Engine;
use hmac::Mac;
use crate::text::str_equal;

verus! {

/// The HMAC-SHA256 tag of `message` under `key`.
pub uninterp spec fn hmac_sha256_tag(key: Seq<u8>, message: Seq<u8>) -> Seq<u8>;

/// The standard-alphabet, padded base64 text of `bytes`.
pub uninterp spec fn base64_standard(bytes: Seq<u8>) -> Seq<char>;

/// The error of `hmac`'s key setup, `hmac::digest::InvalidLength`, carried
/// through as a value of which nothing is known.
#[verifier::external_type_specification]
#[verifier::external_body]
pub struct ExInvalidLength(hmac::digest::InvalidLength);

/// The signature that a sender holding `secret` attaches to `payload`.
pub open spec fn expected_signature(secret: Seq<char>, payload: Seq<char>) -> Seq<char> {
    base64_standard(hmac_sha256_tag(encode_utf8(secret), encode_utf8(payload)))
}

/// Whether `signature` is accepted for `payload` under `secret`.
pub open spec fn accepts(secret: Seq<char>, signature: Seq<char>, payload: Seq<char>) -> bool {
    signature == expected_signature(secret, payload)
}

/// Runs `hmac::Hmac<sha2::Sha256>` over `message`: `new_from_slice`, `update`,
/// `finalize`. Trusted: the tag is the HMAC-SHA256 of the message under the
/// key, 32 bytes long, and key setup accepts a key of any length.
#[verifier::external_body]
fn hmac_sha256(key: &[u8], message: &[u8]) -> (tag: Result<Vec<u8>, hmac::digest::InvalidLength>)
    ensures
        tag is Ok,
        tag->Ok_0@ == hmac_sha256_tag(key@, message@),
        tag->Ok_0@.len() == 32,
{
    let mut mac = hmac::Hmac::<sha2::Sha256>::new_from_slice(key)?;
    mac.update(message);
    Ok(mac.finalize().into_bytes().to_vec())
}

/// The number of characters of the padded base64 text of `count` bytes:
/// four for every three bytes, the last three possibly in part.
pub open spec fn base64_len(count: nat) -> nat {
    ((count + 2) / 3 * 4) as nat
}

/// Calls `base64::engine::general_purpose::STANDARD.encode`. Trusted: the text
/// is the padded standard base64 of the bytes, four characters for every
/// three bytes or part of three. The encoder panics when the encoded length
/// does not fit in `usize`, which the precondition excludes.
#[verifier::external_body]
fn base64_encode(bytes: &[u8]) -> (text: String)
    requires
        (bytes@.len() / 3 + 1) * 4 <= usize::MAX,
    ensures
        text@ == base64_standard(bytes@),
        text@.len() == base64_len(bytes@.len()),
{
    base64::engine::general_purpose::STANDARD.encode(bytes)
}

/// The number of characters of a signature: the base64 text of 32 bytes.
pub const SIGNATURE_LEN: usize = 44;

/// Computes the signature of `payload` under `secret`, where key setup
/// succeeds, which it does for a key of any length.
fn try_sign(secret: &str, payload: &str) -> (signature: Option<String>)
    ensures
        signature matches Some(text) && text@ == expected_signature(secret@, payload@)
            && text@.len() == SIGNATURE_LEN,
{
    match hmac_sha256(secret.as_bytes(), payload.as_bytes()) {
        Ok(tag) => Some(base64_encode(tag.as_slice())),
        Err(_) => None,
    }
}

/// Computes the signature of `payload` under `secret`: a text of 44
/// characters.
pub fn sign(secret: &str, payload: &str) -> (signature: String)
    ensures
        signature@ == expected_signature(secret@, payload@),
        signature@.len() == SIGNATURE_LEN,
{
    match try_sign(secret, payload) {
        Some(signature) => signature,
        None => String::new(),
    }
}

/// Whether a supplied signature is the expected one. Texts of the same
/// length are compared byte by byte to the end, so the duration does not
/// depend on where they first differ.
pub fn signature_matches(expected: &str, supplied: &str) -> (same: bool)
    ensures
        same == (expected@ == supplied@),
{
    str_equal(expected, supplied)
}

/// Checks `signature` against the HMAC-SHA256 of `payload` under `secret`.
/// Any text that is not exactly the expected signature is refused, and so
/// is every text where no signature can be computed to hold it against.
pub fn verify(secret: &str, signature: &str, payload: &str) -> (valid: bool)
    ensures
        valid == accepts(secret@, signature@, payload@),
        valid ==> signature@.len() == SIGNATURE_LEN,
{
    match try_sign(secret, payload) {
        Some(expected) => signature_matches(expected.as_str(), signature),
        None => false,
    }
}

/// The signature computed for a payload is accepted for that payload under
/// the same secret.
pub proof fn lemma_own_signature_accepted(secret: Seq<char>, payload: Seq<char>)
    ensures
        accepts(secret, expected_signature(secret, payload), payload),
{
}

/// A signature that differs from the computed one, in a single position or
/// anywhere else, is refused.
pub proof fn lemma_altered_signature_refused(
    secret: Seq<char>,
    payload: Seq<char>,
    altered: Seq<char>,
)
    requires
        altered != expected_signature(secret, payload),
    ensures
        !accepts(secret, altered, payload),
{
}

} // verus!
