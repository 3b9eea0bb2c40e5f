//! The hash primitives and the key derivation chain built on them.

use crate::errors::SigningError;
use crate::text::{hex_encode, hex_text};
use hmac::digest::InvalidLength;
use hmac::{Mac, SimpleHmac};
use sha2::{Digest, Sha256};
use vstd::prelude::*;
use vstd::string::StringExecFns;
use vstd::utf8::encode_utf8;

verus! {

/// What stands before the secret in the first key of the chain.
pub const KEY_PREFIX: &'static str = "AWS4";

/// The last part of every credential scope, and the message of the last
/// link of the chain.
pub const SCOPE_TERMINATOR: &'static str = "aws4_request";

/// The SHA-256 digest of `message`.
pub uninterp spec fn sha256(message: Seq<u8>) -> Seq<u8>;

/// The HMAC-SHA256 authentication code of `message` under `key`.
pub uninterp spec fn hmac_sha256(key: Seq<u8>, message: Seq<u8>) -> Seq<u8>;

/// The error of the `hmac` crate's slice-based constructors.
#[verifier::external_type_specification]
#[verifier::external_body]
pub struct ExInvalidLength(hmac::digest::InvalidLength);

/// Calls `Sha256::digest` of the `sha2` crate. Trusted: the 32 bytes that
/// come back are the SHA-256 digest of `message`.
#[verifier::external_body]
fn sha256_digest(message: &[u8]) -> (digest: Vec<u8>)
    ensures
        digest@ == sha256(message@),
        digest@.len() == 32,
{
    Sha256::digest(message).to_vec()
}

/// Runs `SimpleHmac<Sha256>` of the `hmac` crate over one message:
/// `new_from_slice`, `update`, `finalize`. Trusted: a key of any length is
/// taken, and the 32 bytes that come back are the HMAC-SHA256 code of
/// `message` under `key`.
#[verifier::external_body]
fn hmac_sha256_code(key: &[u8], message: &[u8]) -> (code: Result<Vec<u8>, InvalidLength>)
    ensures
        code is Ok,
        code matches Ok(bytes) ==> bytes@ == hmac_sha256(key@, message@),
        code matches Ok(bytes) ==> bytes@.len() == 32,
{
    let mut mac = SimpleHmac::<Sha256>::new_from_slice(key)?;
    mac.update(message);
    Ok(mac.finalize().into_bytes().to_vec())
}

/// The hexadecimal text of the SHA-256 digest of `text` in UTF-8.
pub open spec fn sha256_hex_text(text: Seq<char>) -> Seq<char> {
    hex_text(sha256(encode_utf8(text)))
}

/// The digest of `text`, as 64 hexadecimal digits.
pub fn sha256_hex(text: &str) -> (digest: String)
    ensures
        digest@ == sha256_hex_text(text@),
        digest@.len() == 64,
{
    let bytes = sha256_digest(text.as_bytes());
    hex_encode(bytes.as_slice())
}

/// Signs `data_bytes` with `key_bytes`: one HMAC-SHA256.
pub fn aws_sign(key_bytes: &[u8], data_bytes: &[u8]) -> (signed: Result<Vec<u8>, SigningError>)
    ensures
        signed is Ok,
        signed matches Ok(bytes) ==> bytes@ == hmac_sha256(key_bytes@, data_bytes@),
        signed matches Ok(bytes) ==> bytes@.len() == 32,
{
    match hmac_sha256_code(key_bytes, data_bytes) {
        Ok(bytes) => Ok(bytes),
        Err(_) => Err(SigningError::SigningPrimitive),
    }
}

/// The signing key of a secret for one date, region and service: four
/// chained codes, each keyed by the code before it, the first by the secret
/// behind the prefix `AWS4`.
pub open spec fn signing_key(
    secret: Seq<char>,
    date_stamp: Seq<char>,
    region: Seq<char>,
    service: Seq<char>,
) -> Seq<u8> {
    let date_key = hmac_sha256(encode_utf8(KEY_PREFIX@ + secret), encode_utf8(date_stamp));
    let region_key = hmac_sha256(date_key, encode_utf8(region));
    let service_key = hmac_sha256(region_key, encode_utf8(service));
    hmac_sha256(service_key, encode_utf8(SCOPE_TERMINATOR@))
}

/// Derives the signing key of `key` for one date, region and service.
pub fn aws_get_signature_key(
    key: &str,
    date_stamp: &str,
    region_name: &str,
    service_name: &str,
) -> (derived: Result<Vec<u8>, SigningError>)
    ensures
        derived is Ok,
        derived matches Ok(bytes) ==> bytes@ == signing_key(
            key@,
            date_stamp@,
            region_name@,
            service_name@,
        ),
        derived matches Ok(bytes) ==> bytes@.len() == 32,
{
    let mut init_key = String::from_str(KEY_PREFIX);
    init_key.append(key);
    let date_key = aws_sign(init_key.as_str().as_bytes(), date_stamp.as_bytes())?;
    let region_key = aws_sign(date_key.as_slice(), region_name.as_bytes())?;
    let service_key = aws_sign(region_key.as_slice(), service_name.as_bytes())?;
    aws_sign(service_key.as_slice(), SCOPE_TERMINATOR.as_bytes())
}

/// The signature of a text under a signing key, as hexadecimal text.
pub open spec fn signature_text(signing_key: Seq<u8>, string_to_sign: Seq<char>) -> Seq<char> {
    hex_text(hmac_sha256(signing_key, encode_utf8(string_to_sign)))
}

/// Signs `string_to_sign` with `signing_key` and writes the code as 64
/// hexadecimal digits.
pub fn aws_signature(signing_key: &[u8], string_to_sign: &str) -> (signature: Result<
    String,
    SigningError,
>)
    ensures
        signature is Ok,
        signature matches Ok(text) ==> text@ == signature_text(signing_key@, string_to_sign@),
        signature matches Ok(text) ==> text@.len() == 64,
{
    let code = aws_sign(signing_key, string_to_sign.as_bytes())?;
    Ok(hex_encode(code.as_slice()))
}

} // verus!
