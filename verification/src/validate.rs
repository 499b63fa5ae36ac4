//! The route finder's key check: the public key of the WireGuard private key
//! found in the user's configuration, which identifies the user to the API.
use vstd::prelude::*;

use base64::Engine;

use crate::display::{private_key_from_config, PRIVATE_KEY_PATTERN};
use crate::parse::regex_last_capture_of;
use crate::text::push_str;

verus! {

/// The standard base64 text, with padding, of `bytes`.
pub uninterp spec fn base64_encode_of(bytes: Seq<u8>) -> Seq<char>;

/// The bytes that the text `text` decodes to in standard base64, or None
/// when `text` is not valid standard base64.
pub uninterp spec fn base64_decode_of(text: Seq<char>) -> Option<Seq<u8>>;

/// The X25519 public key that belongs to the 32-byte secret `secret`.
pub uninterp spec fn x25519_public_key_of(secret: Seq<u8>) -> Seq<u8>;

/// `base64::engine::general_purpose::STANDARD.encode`.  Trusted: the text
/// is the named encoding, four characters for every started group of three
/// bytes (the padded length that `base64::encoded_len` documents).
#[verifier::external_body]
fn base64_encode(bytes: &[u8]) -> (res: String)
    requires
        bytes@.len() <= isize::MAX,
    ensures
        res@ == base64_encode_of(bytes@),
        res@.len() == 4 * ((bytes@.len() + 2) / 3),
{
    base64::engine::general_purpose::STANDARD.encode(bytes)
}

/// `base64::engine::general_purpose::STANDARD.decode`.  Trusted: `Ok`
/// carries the named bytes, an error means the text is not valid base64.
#[verifier::external_body]
fn base64_decode(text: &str) -> (res: Option<Vec<u8>>)
    ensures
        res matches Some(b) ==> base64_decode_of(text@) == Some(b@),
        res is None ==> base64_decode_of(text@) is None,
{
    base64::engine::general_purpose::STANDARD.decode(text).ok()
}

/// `x25519_dalek::PublicKey::from(&StaticSecret::from(secret))`, as bytes.
/// Trusted: the 32 bytes are the named public key.
#[verifier::external_body]
fn x25519_public_key(secret: &[u8]) -> (res: Vec<u8>)
    requires
        secret@.len() == 32,
    ensures
        res@ == x25519_public_key_of(secret@),
        res@.len() == 32,
{
    let bytes = <[u8; 32]>::try_from(secret).unwrap();
    let secret = x25519_dalek::StaticSecret::from(bytes);
    x25519_dalek::PublicKey::from(&secret).as_bytes().to_vec()
}

/// The base64 text of the public key that belongs to a private key, taken
/// from the first 32 bytes of `private_key`.
pub fn public_key_text(private_key: &[u8]) -> (res: String)
    requires
        private_key@.len() >= 32,
    ensures
        res@ == base64_encode_of(x25519_public_key_of(private_key@.subrange(0, 32))),
        res@.len() == 44,
{
    let secret = vstd::slice::slice_subrange(private_key, 0, 32);
    let public = x25519_public_key(secret);
    base64_encode(public.as_slice())
}

/// What the key check makes of a base64 private key: the public key text,
/// or None when the text is not base64 or decodes to fewer than 32 bytes.
pub open spec fn public_key_spec(private_b64: Seq<char>) -> Option<Seq<char>> {
    match base64_decode_of(private_b64) {
        Some(b) => if b.len() >= 32 {
            Some(base64_encode_of(x25519_public_key_of(b.subrange(0, 32))))
        } else {
            None
        },
        None => None,
    }
}

/// The public key text of the base64 private key `private_b64`: None when
/// it is not valid base64 or holds fewer than 32 bytes.
pub fn public_key_from_private(private_b64: &str) -> (res: Option<String>)
    ensures
        res matches Some(t) ==> public_key_spec(private_b64@) == Some(t@),
        res is None ==> public_key_spec(private_b64@) is None,
{
    match base64_decode(private_b64) {
        Some(bytes) => {
            if bytes.len() >= 32 {
                Some(public_key_text(bytes.as_slice()))
            } else {
                None
            }
        },
        None => None,
    }
}

/// Why a configuration yields no key to validate.
#[derive(Clone, Debug, PartialEq, Eq)]
pub enum KeyCheckError {
    /// The configuration has no "PrivateKey = ..." line; the message names
    /// the file.
    NotAConfig(String),
    /// Its private key is not base64 of at least 32 bytes.
    InvalidPrivateKey,
}

/// The public key that the route finder sends for validation, from the
/// text of the WireGuard configuration at `path_text`.
pub fn validation_key(content: &str, path_text: &str) -> (res: Result<String, KeyCheckError>)
    ensures
        match regex_last_capture_of(PRIVATE_KEY_PATTERN@, content@, 1) {
            None => res matches Err(KeyCheckError::NotAConfig(m))
                && m@ == path_text@ + " Not a valid Wireguard config file"@,
            Some(k) => match public_key_spec(k) {
                Some(p) => res matches Ok(t) && t@ == p,
                None => res matches Err(KeyCheckError::InvalidPrivateKey),
            },
        },
{
    match private_key_from_config(content, path_text) {
        Err(msg) => Err(KeyCheckError::NotAConfig(msg)),
        Ok(k) => match public_key_from_private(k.as_str()) {
            Some(p) => Ok(p),
            None => Err(KeyCheckError::InvalidPrivateKey),
        },
    }
}

/// The endpoint that validates a key, under the API's base URL.
pub fn validation_url(api_base: &str) -> (res: String)
    ensures
        res@ == api_base@ + "/validate"@,
{
    let mut s = api_base.to_owned();
    push_str(&mut s, "/validate");
    s
}

/// The outcome of the validation request: the key when the server accepted
/// it, else the message with the HTTP status.
pub fn validation_verdict(key: String, accepted: bool, status_text: &str) -> (res: Result<String, String>)
    ensures
        accepted ==> (res matches Ok(k) && k == key),
        !accepted ==> (res matches Err(m) && m@ == "Failed to validate key ("@ + status_text@ + ")"@),
{
    if accepted {
        Ok(key)
    } else {
        let mut m = "Failed to validate key (".to_owned();
        push_str(&mut m, status_text);
        push_str(&mut m, ")");
        Err(m)
    }
}

} // verus!
