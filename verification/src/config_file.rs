//! The encrypted settings file.
//!
//! Layout of the file: a 32-byte ChaCha20 key, a 12-byte nonce, then the
//! payload encrypted with that key and nonce.  The plain payload is the
//! xxh3-64 checksum of the compressed document (little endian), the length
//! of the uncompressed document (little endian u64), then the
//! zstd-compressed JSON document.
use vstd::prelude::*;
use vstd::bytes::{spec_u64_from_le_bytes, spec_u64_to_le_bytes, u64_from_le_bytes, u64_to_le_bytes};
use vstd::slice::{slice_subrange, slice_to_vec};

use chacha20::cipher::{KeyIvInit, StreamCipher};

verus! {

/// Length of the ChaCha20 key stored at the start of the file.
pub const KEY_LEN: usize = 32;

/// Length of the ChaCha20 nonce that follows the key.
pub const NONCE_LEN: usize = 12;

/// Length of the checksum and length fields that open the payload.
pub const HEADER_LEN: usize = 16;

/// The most bytes one fresh ChaCha20 keystream can cover: its 32-bit block
/// counter allows `u32::MAX` blocks of 64 bytes.
pub const MAX_STREAM_LEN: u64 = 274877906880;

/// Why a settings file could not be written or read back.
#[derive(Clone, Debug)]
pub enum ConfigError {
    /// The file is shorter than key, nonce and payload header together.
    TooShort,
    /// The checksum stored in the payload does not match the compressed data.
    InvalidChecksum,
    /// The stored length is too large for any buffer.
    LengthTooLarge,
    /// zstd refused the compressed data; its message.
    Decompress(String),
    /// zstd could not compress the document; its message.
    Compress(String),
    /// The payload is longer than one keystream can encrypt.
    PayloadTooLarge,
    /// The system random source failed.
    Random,
}

/// The mathematical model of a [`ConfigError`]: the same cases, with the
/// messages as character sequences.
pub enum ConfigFault {
    TooShort,
    InvalidChecksum,
    LengthTooLarge,
    Decompress(Seq<char>),
    Compress(Seq<char>),
    PayloadTooLarge,
    Random,
}

impl View for ConfigError {
    type V = ConfigFault;

    open spec fn view(&self) -> ConfigFault {
        match self {
            ConfigError::TooShort => ConfigFault::TooShort,
            ConfigError::InvalidChecksum => ConfigFault::InvalidChecksum,
            ConfigError::LengthTooLarge => ConfigFault::LengthTooLarge,
            ConfigError::Decompress(m) => ConfigFault::Decompress(m@),
            ConfigError::Compress(m) => ConfigFault::Compress(m@),
            ConfigError::PayloadTooLarge => ConfigFault::PayloadTooLarge,
            ConfigError::Random => ConfigFault::Random,
        }
    }
}

impl ConfigFault {
    pub open spec fn message_spec(self) -> Seq<char> {
        match self {
            ConfigFault::TooShort => "Configuration file corrupt. (Too Short)"@,
            ConfigFault::InvalidChecksum => "Configuration file corrupt. (Invalid Checksum)"@,
            ConfigFault::LengthTooLarge => "Configuration file corrupt. (Invalid Length)"@,
            ConfigFault::Decompress(m) => m,
            ConfigFault::Compress(m) => m,
            ConfigFault::PayloadTooLarge => "Configuration too large to encrypt"@,
            ConfigFault::Random => "System random source unavailable"@,
        }
    }
}

impl ConfigError {
    /// The text shown to the user for this error.
    pub fn message(&self) -> (res: String)
        ensures
            res@ == self@.message_spec(),
    {
        match self {
            ConfigError::TooShort => "Configuration file corrupt. (Too Short)".to_owned(),
            ConfigError::InvalidChecksum => "Configuration file corrupt. (Invalid Checksum)".to_owned(),
            ConfigError::LengthTooLarge => "Configuration file corrupt. (Invalid Length)".to_owned(),
            ConfigError::Decompress(m) => m.clone(),
            ConfigError::Compress(m) => m.clone(),
            ConfigError::PayloadTooLarge => "Configuration too large to encrypt".to_owned(),
            ConfigError::Random => "System random source unavailable".to_owned(),
        }
    }
}

/// What a zstd call gives: bytes, or the text of its error.
pub type ZstdOutcome = Result<Seq<u8>, Seq<char>>;

/// The bytes of a settings file or document, or why there are none.
pub type FileOutcome = Result<Seq<u8>, ConfigFault>;

/// What ChaCha20 (20 rounds, 96-bit nonce, counter from zero) produces
/// when its keystream for `key` and `nonce` is applied to `data`.
pub uninterp spec fn chacha20_keystream_applied(key: Seq<u8>, nonce: Seq<u8>, data: Seq<u8>) -> Seq<u8>;

/// The xxh3 64-bit hash (seed 0, default secret) of `data`.
pub uninterp spec fn xxh3_64_of(data: Seq<u8>) -> u64;

/// What `zstd::bulk::compress(data, level)` gives: the compressed bytes, or
/// the text of its error.
pub uninterp spec fn zstd_compress_outcome(data: Seq<u8>, level: i32) -> ZstdOutcome;

/// What `zstd::bulk::decompress(data, capacity)` gives: the decompressed
/// bytes, or the text of its error.
pub uninterp spec fn zstd_decompress_outcome(data: Seq<u8>, capacity: nat) -> ZstdOutcome;

/// Applies the ChaCha20 keystream for `key` and `nonce` to `data` in place
/// (`chacha20::ChaCha20::new` then `StreamCipher::apply_keystream`).
/// Trusted: the result is the named keystream application, the length is
/// kept, and applying the same keystream again gives the input back (the
/// keystream is combined with the data by XOR).  The call panics when the
/// data needs more blocks than the 32-bit counter leaves; `requires` keeps
/// such data out.
#[verifier::external_body]
fn chacha20_apply(key: &[u8], nonce: &[u8], data: &mut Vec<u8>)
    requires
        key@.len() == KEY_LEN,
        nonce@.len() == NONCE_LEN,
        old(data)@.len() <= MAX_STREAM_LEN,
    ensures
        final(data)@ == chacha20_keystream_applied(key@, nonce@, old(data)@),
        final(data)@.len() == old(data)@.len(),
        chacha20_keystream_applied(key@, nonce@, final(data)@) == old(data)@,
{
    let key: [u8; 32] = key.try_into().unwrap();
    let nonce: [u8; 12] = nonce.try_into().unwrap();
    let mut cipher = chacha20::ChaCha20::new(&key.into(), &nonce.into());
    cipher.apply_keystream(data.as_mut_slice());
}

/// `xxhash_rust::xxh3::xxh3_64`.  Trusted: the result is the named hash of
/// the input.
#[verifier::external_body]
fn xxh3_64(data: &[u8]) -> (res: u64)
    ensures
        res == xxh3_64_of(data@),
{
    xxhash_rust::xxh3::xxh3_64(data)
}

/// `zstd::bulk::compress`.  Trusted: the outcome is the named one, and
/// compressed bytes decompress, into a buffer as long as the input, to the
/// input again (zstd is lossless).
#[verifier::external_body]
fn zstd_compress(data: &[u8], level: i32) -> (res: Result<Vec<u8>, String>)
    ensures
        res matches Ok(c) ==> zstd_compress_outcome(data@, level) == ZstdOutcome::Ok(c@),
        res matches Err(m) ==> zstd_compress_outcome(data@, level) == ZstdOutcome::Err(m@),
        res matches Ok(c) ==> zstd_decompress_outcome(c@, data@.len())
            == ZstdOutcome::Ok(data@),
{
    match zstd::bulk::compress(data, level) {
        Ok(c) => Ok(c),
        Err(e) => Err(e.to_string()),
    }
}

/// `zstd::bulk::decompress`.  Trusted: the outcome is the named one, and
/// what it returns is at most `capacity` bytes long (the documentation:
/// larger output is an error).  The call allocates `capacity` bytes up
/// front and panics beyond `isize::MAX`; `requires` keeps that out.
#[verifier::external_body]
fn zstd_decompress(data: &[u8], capacity: usize) -> (res: Result<Vec<u8>, String>)
    requires
        capacity <= isize::MAX,
    ensures
        res matches Ok(v) ==> zstd_decompress_outcome(data@, capacity as nat)
            == ZstdOutcome::Ok(v@),
        res matches Err(m) ==> zstd_decompress_outcome(data@, capacity as nat)
            == ZstdOutcome::Err(m@),
        res matches Ok(v) ==> v@.len() <= capacity,
{
    match zstd::bulk::decompress(data, capacity) {
        Ok(v) => Ok(v),
        Err(e) => Err(e.to_string()),
    }
}

/// `getrandom::fill` on a buffer.  Nothing is promised of the bytes; the
/// result says whether the system source succeeded.
#[verifier::external_body]
fn random_fill(buf: &mut [u8]) -> (ok: bool)
    ensures
        final(buf)@.len() == old(buf)@.len(),
{
    getrandom::fill(buf).is_ok()
}

/// The plain payload for a compressed document `compressed` of a JSON
/// document `json_len` bytes long.
pub open spec fn payload_spec(compressed: Seq<u8>, json_len: nat) -> Seq<u8> {
    spec_u64_to_le_bytes(xxh3_64_of(compressed)) + spec_u64_to_le_bytes(json_len as u64) + compressed
}

/// The file bytes for the JSON document `json` under `key` and `nonce`.
pub open spec fn encoded_file_spec(json: Seq<u8>, key: Seq<u8>, nonce: Seq<u8>) -> FileOutcome {
    match zstd_compress_outcome(json, 0) {
        Err(m) => Err(ConfigFault::Compress(m)),
        Ok(c) => {
            let payload = payload_spec(c, json.len());
            if payload.len() > MAX_STREAM_LEN {
                Err(ConfigFault::PayloadTooLarge)
            } else {
                Ok(key + nonce + chacha20_keystream_applied(key, nonce, payload))
            }
        },
    }
}

/// The document stored in the file bytes `data`, or why there is none.
pub open spec fn decoded_file_spec(data: Seq<u8>) -> FileOutcome {
    if data.len() < KEY_LEN + NONCE_LEN + HEADER_LEN {
        Err(ConfigFault::TooShort)
    } else if data.len() - (KEY_LEN + NONCE_LEN) > MAX_STREAM_LEN {
        Err(ConfigFault::PayloadTooLarge)
    } else {
        let key = data.subrange(0, KEY_LEN as int);
        let nonce = data.subrange(KEY_LEN as int, (KEY_LEN + NONCE_LEN) as int);
        let payload = chacha20_keystream_applied(key, nonce, data.subrange((KEY_LEN + NONCE_LEN) as int, data.len() as int));
        let checksum = spec_u64_from_le_bytes(payload.subrange(0, 8));
        let orig_len = spec_u64_from_le_bytes(payload.subrange(8, 16));
        let compressed = payload.subrange(16, payload.len() as int);
        if xxh3_64_of(compressed) != checksum {
            Err(ConfigFault::InvalidChecksum)
        } else if orig_len > isize::MAX {
            Err(ConfigFault::LengthTooLarge)
        } else {
            match zstd_decompress_outcome(compressed, orig_len as nat) {
                Ok(json) => Ok(json),
                Err(m) => Err(ConfigFault::Decompress(m)),
            }
        }
    }
}

/// Whether `bytes` is laid out as the settings file of `json`: 60 bytes of
/// key, nonce and header before the compressed document, and the stored
/// key and nonce decrypt what follows them to checksum, document length
/// and compressed document.
pub open spec fn settings_file_layout(json: Seq<u8>, bytes: Seq<u8>) -> bool {
    match zstd_compress_outcome(json, 0) {
        Ok(c) => {
            &&& bytes.len() == KEY_LEN + NONCE_LEN + HEADER_LEN + c.len()
            &&& chacha20_keystream_applied(
                bytes.subrange(0, KEY_LEN as int),
                bytes.subrange(KEY_LEN as int, (KEY_LEN + NONCE_LEN) as int),
                bytes.subrange((KEY_LEN + NONCE_LEN) as int, bytes.len() as int),
            ) == payload_spec(c, json.len())
        },
        Err(_) => false,
    }
}

/// Appends `s` to `v`.
fn append_bytes(v: &mut Vec<u8>, s: &[u8])
    ensures
        final(v)@ == old(v)@ + s@,
{
    let mut i: usize = 0;
    while i < s.len()
        invariant
            i <= s@.len(),
            v@ == old(v)@ + s@.subrange(0, i as int),
        decreases s@.len() - i,
    {
        v.push(s[i]);
        i = i + 1;
        assert(v@ =~= old(v)@ + s@.subrange(0, i as int));
    }
    assert(s@.subrange(0, i as int) =~= s@);
}

/// Builds the file bytes for the JSON document `json` with the given key
/// and nonce.  Reading the bytes back with [`decode_config_file`] gives
/// `json` again.
pub fn encode_config_file(json: &[u8], key: &[u8; 32], nonce: &[u8; 12]) -> (res: Result<Vec<u8>, ConfigError>)
    ensures
        match res {
            Ok(bytes) => encoded_file_spec(json@, key@, nonce@) == FileOutcome::Ok(bytes@),
            Err(e) => encoded_file_spec(json@, key@, nonce@) == FileOutcome::Err(e@),
        },
        res matches Ok(bytes) ==> (json@.len() <= isize::MAX ==> decoded_file_spec(bytes@)
            == FileOutcome::Ok(json@)),
        res matches Ok(bytes) ==> settings_file_layout(json@, bytes@),
{
    let compressed = match zstd_compress(json, 0) {
        Ok(c) => c,
        Err(m) => return Err(ConfigError::Compress(m)),
    };
    let checksum = xxh3_64(compressed.as_slice());
    let orig_len = json.len() as u64;
    let mut payload: Vec<u8> = Vec::new();
    let checksum_bytes = u64_to_le_bytes(checksum);
    let len_bytes = u64_to_le_bytes(orig_len);
    append_bytes(&mut payload, checksum_bytes.as_slice());
    append_bytes(&mut payload, len_bytes.as_slice());
    append_bytes(&mut payload, compressed.as_slice());
    assert(payload@ =~= payload_spec(compressed@, json@.len()));
    if payload.len() as u64 > MAX_STREAM_LEN {
        return Err(ConfigError::PayloadTooLarge);
    }
    let ghost plain = payload@;
    chacha20_apply(key.as_slice(), nonce.as_slice(), &mut payload);
    let mut out: Vec<u8> = Vec::new();
    append_bytes(&mut out, key.as_slice());
    append_bytes(&mut out, nonce.as_slice());
    append_bytes(&mut out, payload.as_slice());
    proof {
        let data = out@;
        let k = key@;
        let n = nonce@;
        assert(data.subrange(0, KEY_LEN as int) =~= k);
        assert(data.subrange(KEY_LEN as int, (KEY_LEN + NONCE_LEN) as int) =~= n);
        assert(data.subrange((KEY_LEN + NONCE_LEN) as int, data.len() as int) =~= payload@);
        vstd::bytes::lemma_auto_spec_u64_to_from_le_bytes();
        assert(plain.subrange(0, 8) =~= spec_u64_to_le_bytes(checksum));
        assert(plain.subrange(8, 16) =~= spec_u64_to_le_bytes(orig_len));
        assert(plain.subrange(16, plain.len() as int) =~= compressed@);
    }
    Ok(out)
}

/// Reads the JSON document back out of settings file bytes.
pub fn decode_config_file(data: &[u8]) -> (res: Result<Vec<u8>, ConfigError>)
    ensures
        match res {
            Ok(json) => decoded_file_spec(data@) == FileOutcome::Ok(json@),
            Err(e) => decoded_file_spec(data@) == FileOutcome::Err(e@),
        },
{
    if data.len() < KEY_LEN + NONCE_LEN + HEADER_LEN {
        return Err(ConfigError::TooShort);
    }
    if (data.len() - (KEY_LEN + NONCE_LEN)) as u64 > MAX_STREAM_LEN {
        return Err(ConfigError::PayloadTooLarge);
    }
    let key = slice_subrange(data, 0, KEY_LEN);
    let nonce = slice_subrange(data, KEY_LEN, KEY_LEN + NONCE_LEN);
    let mut payload = slice_to_vec(slice_subrange(data, KEY_LEN + NONCE_LEN, data.len()));
    chacha20_apply(key, nonce, &mut payload);
    let checksum = u64_from_le_bytes(slice_subrange(payload.as_slice(), 0, 8));
    let orig_len = u64_from_le_bytes(slice_subrange(payload.as_slice(), 8, 16));
    let compressed = slice_subrange(payload.as_slice(), 16, payload.len());
    if xxh3_64(compressed) != checksum {
        return Err(ConfigError::InvalidChecksum);
    }
    if orig_len > isize::MAX as u64 {
        return Err(ConfigError::LengthTooLarge);
    }
    match zstd_decompress(compressed, orig_len as usize) {
        Ok(json) => Ok(json),
        Err(m) => Err(ConfigError::Decompress(m)),
    }
}

/// Builds the file bytes for `json` under a fresh random key and nonce.
/// When it succeeds, reading the bytes back gives `json` again.
pub fn seal_config(json: &[u8]) -> (res: Result<Vec<u8>, ConfigError>)
    ensures
        res matches Ok(bytes) ==> exists|key: Seq<u8>, nonce: Seq<u8>|
            key.len() == KEY_LEN && nonce.len() == NONCE_LEN
            && encoded_file_spec(json@, key, nonce) == FileOutcome::Ok(bytes@),
        res matches Ok(bytes) ==> (json@.len() <= isize::MAX ==> decoded_file_spec(bytes@)
            == FileOutcome::Ok(json@)),
        res matches Ok(bytes) ==> settings_file_layout(json@, bytes@),
        res matches Err(e) ==> (e@ is Random || exists|key: Seq<u8>, nonce: Seq<u8>|
            encoded_file_spec(json@, key, nonce) == FileOutcome::Err(e@)),
{
    let mut key = [0u8; 32];
    let mut nonce = [0u8; 12];
    if !random_fill(&mut key) {
        return Err(ConfigError::Random);
    }
    if !random_fill(&mut nonce) {
        return Err(ConfigError::Random);
    }
    encode_config_file(json, &key, &nonce)
}

} // verus!
