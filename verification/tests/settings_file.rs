use chacha20::cipher::{KeyIvInit, StreamCipher};
use mbtunnel::config_file::{decode_config_file, encode_config_file, seal_config, ConfigError};

const DOC: &[u8] = br#"{"keys":[],"dark_mode":true,"tunnel_mode":"Auto","ui_zoom":1.3,"font_zoom":1.05,"close_action":"Ask"}"#;

#[test]
fn settings_round_trip_with_fixed_key() {
    let key = [7u8; 32];
    let nonce = [9u8; 12];
    let bytes = encode_config_file(DOC, &key, &nonce).unwrap();
    assert_eq!(&bytes[..32], &key[..]);
    assert_eq!(&bytes[32..44], &nonce[..]);
    assert!(bytes.len() >= 60);
    let back = decode_config_file(&bytes).unwrap();
    assert_eq!(back, DOC);
}

#[test]
fn settings_payload_is_encrypted_and_compressed() {
    let key = [1u8; 32];
    let nonce = [2u8; 12];
    let bytes = encode_config_file(DOC, &key, &nonce).unwrap();
    // The compressed document does not appear in the clear.
    let payload = &bytes[44..];
    let plain = zstd::bulk::compress(DOC, 0).unwrap();
    assert_eq!(payload.len(), 16 + plain.len());
    assert_ne!(&payload[16..], &plain[..]);
    // Decrypting by hand gives checksum, length and the compressed document.
    let mut p = payload.to_vec();
    let mut c = chacha20::ChaCha20::new(&key.into(), &nonce.into());
    c.apply_keystream(&mut p);
    assert_eq!(u64::from_le_bytes(p[..8].try_into().unwrap()), xxhash_rust::xxh3::xxh3_64(&p[16..]));
    assert_eq!(u64::from_le_bytes(p[8..16].try_into().unwrap()), DOC.len() as u64);
    assert_eq!(&p[16..], &plain[..]);
}

#[test]
fn sealed_settings_read_back() {
    let a = seal_config(DOC).unwrap();
    let b = seal_config(DOC).unwrap();
    assert_ne!(a, b, "a fresh key and nonce are drawn each time");
    assert_eq!(decode_config_file(&a).unwrap(), DOC);
    assert_eq!(decode_config_file(&b).unwrap(), DOC);
}

#[test]
fn short_settings_file_is_refused() {
    let err = decode_config_file(&[0u8; 59]).unwrap_err();
    assert!(matches!(err, ConfigError::TooShort));
    assert_eq!(err.message(), "Configuration file corrupt. (Too Short)");
}

#[test]
fn tampered_settings_file_is_refused() {
    let mut bytes = encode_config_file(DOC, &[3u8; 32], &[4u8; 12]).unwrap();
    let last = bytes.len() - 1;
    bytes[last] ^= 0x55;
    let err = decode_config_file(&bytes).unwrap_err();
    assert!(matches!(err, ConfigError::InvalidChecksum));
    assert_eq!(err.message(), "Configuration file corrupt. (Invalid Checksum)");
}

#[test]
fn settings_file_with_wrong_length_is_refused() {
    // A payload whose checksum is right but whose stated length is too small.
    let key = [5u8; 32];
    let nonce = [6u8; 12];
    let compressed = zstd::bulk::compress(DOC, 0).unwrap();
    let mut payload = Vec::new();
    payload.extend_from_slice(&xxhash_rust::xxh3::xxh3_64(&compressed).to_le_bytes());
    payload.extend_from_slice(&3u64.to_le_bytes());
    payload.extend_from_slice(&compressed);
    let mut c = chacha20::ChaCha20::new(&key.into(), &nonce.into());
    c.apply_keystream(&mut payload);
    let mut bytes = key.to_vec();
    bytes.extend_from_slice(&nonce);
    bytes.extend_from_slice(&payload);
    let err = decode_config_file(&bytes).unwrap_err();
    assert!(matches!(err, ConfigError::Decompress(_)));
}

#[test]
fn sealed_settings_layout() {
    let bytes = seal_config(DOC).unwrap();
    let plain = zstd::bulk::compress(DOC, 0).unwrap();
    assert_eq!(bytes.len(), 60 + plain.len());
    let key: [u8; 32] = bytes[..32].try_into().unwrap();
    let nonce: [u8; 12] = bytes[32..44].try_into().unwrap();
    let mut p = bytes[44..].to_vec();
    let mut c = chacha20::ChaCha20::new(&key.into(), &nonce.into());
    c.apply_keystream(&mut p);
    assert_eq!(&p[..8], &xxhash_rust::xxh3::xxh3_64(&plain).to_le_bytes()[..]);
    assert_eq!(&p[8..16], &(DOC.len() as u64).to_le_bytes()[..]);
    assert_eq!(&p[16..], &plain[..]);
}
