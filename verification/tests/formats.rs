use ed25519_dalek::SigningKey;
use kinnector_config::database::{public_key_of, sign_database, verify_database};
use kinnector_config::header::{encode_database, parse_header, payload_of, DatabaseHeader};
use kinnector_config::ConfigError;

#[test]
fn header_fields_are_little_endian() {
    let mut buf = vec![0xAAu8; 64];
    buf.extend_from_slice(&[0x2A, 0, 0, 0]);
    buf.extend_from_slice(&[0x80, 0x05, 0xDD, 0x60, 0, 0, 0, 0]);
    buf.extend_from_slice(&[3, 0, 0, 0]);
    buf.extend_from_slice(b"xyz");
    let h: DatabaseHeader = parse_header(&buf).unwrap();
    assert_eq!(h.version, 42);
    assert_eq!(h.epoch_timestamp, 1625097600);
    assert_eq!(h.payload_len, 3);
    assert_eq!(h.signature, [0xAAu8; 64]);
    assert_eq!(payload_of(&buf, &h), b"xyz");
}

#[test]
fn header_rejects_short_and_truncated_files() {
    assert_eq!(parse_header(&[0u8; 79]).unwrap_err(), ConfigError::FileTooSmall);
    assert_eq!(parse_header(&[]).unwrap_err(), ConfigError::FileTooSmall);
    let mut buf = vec![0u8; 80];
    assert!(parse_header(&buf).is_ok());
    buf[76] = 1;
    assert_eq!(parse_header(&buf).unwrap_err(), ConfigError::PayloadTruncated);
    buf.push(9);
    assert!(parse_header(&buf).is_ok());
    buf[79] = 0xFF;
    assert_eq!(parse_header(&buf).unwrap_err(), ConfigError::PayloadTruncated);
}

#[test]
fn encoded_database_reads_back() {
    let sig = [5u8; 64];
    let file = encode_database(&sig, 0xDEADBEEF, u64::MAX - 1, b"payload!");
    assert_eq!(file.len(), 88);
    let h = parse_header(&file).unwrap();
    assert_eq!(h.signature, sig);
    assert_eq!(h.version, 0xDEADBEEF);
    assert_eq!(h.epoch_timestamp, u64::MAX - 1);
    assert_eq!(h.payload_len, 8);
    assert_eq!(payload_of(&file, &h), b"payload!");
}

#[test]
fn signed_database_verifies_under_its_public_key() {
    let secret = [42u8; 32];
    let signed = sign_database(&secret, 1, 12345678, b"rules");
    let expected = SigningKey::from_bytes(&secret).verifying_key().to_bytes();
    assert_eq!(signed.public_key, expected);
    assert_eq!(public_key_of(&secret), expected);
    let h = verify_database(&signed.public_key, &signed.file).unwrap();
    assert_eq!(h.version, 1);
    assert_eq!(h.epoch_timestamp, 12345678);
    let other = public_key_of(&[43u8; 32]);
    assert_eq!(verify_database(&other, &signed.file).unwrap_err(), ConfigError::InvalidSignature);
}
