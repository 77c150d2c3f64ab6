use file_encryptor::container::is_encrypted_file;
use file_encryptor::container::magic_bytes;
use file_encryptor::container::read_container;
use file_encryptor::container::write_container;
use file_encryptor::error::EncryptionError;
use file_encryptor::error::ErrorKind;

#[test]
fn container_round_trip_small() {
    let record = b"{\"version\":\"2.0.0\"}".to_vec();
    let ciphertext = vec![1u8, 2, 3, 0, 5];
    let bytes = write_container(&record, &ciphertext).unwrap();
    assert_eq!(bytes.len(), 8 + 1024 + 5);
    assert_eq!(&bytes[..8], b"FE2.0\0\0\0");
    assert_eq!(&bytes[8..8 + record.len()], &record[..]);
    assert!(bytes[8 + record.len()..1032].iter().all(|b| *b == 0));
    assert_eq!(&bytes[1032..], &ciphertext[..]);
    let read = read_container(&bytes).unwrap();
    assert_eq!(read.record, record);
    assert_eq!(read.ciphertext, ciphertext);
}

#[test]
fn container_marker_is_fixed() {
    assert_eq!(magic_bytes(), [0x46, 0x45, 0x32, 0x2e, 0x30, 0, 0, 0]);
    assert_eq!(&magic_bytes(), b"FE2.0\0\0\0");
}

#[test]
fn container_record_fills_the_block() {
    let record = vec![b'x'; 1024];
    let bytes = write_container(&record, &[9u8, 9]).unwrap();
    assert_eq!(bytes.len(), 1034);
    let read = read_container(&bytes).unwrap();
    assert_eq!(read.record, record);
    assert_eq!(read.ciphertext, vec![9u8, 9]);
}

#[test]
fn container_empty_record_and_ciphertext() {
    let bytes = write_container(&[], &[]).unwrap();
    assert_eq!(bytes.len(), 1032);
    let read = read_container(&bytes).unwrap();
    assert!(read.record.is_empty());
    assert!(read.ciphertext.is_empty());
}

#[test]
fn container_refuses_oversized_record() {
    let record = vec![b'x'; 1025];
    let e = write_container(&record, &[1u8]).unwrap_err();
    assert_eq!(e.kind(), ErrorKind::SerializationError);
}

#[test]
fn container_refuses_record_with_zero_byte() {
    let e = write_container(&[b'a', 0, b'b'], &[1u8]).unwrap_err();
    assert_eq!(e.kind(), ErrorKind::SerializationError);
}

#[test]
fn container_rejects_short_input() {
    let mut bytes = b"FE2.0\0\0\0".to_vec();
    bytes.extend(vec![0u8; 1023]);
    let e = read_container(&bytes).unwrap_err();
    assert!(matches!(&e, EncryptionError::InvalidFileFormat(d) if d == "File too small to be encrypted"));
    let e = read_container(&[]).unwrap_err();
    assert_eq!(e.kind(), ErrorKind::InvalidFileFormat);
}

#[test]
fn container_rejects_missing_marker() {
    let mut bytes = b"FE1.0\0\0\0".to_vec();
    bytes.extend(vec![0u8; 1024]);
    bytes.extend(vec![7u8; 40]);
    let e = read_container(&bytes).unwrap_err();
    assert!(matches!(&e, EncryptionError::InvalidFileFormat(d) if d == "Invalid file format"));
    assert_eq!(e.message(), "Invalid file format: Invalid file format");
}

#[test]
fn container_record_ends_at_first_zero() {
    let mut bytes = b"FE2.0\0\0\0".to_vec();
    let mut block = vec![0u8; 1024];
    block[0] = b'a';
    block[1] = b'b';
    block[3] = b'c';
    bytes.extend(block);
    bytes.extend([5u8, 6, 7]);
    let read = read_container(&bytes).unwrap();
    assert_eq!(read.record, b"ab".to_vec());
    assert_eq!(read.ciphertext, vec![5u8, 6, 7]);
}

#[test]
fn marker_check_on_headers() {
    assert!(is_encrypted_file(b"FE2.0\0\0\0"));
    assert!(is_encrypted_file(b"FE2.0\0\0\0trailing"));
    assert!(!is_encrypted_file(b"FE2.0\0\0"));
    assert!(!is_encrypted_file(b"FE2.0\0\0\x01"));
    assert!(!is_encrypted_file(b""));
}
