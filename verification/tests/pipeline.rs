use file_encryptor::container::read_container;
use file_encryptor::container::write_container;
use file_encryptor::crypto::CryptoEngine;
use file_encryptor::error::EncryptionError;
use file_encryptor::error::ErrorKind;
use file_encryptor::pipeline::decrypt_file;
use file_encryptor::pipeline::encrypt_file;
use file_encryptor::pipeline::encrypt_with_materials;
use file_encryptor::pipeline::supported_version;
use file_encryptor::pipeline::verify_password;
use file_encryptor::pipeline::SealedPayload;
use file_encryptor::types::EncryptionOptions;
use file_encryptor::types::SecuritySettings;
use file_encryptor::types::Timestamp;

fn engine() -> CryptoEngine {
    CryptoEngine::new(SecuritySettings {
        key_derivation_iterations: 1,
        memory_cost: 64,
        parallelism: 1,
        salt_length: 16,
        iv_length: 12,
        tag_length: 16,
    })
}

fn options(compression: bool, integrity: bool) -> EncryptionOptions {
    EncryptionOptions {
        delete_original: false,
        erase_traces: false,
        compression_enabled: compression,
        integrity_check: integrity,
    }
}

fn now() -> Timestamp {
    Timestamp { seconds: 1_700_000_000, nanoseconds: 5 }
}

fn seal(data: &[u8], password: &str, compression: bool, integrity: bool) -> SealedPayload {
    encrypt_file(&engine(), data, password, &options(compression, integrity), "note.txt", now()).unwrap()
}

#[test]
fn hello_scenario() {
    let e = engine();
    let sealed = encrypt_file(&e, b"hello12345", "correct-horse", &options(true, true), "hello.txt", now())
        .unwrap();
    let record = b"{\"version\":\"2.0.0\",\"original_filename\":\"hello.txt\"}".to_vec();
    let container = write_container(&record, &sealed.ciphertext).unwrap();
    assert_eq!(container.len(), 8 + 1024 + sealed.ciphertext.len());
    let read = read_container(&container).unwrap();
    assert_eq!(read.record, record);
    assert_eq!(read.ciphertext, sealed.ciphertext);
    let plain = decrypt_file(&e, &sealed.metadata, &read.ciphertext, "correct-horse").unwrap();
    assert_eq!(plain, b"hello12345".to_vec());
    let err = decrypt_file(&e, &sealed.metadata, &read.ciphertext, "wrong-password").unwrap_err();
    assert!(matches!(err, EncryptionError::InvalidPassword));
    assert_eq!(err.message(), "Invalid password");
}

#[test]
fn fresh_metadata_fields() {
    let sealed = seal(b"hello12345", "pw", true, true);
    let m = &sealed.metadata;
    assert_eq!(m.version, "2.0.0");
    assert_eq!(m.algorithm, "AES-256-GCM");
    assert_eq!(m.key_derivation, "Argon2id");
    assert_eq!(m.salt.len(), 16);
    assert_eq!(m.iv.len(), 12);
    assert!(m.compressed);
    assert_eq!(m.original_filename, "note.txt");
    assert_eq!(m.created_at, now());
    assert_eq!(
        m.integrity_hash.clone().unwrap(),
        engine().calculate_integrity_hash(&sealed.ciphertext)
    );
    let plain = seal(b"hello12345", "pw", false, false);
    assert!(!plain.metadata.compressed);
    assert!(plain.metadata.integrity_hash.is_none());
    assert_eq!(plain.ciphertext.len(), 10 + 16);
}

#[test]
fn round_trip_with_and_without_compression() {
    let payloads: Vec<Vec<u8>> = vec![vec![0u8], b"hello12345".to_vec(), vec![b'z'; 5000], (0..=255u8).collect()];
    for data in payloads.iter() {
        for compression in [false, true] {
            for integrity in [false, true] {
                let sealed = seal(data, "p\u{e4}ss word", compression, integrity);
                let plain =
                    decrypt_file(&engine(), &sealed.metadata, &sealed.ciphertext, "p\u{e4}ss word").unwrap();
                assert_eq!(&plain, data);
            }
        }
    }
}

#[test]
fn salt_and_nonce_are_fresh_each_time() {
    let a = seal(b"same data", "pw", false, true);
    let b = seal(b"same data", "pw", false, true);
    assert_ne!(a.metadata.salt, b.metadata.salt);
    assert_ne!(a.metadata.iv, b.metadata.iv);
    assert_ne!(a.ciphertext, b.ciphertext);
}

#[test]
fn sealing_with_given_materials_is_deterministic() {
    let e = engine();
    let salt = [4u8; 16];
    let nonce = [5u8; 12];
    let a = encrypt_with_materials(&e, b"data", "pw", &options(true, true), "f", now(), &salt, &nonce).unwrap();
    let b = encrypt_with_materials(&e, b"data", "pw", &options(true, true), "f", now(), &salt, &nonce).unwrap();
    assert_eq!(a.ciphertext, b.ciphertext);
    assert_eq!(a.metadata.salt, salt.to_vec());
    assert_eq!(a.metadata.iv, nonce.to_vec());
    assert_eq!(decrypt_file(&e, &a.metadata, &a.ciphertext, "pw").unwrap(), b"data".to_vec());
}

#[test]
fn sealing_refuses_bad_input() {
    let e = engine();
    let err = encrypt_file(&e, b"", "pw", &options(true, true), "f", now()).unwrap_err();
    assert!(matches!(&err, EncryptionError::InvalidFileFormat(d) if d == "File is empty"));
    let err =
        encrypt_with_materials(&e, b"x", "pw", &options(true, true), "f", now(), &[1u8; 16], &[1u8; 11])
            .unwrap_err();
    assert_eq!(err.kind(), ErrorKind::Crypto);
    let err =
        encrypt_with_materials(&e, b"x", "pw", &options(true, true), "f", now(), &[1u8; 4], &[1u8; 12])
            .unwrap_err();
    assert_eq!(err.kind(), ErrorKind::KeyDerivationError);
    let mut bad = e.settings();
    bad.memory_cost = 1;
    let err = encrypt_file(&CryptoEngine::new(bad), b"x", "pw", &options(true, true), "f", now()).unwrap_err();
    assert_eq!(err.kind(), ErrorKind::KeyDerivationError);
}

#[test]
fn wrong_password_is_rejected() {
    for compression in [false, true] {
        for integrity in [false, true] {
            let sealed = seal(b"hello12345", "correct-horse", compression, integrity);
            for wrong in ["", "Correct-horse", "correct-horse ", "wrong-password"] {
                let err = decrypt_file(&engine(), &sealed.metadata, &sealed.ciphertext, wrong).unwrap_err();
                assert_eq!(err.kind(), ErrorKind::InvalidPassword);
            }
        }
    }
}

#[test]
fn tampering_without_digest_fails_authentication() {
    let sealed = seal(b"hello12345", "pw", false, false);
    for i in 0..sealed.ciphertext.len() {
        let mut tampered = sealed.ciphertext.clone();
        tampered[i] ^= 0x80;
        let err = decrypt_file(&engine(), &sealed.metadata, &tampered, "pw").unwrap_err();
        assert_eq!(err.kind(), ErrorKind::InvalidPassword);
    }
}

#[test]
fn tampering_with_digest_fails_the_integrity_check() {
    let sealed = seal(b"hello12345", "pw", true, true);
    for i in 0..sealed.ciphertext.len() {
        let mut tampered = sealed.ciphertext.clone();
        tampered[i] ^= 1;
        let err = decrypt_file(&engine(), &sealed.metadata, &tampered, "pw").unwrap_err();
        assert!(matches!(&err, EncryptionError::IntegrityCheckFailed(d) if d == "Data integrity check failed"));
        let err = decrypt_file(&engine(), &sealed.metadata, &tampered, "not the password").unwrap_err();
        assert_eq!(err.kind(), ErrorKind::IntegrityCheckFailed);
    }
}

#[test]
fn version_gate() {
    let sealed = seal(b"hello12345", "pw", true, true);
    for version in ["1.0.0", "3.0", "2", "", "20.1", " 2.0"] {
        let mut metadata = sealed.metadata.clone();
        metadata.version = version.to_string();
        let err = decrypt_file(&engine(), &metadata, &sealed.ciphertext, "pw").unwrap_err();
        assert!(matches!(&err, EncryptionError::UnsupportedVersion(v) if v == version));
    }
    for version in ["2.", "2.0.0", "2.9", "2.x"] {
        let mut metadata = sealed.metadata.clone();
        metadata.version = version.to_string();
        assert_eq!(decrypt_file(&engine(), &metadata, &sealed.ciphertext, "pw").unwrap(), b"hello12345".to_vec());
    }
    assert!(supported_version("2.0.0"));
    assert!(!supported_version("12.0"));
}

#[test]
fn malformed_metadata_is_reported() {
    let sealed = seal(b"hello12345", "pw", false, true);
    let mut metadata = sealed.metadata.clone();
    metadata.iv = vec![0u8; 11];
    let err = decrypt_file(&engine(), &metadata, &sealed.ciphertext, "pw").unwrap_err();
    assert_eq!(err.kind(), ErrorKind::InvalidFileFormat);
    let mut metadata = sealed.metadata.clone();
    metadata.salt = vec![0u8; 3];
    let err = decrypt_file(&engine(), &metadata, &sealed.ciphertext, "pw").unwrap_err();
    assert_eq!(err.kind(), ErrorKind::KeyDerivationError);
    let mut metadata = sealed.metadata.clone();
    metadata.compressed = true;
    let err = decrypt_file(&engine(), &metadata, &sealed.ciphertext, "pw").unwrap_err();
    assert_eq!(err.kind(), ErrorKind::CompressionError);
}

#[test]
fn probe_accepts_only_what_authenticates_alone() {
    let e = engine();
    let exact = seal(&[b'q'; 48], "pw", false, true);
    assert_eq!(exact.ciphertext.len(), 64);
    assert!(verify_password(&e, &exact.metadata, &exact.ciphertext, "pw"));
    assert!(!verify_password(&e, &exact.metadata, &exact.ciphertext, "other"));
    let short = seal(b"hello12345", "pw", false, true);
    assert!(!verify_password(&e, &short.metadata, &short.ciphertext, "pw"));
    let long = seal(&[b'q'; 100], "pw", false, true);
    assert!(!verify_password(&e, &long.metadata, &long.ciphertext, "pw"));
    let mut broken = exact.metadata.clone();
    broken.iv = vec![1u8; 3];
    assert!(!verify_password(&e, &broken, &exact.ciphertext, "pw"));
    let mut broken = exact.metadata.clone();
    broken.salt = vec![];
    assert!(!verify_password(&e, &broken, &exact.ciphertext, "pw"));
}
