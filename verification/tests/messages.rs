use file_encryptor::error::EncryptionError;
use file_encryptor::error::ErrorKind;
use file_encryptor::humor::get_contextual_joke;
use file_encryptor::humor::get_decryption_joke;
use file_encryptor::humor::get_encryption_joke;
use file_encryptor::humor::get_error_joke;
use file_encryptor::humor::get_progress_joke;
use file_encryptor::humor::get_random_joke;
use file_encryptor::humor::progress_joke_at;
use file_encryptor::humor::ProgressQuarter;
use file_encryptor::humor::get_success_joke;
use file_encryptor::humor::joke_at;
use file_encryptor::humor::JokeKind;
use file_encryptor::text::text_equal;

fn table(kind: JokeKind) -> Vec<&'static str> {
    (0..10).map(|i| joke_at(kind, i)).collect()
}

#[test]
fn error_messages() {
    let s = |t: &str| t.to_string();
    assert_eq!(EncryptionError::Io(s("disk")).message(), "IO error: disk");
    assert_eq!(EncryptionError::Crypto(s("x")).message(), "Crypto error: x");
    assert_eq!(EncryptionError::InvalidPassword.message(), "Invalid password");
    assert_eq!(EncryptionError::FileNotFound(s("/a")).message(), "File not found: /a");
    assert_eq!(EncryptionError::FileExists(s("/a")).message(), "File already exists: /a");
    assert_eq!(EncryptionError::InvalidFileFormat(s("x")).message(), "Invalid file format: x");
    assert_eq!(EncryptionError::CorruptedFile(s("x")).message(), "Corrupted encrypted file: x");
    assert_eq!(EncryptionError::UnsupportedVersion(s("1.0")).message(), "Unsupported encryption version: 1.0");
    assert_eq!(EncryptionError::MemoryError(s("x")).message(), "Memory allocation failed: x");
    assert_eq!(EncryptionError::PermissionDenied(s("/a")).message(), "Permission denied: /a");
    assert_eq!(EncryptionError::InsufficientDiskSpace.message(), "Disk space insufficient");
    assert_eq!(EncryptionError::Cancelled.message(), "Operation cancelled by user");
    assert_eq!(EncryptionError::Timeout.message(), "Timeout occurred during operation");
    assert_eq!(EncryptionError::CompressionError(s("x")).message(), "Compression error: x");
    assert_eq!(EncryptionError::IntegrityCheckFailed(s("x")).message(), "Integrity check failed: x");
    assert_eq!(EncryptionError::KeyDerivationError(s("x")).message(), "Key derivation failed: x");
    assert_eq!(EncryptionError::SerializationError(s("x")).message(), "Serialization error: x");
    assert_eq!(EncryptionError::Unknown(s("x")).message(), "Unknown error: x");
}

#[test]
fn error_kinds() {
    assert_eq!(EncryptionError::InvalidPassword.kind(), ErrorKind::InvalidPassword);
    assert_eq!(EncryptionError::Io("x".to_string()).kind(), ErrorKind::Io);
    assert_eq!(EncryptionError::Timeout.kind(), ErrorKind::Timeout);
    assert_eq!(EncryptionError::Cancelled.kind(), ErrorKind::Cancelled);
    assert_eq!(EncryptionError::Unknown("x".to_string()).kind(), ErrorKind::Unknown);
}

#[test]
fn jokes_come_from_their_tables() {
    for _ in 0..40 {
        assert!(table(JokeKind::General).contains(&get_random_joke().as_str()));
        assert!(table(JokeKind::Encryption).contains(&get_encryption_joke().as_str()));
        assert!(table(JokeKind::Decryption).contains(&get_decryption_joke().as_str()));
        assert!(table(JokeKind::Error).contains(&get_error_joke().as_str()));
        assert!(table(JokeKind::Success).contains(&get_success_joke().as_str()));
    }
    assert_eq!(joke_at(JokeKind::General, 0), "Encrypting your files, because therapy is too expensive.");
    assert_eq!(joke_at(JokeKind::Success, 9), "Mission accomplished... Your data is now as secure as your emotional walls");
}

#[test]
fn contextual_jokes_follow_the_context() {
    for _ in 0..40 {
        assert!(table(JokeKind::Encryption).contains(&get_contextual_joke("encryption").as_str()));
        assert!(table(JokeKind::Decryption).contains(&get_contextual_joke("decryption").as_str()));
        assert!(table(JokeKind::Error).contains(&get_contextual_joke("error").as_str()));
        assert!(table(JokeKind::Success).contains(&get_contextual_joke("success").as_str()));
        assert!(table(JokeKind::General).contains(&get_contextual_joke("anything").as_str()));
        assert!(table(JokeKind::General).contains(&get_contextual_joke("").as_str()));
        assert!(table(JokeKind::General).contains(&get_contextual_joke("Encryption").as_str()));
    }
}

#[test]
fn jokes_vary() {
    let first = get_random_joke();
    assert!((0..200).any(|_| get_random_joke() != first));
}

#[test]
fn text_comparison() {
    assert!(text_equal("enc", "enc"));
    assert!(!text_equal("enc", "ENC"));
    assert!(!text_equal("enc", "en"));
    assert!(text_equal("", ""));
    assert!(text_equal("\u{e9}t\u{e9}", "\u{e9}t\u{e9}"));
}

#[test]
fn progress_jokes_follow_the_quarter() {
    let quarters = [
        (ProgressQuarter::First, "Just getting started... Like your morning motivation"),
        (ProgressQuarter::Second, "Making progress... Unlike your life goals"),
        (ProgressQuarter::Third, "Almost done... Like your patience"),
        (ProgressQuarter::Fourth, "Almost there... Like your will to live"),
    ];
    for (quarter, first) in quarters {
        assert_eq!(progress_joke_at(quarter, 0), first);
        let table: Vec<&str> = (0..3).map(|i| progress_joke_at(quarter, i)).collect();
        for _ in 0..20 {
            assert!(table.contains(&get_progress_joke(quarter).as_str()));
        }
    }
}
