//! The failures that the library reports.

use vstd::prelude::*;
use vstd::string::*;

verus! {

/// The failure classes, without their details.
#[derive(Clone, Copy, Debug, PartialEq, Eq, Structural)]
pub enum ErrorKind {
    Io,
    Crypto,
    InvalidPassword,
    FileNotFound,
    FileExists,
    InvalidFileFormat,
    CorruptedFile,
    UnsupportedVersion,
    MemoryError,
    PermissionDenied,
    InsufficientDiskSpace,
    Cancelled,
    Timeout,
    CompressionError,
    IntegrityCheckFailed,
    KeyDerivationError,
    SerializationError,
    Unknown,
}

/// A failure with its detail: a message, a path or a version string.
#[derive(Clone, Debug)]
pub enum EncryptionError {
    Io(String),
    Crypto(String),
    InvalidPassword,
    FileNotFound(String),
    FileExists(String),
    InvalidFileFormat(String),
    CorruptedFile(String),
    UnsupportedVersion(String),
    MemoryError(String),
    PermissionDenied(String),
    InsufficientDiskSpace,
    Cancelled,
    Timeout,
    CompressionError(String),
    IntegrityCheckFailed(String),
    KeyDerivationError(String),
    SerializationError(String),
    Unknown(String),
}

impl EncryptionError {
    /// The class of this failure.
    pub open spec fn spec_kind(&self) -> ErrorKind {
        match self {
            EncryptionError::Io(_) => ErrorKind::Io,
            EncryptionError::Crypto(_) => ErrorKind::Crypto,
            EncryptionError::InvalidPassword => ErrorKind::InvalidPassword,
            EncryptionError::FileNotFound(_) => ErrorKind::FileNotFound,
            EncryptionError::FileExists(_) => ErrorKind::FileExists,
            EncryptionError::InvalidFileFormat(_) => ErrorKind::InvalidFileFormat,
            EncryptionError::CorruptedFile(_) => ErrorKind::CorruptedFile,
            EncryptionError::UnsupportedVersion(_) => ErrorKind::UnsupportedVersion,
            EncryptionError::MemoryError(_) => ErrorKind::MemoryError,
            EncryptionError::PermissionDenied(_) => ErrorKind::PermissionDenied,
            EncryptionError::InsufficientDiskSpace => ErrorKind::InsufficientDiskSpace,
            EncryptionError::Cancelled => ErrorKind::Cancelled,
            EncryptionError::Timeout => ErrorKind::Timeout,
            EncryptionError::CompressionError(_) => ErrorKind::CompressionError,
            EncryptionError::IntegrityCheckFailed(_) => ErrorKind::IntegrityCheckFailed,
            EncryptionError::KeyDerivationError(_) => ErrorKind::KeyDerivationError,
            EncryptionError::SerializationError(_) => ErrorKind::SerializationError,
            EncryptionError::Unknown(_) => ErrorKind::Unknown,
        }
    }

    /// The fixed text that introduces a failure of this class.
    pub open spec fn spec_prefix(&self) -> Seq<char> {
        match self {
            EncryptionError::Io(_) => "IO error: "@,
            EncryptionError::Crypto(_) => "Crypto error: "@,
            EncryptionError::InvalidPassword => "Invalid password"@,
            EncryptionError::FileNotFound(_) => "File not found: "@,
            EncryptionError::FileExists(_) => "File already exists: "@,
            EncryptionError::InvalidFileFormat(_) => "Invalid file format: "@,
            EncryptionError::CorruptedFile(_) => "Corrupted encrypted file: "@,
            EncryptionError::UnsupportedVersion(_) => "Unsupported encryption version: "@,
            EncryptionError::MemoryError(_) => "Memory allocation failed: "@,
            EncryptionError::PermissionDenied(_) => "Permission denied: "@,
            EncryptionError::InsufficientDiskSpace => "Disk space insufficient"@,
            EncryptionError::Cancelled => "Operation cancelled by user"@,
            EncryptionError::Timeout => "Timeout occurred during operation"@,
            EncryptionError::CompressionError(_) => "Compression error: "@,
            EncryptionError::IntegrityCheckFailed(_) => "Integrity check failed: "@,
            EncryptionError::KeyDerivationError(_) => "Key derivation failed: "@,
            EncryptionError::SerializationError(_) => "Serialization error: "@,
            EncryptionError::Unknown(_) => "Unknown error: "@,
        }
    }

    /// The detail that the failure carries; empty where it carries none.
    pub open spec fn spec_detail(&self) -> Seq<char> {
        match self {
            EncryptionError::Io(d) => d@,
            EncryptionError::Crypto(d) => d@,
            EncryptionError::InvalidPassword => Seq::empty(),
            EncryptionError::FileNotFound(d) => d@,
            EncryptionError::FileExists(d) => d@,
            EncryptionError::InvalidFileFormat(d) => d@,
            EncryptionError::CorruptedFile(d) => d@,
            EncryptionError::UnsupportedVersion(d) => d@,
            EncryptionError::MemoryError(d) => d@,
            EncryptionError::PermissionDenied(d) => d@,
            EncryptionError::InsufficientDiskSpace => Seq::empty(),
            EncryptionError::Cancelled => Seq::empty(),
            EncryptionError::Timeout => Seq::empty(),
            EncryptionError::CompressionError(d) => d@,
            EncryptionError::IntegrityCheckFailed(d) => d@,
            EncryptionError::KeyDerivationError(d) => d@,
            EncryptionError::SerializationError(d) => d@,
            EncryptionError::Unknown(d) => d@,
        }
    }

    /// The message shown to a person: the class's text, then the detail.
    pub open spec fn spec_message(&self) -> Seq<char> {
        self.spec_prefix() + self.spec_detail()
    }

    pub fn kind(&self) -> (k: ErrorKind)
        ensures
            k == self.spec_kind(),
    {
        match self {
            EncryptionError::Io(_) => ErrorKind::Io,
            EncryptionError::Crypto(_) => ErrorKind::Crypto,
            EncryptionError::InvalidPassword => ErrorKind::InvalidPassword,
            EncryptionError::FileNotFound(_) => ErrorKind::FileNotFound,
            EncryptionError::FileExists(_) => ErrorKind::FileExists,
            EncryptionError::InvalidFileFormat(_) => ErrorKind::InvalidFileFormat,
            EncryptionError::CorruptedFile(_) => ErrorKind::CorruptedFile,
            EncryptionError::UnsupportedVersion(_) => ErrorKind::UnsupportedVersion,
            EncryptionError::MemoryError(_) => ErrorKind::MemoryError,
            EncryptionError::PermissionDenied(_) => ErrorKind::PermissionDenied,
            EncryptionError::InsufficientDiskSpace => ErrorKind::InsufficientDiskSpace,
            EncryptionError::Cancelled => ErrorKind::Cancelled,
            EncryptionError::Timeout => ErrorKind::Timeout,
            EncryptionError::CompressionError(_) => ErrorKind::CompressionError,
            EncryptionError::IntegrityCheckFailed(_) => ErrorKind::IntegrityCheckFailed,
            EncryptionError::KeyDerivationError(_) => ErrorKind::KeyDerivationError,
            EncryptionError::SerializationError(_) => ErrorKind::SerializationError,
            EncryptionError::Unknown(_) => ErrorKind::Unknown,
        }
    }

    /// The message shown to a person. A wrong password and tampered data
    /// give the same text: the failure does not tell them apart.
    pub fn message(&self) -> (s: String)
        ensures
            s@ == self.spec_message(),
    {
        let (prefix, detail): (&str, &str) = match self {
            EncryptionError::Io(d) => ("IO error: ", d.as_str()),
            EncryptionError::Crypto(d) => ("Crypto error: ", d.as_str()),
            EncryptionError::InvalidPassword => ("Invalid password", ""),
            EncryptionError::FileNotFound(d) => ("File not found: ", d.as_str()),
            EncryptionError::FileExists(d) => ("File already exists: ", d.as_str()),
            EncryptionError::InvalidFileFormat(d) => ("Invalid file format: ", d.as_str()),
            EncryptionError::CorruptedFile(d) => ("Corrupted encrypted file: ", d.as_str()),
            EncryptionError::UnsupportedVersion(d) => ("Unsupported encryption version: ", d.as_str()),
            EncryptionError::MemoryError(d) => ("Memory allocation failed: ", d.as_str()),
            EncryptionError::PermissionDenied(d) => ("Permission denied: ", d.as_str()),
            EncryptionError::InsufficientDiskSpace => ("Disk space insufficient", ""),
            EncryptionError::Cancelled => ("Operation cancelled by user", ""),
            EncryptionError::Timeout => ("Timeout occurred during operation", ""),
            EncryptionError::CompressionError(d) => ("Compression error: ", d.as_str()),
            EncryptionError::IntegrityCheckFailed(d) => ("Integrity check failed: ", d.as_str()),
            EncryptionError::KeyDerivationError(d) => ("Key derivation failed: ", d.as_str()),
            EncryptionError::SerializationError(d) => ("Serialization error: ", d.as_str()),
            EncryptionError::Unknown(d) => ("Unknown error: ", d.as_str()),
        };
        proof {
            reveal_strlit("");
            assert(detail@ =~= self.spec_detail());
        }
        let s = String::from_str(prefix).concat(detail);
        s
    }
}

} // verus!
