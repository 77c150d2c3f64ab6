//! The plain records that the operations take and return.

use vstd::prelude::*;

verus! {

/// What an encryption does besides sealing the data.
#[derive(Clone, Copy, Debug, PartialEq, Eq, Structural)]
pub struct EncryptionOptions {
    pub delete_original: bool,
    pub erase_traces: bool,
    pub compression_enabled: bool,
    pub integrity_check: bool,
}

impl Default for EncryptionOptions {
    fn default() -> (options: Self)
        ensures
            options == (EncryptionOptions {
                delete_original: false,
                erase_traces: false,
                compression_enabled: true,
                integrity_check: true,
            }),
    {
        EncryptionOptions {
            delete_original: false,
            erase_traces: false,
            compression_enabled: true,
            integrity_check: true,
        }
    }
}

/// A point in time: seconds since the Unix epoch, and the nanoseconds within
/// that second.
#[derive(Clone, Copy, Debug, PartialEq, Eq, Structural)]
pub struct Timestamp {
    pub seconds: i64,
    pub nanoseconds: u32,
}

/// The parameters of key derivation and of the cipher.
#[derive(Clone, Copy, Debug, PartialEq, Eq, Structural)]
pub struct SecuritySettings {
    pub key_derivation_iterations: u32,
    pub memory_cost: u32,
    pub parallelism: u32,
    pub salt_length: usize,
    pub iv_length: usize,
    pub tag_length: usize,
}

pub const KEY_LENGTH: usize = 32;

pub const NONCE_LENGTH: usize = 12;

pub const TAG_LENGTH: usize = 16;

pub const MIN_SALT_LENGTH: usize = 8;

pub const MAX_SALT_LENGTH: usize = 48;

pub const MAX_PARALLELISM: u32 = 0xFF_FFFF;

impl SecuritySettings {
    /// The bounds of the key derivation function and of the cipher: at least
    /// one pass and one lane, at most 2^24 - 1 lanes, eight blocks of memory
    /// for each lane, a salt of 8 to 48 bytes, a nonce of 12 bytes and a tag
    /// of 16.
    pub open spec fn is_valid(&self) -> bool {
        &&& self.key_derivation_iterations >= 1
        &&& 1 <= self.parallelism <= MAX_PARALLELISM
        &&& self.memory_cost as int >= 8 * self.parallelism as int
        &&& MIN_SALT_LENGTH <= self.salt_length <= MAX_SALT_LENGTH
        &&& self.iv_length == NONCE_LENGTH
        &&& self.tag_length == TAG_LENGTH
    }

    /// Whether the settings are within the bounds.
    pub fn check(&self) -> (ok: bool)
        ensures
            ok == self.is_valid(),
    {
        self.key_derivation_iterations >= 1
            && 1 <= self.parallelism
            && self.parallelism <= MAX_PARALLELISM
            && self.memory_cost / 8 >= self.parallelism
            && MIN_SALT_LENGTH <= self.salt_length
            && self.salt_length <= MAX_SALT_LENGTH
            && self.iv_length == NONCE_LENGTH
            && self.tag_length == TAG_LENGTH
    }
}

impl Default for SecuritySettings {
    fn default() -> (settings: Self)
        ensures
            settings == (SecuritySettings {
                key_derivation_iterations: 100_000,
                memory_cost: 65536,
                parallelism: 4,
                salt_length: 32,
                iv_length: 12,
                tag_length: 16,
            }),
            settings.is_valid(),
    {
        SecuritySettings {
            key_derivation_iterations: 100_000,
            memory_cost: 65536,
            parallelism: 4,
            salt_length: 32,
            iv_length: 12,
            tag_length: 16,
        }
    }
}

/// What a container says of itself, as the record in its header holds it.
#[derive(Clone, Debug)]
pub struct EncryptionMetadata {
    pub version: String,
    pub algorithm: String,
    pub key_derivation: String,
    pub salt: Vec<u8>,
    pub iv: Vec<u8>,
    pub compressed: bool,
    pub original_filename: String,
    pub created_at: Timestamp,
    pub integrity_hash: Option<Vec<u8>>,
}

/// The mathematical value of an [`EncryptionMetadata`].
pub ghost struct MetadataView {
    pub version: Seq<char>,
    pub algorithm: Seq<char>,
    pub key_derivation: Seq<char>,
    pub salt: Seq<u8>,
    pub iv: Seq<u8>,
    pub compressed: bool,
    pub original_filename: Seq<char>,
    pub created_at: Timestamp,
    pub integrity_hash: Option<Seq<u8>>,
}

impl View for EncryptionMetadata {
    type V = MetadataView;

    open spec fn view(&self) -> MetadataView {
        MetadataView {
            version: self.version@,
            algorithm: self.algorithm@,
            key_derivation: self.key_derivation@,
            salt: self.salt@,
            iv: self.iv@,
            compressed: self.compressed,
            original_filename: self.original_filename@,
            created_at: self.created_at,
            integrity_hash: match self.integrity_hash {
                Some(h) => Some(h@),
                None => None,
            },
        }
    }
}

/// The size of what was encrypted against the size of the source: the
/// quotient of the two is the compression ratio.
#[derive(Clone, Copy, Debug, PartialEq, Eq, Structural)]
pub struct CompressionRatio {
    pub encrypted_bytes: u64,
    pub original_bytes: u64,
}

/// What one encryption or decryption did.
#[derive(Clone, Debug)]
pub struct EncryptionResult {
    pub success: bool,
    pub output_path: String,
    pub original_size: u64,
    pub encrypted_size: u64,
    pub compression_ratio: Option<CompressionRatio>,
    pub processing_time_ms: u64,
    pub message: String,
}

/// A file that a scan found.
#[derive(Clone, Debug)]
pub struct FileInfo {
    pub name: String,
    pub path: String,
    pub size: u64,
    pub modified: Timestamp,
    pub directory: String,
    pub is_encrypted: bool,
    pub encryption_version: Option<String>,
}

/// How far a scan has come.
#[derive(Clone, Debug)]
pub struct ScanProgress {
    pub directories_processed: u64,
    pub files_found: u64,
    pub current_path: String,
    pub is_complete: bool,
}

/// A request to process many files under one password.
#[derive(Clone, Debug)]
pub struct BatchOperation {
    pub files: Vec<String>,
    pub password: String,
    pub options: EncryptionOptions,
    pub output_directory: Option<String>,
}

/// What a batch did: how many files succeeded and failed, the message of
/// each failure and the result of each success, both in the order of the
/// files.
#[derive(Clone, Debug)]
pub struct BatchResult {
    pub total_files: usize,
    pub successful: usize,
    pub failed: usize,
    pub errors: Vec<String>,
    pub results: Vec<EncryptionResult>,
}

} // verus!
