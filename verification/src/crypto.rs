//! The engine: key derivation, random material, digests and compression
//! under one set of security settings.

use vstd::prelude::*;
use vstd::slice::*;
use vstd::string::*;
use crate::error::EncryptionError;
use crate::error::ErrorKind;
use crate::primitives::aead_open;
use crate::primitives::aead_seal;
use crate::primitives::aes256gcm_open;
use crate::primitives::aes256gcm_seal;
use crate::primitives::argon2id;
use crate::primitives::argon2id_hash;
use crate::primitives::deflate;
use crate::primitives::deflate_stream;
use crate::primitives::inflate;
use crate::primitives::inflate_stream;
use crate::primitives::random_bytes;
use crate::primitives::sha256;
use crate::primitives::sha256_digest;
use crate::types::SecuritySettings;
use crate::types::KEY_LENGTH;
use crate::types::MAX_SALT_LENGTH;
use crate::types::MIN_SALT_LENGTH;
use crate::types::NONCE_LENGTH;

verus! {

/// The key that a password and a salt give under the settings: the first 32
/// bytes of the Argon2id hash. There is none where the settings are out of
/// bounds, the salt is shorter than 8 or longer than 48 bytes, or the hash
/// function fails.
pub open spec fn spec_derive_key(
    settings: SecuritySettings,
    password: Seq<char>,
    salt: Seq<u8>,
) -> Option<Seq<u8>> {
    if !settings.is_valid() || salt.len() < MIN_SALT_LENGTH || salt.len() > MAX_SALT_LENGTH {
        None
    } else {
        match argon2id_hash(
            password,
            salt,
            settings.memory_cost,
            settings.key_derivation_iterations,
            settings.parallelism,
        ) {
            Some(hash) => if hash.len() >= KEY_LENGTH {
                Some(hash.subrange(0, KEY_LENGTH as int))
            } else {
                None
            },
            None => None,
        }
    }
}

/// What is handed to the cipher: the DEFLATE stream of the data where
/// compression is on, the data itself where it is off.
pub open spec fn spec_pack(compress: bool, data: Seq<u8>) -> Option<Seq<u8>> {
    if compress {
        deflate_stream(data)
    } else {
        Some(data)
    }
}

/// What the cipher's output is turned back into.
pub open spec fn spec_unpack(compressed: bool, data: Seq<u8>) -> Option<Seq<u8>> {
    if compressed {
        inflate_stream(data)
    } else {
        Some(data)
    }
}

/// Whether two byte strings are equal.
pub fn bytes_equal(a: &[u8], b: &[u8]) -> (equal: bool)
    ensures
        equal == (a@ == b@),
{
    if a.len() != b.len() {
        return false;
    }
    let mut i: usize = 0;
    while i < a.len()
        invariant
            i <= a@.len(),
            a@.len() == b@.len(),
            forall|j: int| 0 <= j < i ==> a@[j] == b@[j],
        decreases a@.len() - i,
    {
        if a[i] != b[i] {
            return false;
        }
        i = i + 1;
    }
    assert(a@ =~= b@);
    true
}

pub struct CryptoEngine {
    settings: SecuritySettings,
}

impl Default for CryptoEngine {
    fn default() -> (engine: Self)
        ensures
            engine.spec_settings() == (SecuritySettings {
                key_derivation_iterations: 100_000,
                memory_cost: 65536,
                parallelism: 4,
                salt_length: 32,
                iv_length: 12,
                tag_length: 16,
            }),
    {
        CryptoEngine { settings: SecuritySettings::default() }
    }
}

impl CryptoEngine {
    /// The settings that the engine was made with.
    pub closed spec fn spec_settings(&self) -> SecuritySettings {
        self.settings
    }

    /// An engine with the given settings, whatever they are. Settings out
    /// of bounds are not changed: every key derivation under them fails.
    pub fn new(settings: SecuritySettings) -> (engine: Self)
        ensures
            engine.spec_settings() == settings,
    {
        CryptoEngine { settings }
    }

    /// An engine with the given settings, or the failure that says they are
    /// out of bounds.
    pub fn with_checked_settings(settings: SecuritySettings) -> (result: Result<
        Self,
        EncryptionError,
    >)
        ensures
            match result {
                Ok(engine) => settings.is_valid() && engine.spec_settings() == settings,
                Err(e) => !settings.is_valid() && e.spec_kind() == ErrorKind::KeyDerivationError,
            },
    {
        if settings.check() {
            Ok(CryptoEngine { settings })
        } else {
            Err(
                EncryptionError::KeyDerivationError(
                    String::from_str("Security settings are out of bounds"),
                ),
            )
        }
    }

    pub fn settings(&self) -> (settings: SecuritySettings)
        ensures
            settings == self.spec_settings(),
    {
        self.settings
    }

    /// Derives the 32-byte key of a password and a salt.
    pub fn derive_key(&self, password: &str, salt: &[u8]) -> (result: Result<
        Vec<u8>,
        EncryptionError,
    >)
        ensures
            match result {
                Ok(key) => {
                    &&& spec_derive_key(self.spec_settings(), password@, salt@) == Some(key@)
                    &&& key@.len() == 32
                },
                Err(e) => {
                    &&& spec_derive_key(self.spec_settings(), password@, salt@) is None
                    &&& e.spec_kind() == ErrorKind::KeyDerivationError
                },
            },
    {
        if !self.settings.check() {
            return Err(
                EncryptionError::KeyDerivationError(
                    String::from_str("Security settings are out of bounds"),
                ),
            );
        }
        if salt.len() < MIN_SALT_LENGTH || salt.len() > MAX_SALT_LENGTH {
            return Err(
                EncryptionError::KeyDerivationError(String::from_str("Salt length is out of bounds")),
            );
        }
        let hashed = argon2id(
            password,
            salt,
            self.settings.memory_cost,
            self.settings.key_derivation_iterations,
            self.settings.parallelism,
        );
        match hashed {
            Some(hash) => {
                if hash.len() < KEY_LENGTH {
                    return Err(
                        EncryptionError::KeyDerivationError(
                            String::from_str("Derived material is too short"),
                        ),
                    );
                }
                let key = slice_to_vec(slice_subrange(hash.as_slice(), 0, KEY_LENGTH));
                Ok(key)
            },
            None => Err(
                EncryptionError::KeyDerivationError(String::from_str("Key derivation failed")),
            ),
        }
    }

    /// A fresh random salt of the configured length.
    pub fn generate_salt(&self) -> (result: Result<Vec<u8>, EncryptionError>)
        ensures
            match result {
                Ok(salt) => salt@.len() == self.spec_settings().salt_length,
                Err(e) => e.spec_kind() == ErrorKind::Crypto,
            },
    {
        match random_bytes(self.settings.salt_length) {
            Some(salt) => Ok(salt),
            None => Err(EncryptionError::Crypto(String::from_str("No random bytes available"))),
        }
    }

    /// A fresh random nonce of the configured length.
    pub fn generate_nonce(&self) -> (result: Result<Vec<u8>, EncryptionError>)
        ensures
            match result {
                Ok(nonce) => nonce@.len() == self.spec_settings().iv_length,
                Err(e) => e.spec_kind() == ErrorKind::Crypto,
            },
    {
        match random_bytes(self.settings.iv_length) {
            Some(nonce) => Ok(nonce),
            None => Err(EncryptionError::Crypto(String::from_str("No random bytes available"))),
        }
    }

    /// The SHA-256 digest of the data.
    pub fn calculate_integrity_hash(&self, data: &[u8]) -> (digest: Vec<u8>)
        ensures
            digest@ == sha256_digest(data@),
            digest@.len() == 32,
    {
        sha256(data)
    }
}

/// A fresh random key of 32 bytes.
pub fn generate_key() -> (result: Result<Vec<u8>, EncryptionError>)
    ensures
        match result {
            Ok(key) => key@.len() == 32,
            Err(e) => e.spec_kind() == ErrorKind::Crypto,
        },
{
    match random_bytes(KEY_LENGTH) {
        Some(key) => Ok(key),
        None => Err(EncryptionError::Crypto(String::from_str("No random bytes available"))),
    }
}

/// Compresses the data. What comes back decompresses to the data.
pub fn compress_data(data: &[u8]) -> (result: Result<Vec<u8>, EncryptionError>)
    ensures
        match result {
            Ok(stream) => {
                &&& deflate_stream(data@) == Some(stream@)
                &&& inflate_stream(stream@) == Some(data@)
            },
            Err(e) => {
                &&& deflate_stream(data@) is None
                &&& e.spec_kind() == ErrorKind::CompressionError
            },
        },
{
    match deflate(data) {
        Some(stream) => Ok(stream),
        None => Err(EncryptionError::CompressionError(String::from_str("Compression failed"))),
    }
}

/// Decompresses a stream. A malformed stream is a failure, never an empty
/// result.
pub fn decompress_data(stream: &[u8]) -> (result: Result<Vec<u8>, EncryptionError>)
    ensures
        match result {
            Ok(data) => inflate_stream(stream@) == Some(data@),
            Err(e) => {
                &&& inflate_stream(stream@) is None
                &&& e.spec_kind() == ErrorKind::CompressionError
            },
        },
{
    match inflate(stream) {
        Some(data) => Ok(data),
        None => Err(
            EncryptionError::CompressionError(String::from_str("Malformed compressed stream")),
        ),
    }
}

/// Encrypts a buffer under a 32-byte key and a 12-byte nonce; the 16-byte
/// tag is appended.
pub fn encrypt(key: &[u8], nonce: &[u8], plaintext: &[u8]) -> (result: Result<
    Vec<u8>,
    EncryptionError,
>)
    ensures
        match result {
            Ok(sealed) => {
                &&& key@.len() == KEY_LENGTH
                &&& nonce@.len() == NONCE_LENGTH
                &&& aes256gcm_seal(key@, nonce@, plaintext@) == Some(sealed@)
                &&& aes256gcm_open(key@, nonce@, sealed@) == Some(plaintext@)
                &&& sealed@.len() == plaintext@.len() + 16
            },
            Err(e) => {
                &&& e.spec_kind() == ErrorKind::Crypto
                &&& key@.len() != KEY_LENGTH || nonce@.len() != NONCE_LENGTH || aes256gcm_seal(
                    key@,
                    nonce@,
                    plaintext@,
                ) is None
            },
        },
{
    if key.len() != KEY_LENGTH || nonce.len() != NONCE_LENGTH {
        return Err(EncryptionError::Crypto(String::from_str("Invalid key or nonce length")));
    }
    match aead_seal(key, nonce, plaintext) {
        Some(sealed) => Ok(sealed),
        None => Err(EncryptionError::Crypto(String::from_str("Encryption failed"))),
    }
}

/// Decrypts a buffer that ends in its tag. A tag that does not verify is
/// reported as an invalid password, whatever its cause.
pub fn decrypt(key: &[u8], nonce: &[u8], sealed: &[u8]) -> (result: Result<
    Vec<u8>,
    EncryptionError,
>)
    ensures
        match result {
            Ok(plaintext) => {
                &&& key@.len() == KEY_LENGTH
                &&& nonce@.len() == NONCE_LENGTH
                &&& aes256gcm_open(key@, nonce@, sealed@) == Some(plaintext@)
            },
            Err(e) => if key@.len() != KEY_LENGTH || nonce@.len() != NONCE_LENGTH {
                e.spec_kind() == ErrorKind::Crypto
            } else {
                &&& e.spec_kind() == ErrorKind::InvalidPassword
                &&& aes256gcm_open(key@, nonce@, sealed@) is None
            },
        },
{
    if key.len() != KEY_LENGTH || nonce.len() != NONCE_LENGTH {
        return Err(EncryptionError::Crypto(String::from_str("Invalid key or nonce length")));
    }
    match aead_open(key, nonce, sealed) {
        Some(plaintext) => Ok(plaintext),
        None => Err(EncryptionError::InvalidPassword),
    }
}

} // verus!
