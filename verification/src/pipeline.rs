//! Sealing one file's bytes into metadata and ciphertext, and opening them
//! again.

use vstd::prelude::*;
use vstd::slice::*;
use vstd::string::*;
use crate::crypto::bytes_equal;
use crate::crypto::compress_data;
use crate::crypto::decompress_data;
use crate::crypto::decrypt;
use crate::crypto::encrypt;
use crate::crypto::spec_derive_key;
use crate::crypto::spec_pack;
use crate::crypto::spec_unpack;
use crate::crypto::CryptoEngine;
use crate::error::EncryptionError;
use crate::error::ErrorKind;
use crate::primitives::aes256gcm_open;
use crate::primitives::aes256gcm_seal;
use crate::primitives::sha256_digest;
use crate::primitives::wipe;
use crate::types::EncryptionMetadata;
use crate::types::EncryptionOptions;
use crate::types::MetadataView;
use crate::types::SecuritySettings;
use crate::types::Timestamp;
use crate::types::NONCE_LENGTH;

verus! {

pub const PROBE_LENGTH: usize = 64;

/// The versions that this library opens: those that begin with `2.`.
pub open spec fn is_supported_version(version: Seq<char>) -> bool {
    version.len() >= 2 && version[0] == '2' && version[1] == '.'
}

/// Whether a container of this version can be opened.
pub fn supported_version(version: &str) -> (supported: bool)
    ensures
        supported == is_supported_version(version@),
{
    if version.unicode_len() < 2 {
        return false;
    }
    version.get_char(0) == '2' && version.get_char(1) == '.'
}

/// The metadata that sealing writes and the ciphertext beside it.
#[derive(Clone, Debug)]
pub struct SealedPayload {
    pub metadata: EncryptionMetadata,
    pub ciphertext: Vec<u8>,
}

/// The metadata of a fresh container.
pub open spec fn fresh_metadata(
    options: EncryptionOptions,
    original_filename: Seq<char>,
    created_at: Timestamp,
    salt: Seq<u8>,
    nonce: Seq<u8>,
    ciphertext: Seq<u8>,
) -> MetadataView {
    MetadataView {
        version: "2.0.0"@,
        algorithm: "AES-256-GCM"@,
        key_derivation: "Argon2id"@,
        salt: salt,
        iv: nonce,
        compressed: options.compression_enabled,
        original_filename: original_filename,
        created_at: created_at,
        integrity_hash: if options.integrity_check {
            Some(sha256_digest(ciphertext))
        } else {
            None
        },
    }
}

/// What sealing gives for a source, a password and the random material: an
/// empty source is refused; then the key is derived, the data compressed
/// where the options say so and encrypted, and the digest of the ciphertext
/// recorded where the options say so.
pub open spec fn spec_seal(
    settings: SecuritySettings,
    plaintext: Seq<u8>,
    password: Seq<char>,
    options: EncryptionOptions,
    original_filename: Seq<char>,
    created_at: Timestamp,
    salt: Seq<u8>,
    nonce: Seq<u8>,
) -> Result<(MetadataView, Seq<u8>), ErrorKind> {
    if plaintext.len() == 0 {
        Err(ErrorKind::InvalidFileFormat)
    } else if nonce.len() != NONCE_LENGTH {
        Err(ErrorKind::Crypto)
    } else {
        match spec_derive_key(settings, password, salt) {
            None => Err(ErrorKind::KeyDerivationError),
            Some(key) => match spec_pack(options.compression_enabled, plaintext) {
                None => Err(ErrorKind::CompressionError),
                Some(packed) => match aes256gcm_seal(key, nonce, packed) {
                    None => Err(ErrorKind::Crypto),
                    Some(ciphertext) => Ok(
                        (
                            fresh_metadata(
                                options,
                                original_filename,
                                created_at,
                                salt,
                                nonce,
                                ciphertext,
                            ),
                            ciphertext,
                        ),
                    ),
                },
            },
        }
    }
}

/// What opening gives for metadata, a ciphertext and a password. The
/// checks come in this order: the version; the key; the nonce's length; the
/// recorded digest against the ciphertext's, where one is recorded; the
/// authentication tag; the compressed stream.
pub open spec fn spec_open(
    settings: SecuritySettings,
    metadata: MetadataView,
    ciphertext: Seq<u8>,
    password: Seq<char>,
) -> Result<Seq<u8>, ErrorKind> {
    if !is_supported_version(metadata.version) {
        Err(ErrorKind::UnsupportedVersion)
    } else {
        match spec_derive_key(settings, password, metadata.salt) {
            None => Err(ErrorKind::KeyDerivationError),
            Some(key) => if metadata.iv.len() != NONCE_LENGTH {
                Err(ErrorKind::InvalidFileFormat)
            } else if metadata.integrity_hash is Some && metadata.integrity_hash->Some_0
                != sha256_digest(ciphertext) {
                Err(ErrorKind::IntegrityCheckFailed)
            } else {
                match aes256gcm_open(key, metadata.iv, ciphertext) {
                    None => Err(ErrorKind::InvalidPassword),
                    Some(packed) => match spec_unpack(metadata.compressed, packed) {
                        None => Err(ErrorKind::CompressionError),
                        Some(plaintext) => Ok(plaintext),
                    },
                }
            },
        }
    }
}

/// Whether the quick probe accepts a password: the first 64 bytes of the
/// ciphertext, taken alone, authenticate under the derived key.
pub open spec fn spec_probe(
    settings: SecuritySettings,
    metadata: MetadataView,
    ciphertext: Seq<u8>,
    password: Seq<char>,
) -> bool {
    &&& ciphertext.len() >= PROBE_LENGTH
    &&& metadata.iv.len() == NONCE_LENGTH
    &&& spec_derive_key(settings, password, metadata.salt) is Some
    &&& aes256gcm_open(
        spec_derive_key(settings, password, metadata.salt)->Some_0,
        metadata.iv,
        ciphertext.subrange(0, PROBE_LENGTH as int),
    ) is Some
}

/// A container of a version outside the supported family is refused as
/// such, whatever else it holds and whatever the password.
pub proof fn lemma_version_gate(
    settings: SecuritySettings,
    metadata: MetadataView,
    ciphertext: Seq<u8>,
    password: Seq<char>,
)
    requires
        !is_supported_version(metadata.version),
    ensures
        spec_open(settings, metadata, ciphertext, password) == Err::<Seq<u8>, _>(
            ErrorKind::UnsupportedVersion,
        ),
{
}

/// Where a digest is recorded and the ciphertext's digest differs from it,
/// opening reports a failed integrity check, and so before the cipher has
/// any say. Where none is recorded, a ciphertext whose tag does not verify
/// is reported as an invalid password.
pub proof fn lemma_tampering_is_reported(
    settings: SecuritySettings,
    metadata: MetadataView,
    ciphertext: Seq<u8>,
    password: Seq<char>,
)
    requires
        is_supported_version(metadata.version),
        spec_derive_key(settings, password, metadata.salt) is Some,
        metadata.iv.len() == NONCE_LENGTH,
    ensures
        (metadata.integrity_hash matches Some(h) && h != sha256_digest(ciphertext)) ==> spec_open(
            settings,
            metadata,
            ciphertext,
            password,
        ) == Err::<Seq<u8>, _>(ErrorKind::IntegrityCheckFailed),
        metadata.integrity_hash is None && aes256gcm_open(
            spec_derive_key(settings, password, metadata.salt)->Some_0,
            metadata.iv,
            ciphertext,
        ) is None ==> spec_open(settings, metadata, ciphertext, password) == Err::<Seq<u8>, _>(
            ErrorKind::InvalidPassword,
        ),
{
}

/// Opening gives bytes only where the tag verified under the key of the
/// password given: what comes out is what the cipher authenticated, never
/// anything else. In every other case under a usable key and nonce and an
/// intact digest, the failure is an invalid password.
pub proof fn lemma_opened_is_authenticated(
    settings: SecuritySettings,
    metadata: MetadataView,
    ciphertext: Seq<u8>,
    password: Seq<char>,
)
    ensures
        spec_open(settings, metadata, ciphertext, password) matches Ok(plaintext) ==> {
            &&& spec_derive_key(settings, password, metadata.salt) matches Some(key)
            &&& aes256gcm_open(key, metadata.iv, ciphertext) matches Some(packed)
            &&& spec_unpack(metadata.compressed, packed) == Some(plaintext)
        },
        spec_open(settings, metadata, ciphertext, password) == Err::<Seq<u8>, _>(
            ErrorKind::InvalidPassword,
        ) ==> {
            &&& spec_derive_key(settings, password, metadata.salt) matches Some(key)
            &&& aes256gcm_open(key, metadata.iv, ciphertext) is None
        },
{
}

/// Seals a source with the given salt and nonce. Opening what comes back
/// with the same password gives the source again.
pub fn encrypt_with_materials(
    engine: &CryptoEngine,
    plaintext: &[u8],
    password: &str,
    options: &EncryptionOptions,
    original_filename: &str,
    created_at: Timestamp,
    salt: &[u8],
    nonce: &[u8],
) -> (result: Result<SealedPayload, EncryptionError>)
    ensures
        match result {
            Ok(sealed) => {
                &&& spec_seal(
                    engine.spec_settings(),
                    plaintext@,
                    password@,
                    *options,
                    original_filename@,
                    created_at,
                    salt@,
                    nonce@,
                ) == Ok::<_, ErrorKind>((sealed.metadata@, sealed.ciphertext@))
                &&& spec_open(
                    engine.spec_settings(),
                    sealed.metadata@,
                    sealed.ciphertext@,
                    password@,
                ) == Ok::<_, ErrorKind>(plaintext@)
            },
            Err(e) => spec_seal(
                engine.spec_settings(),
                plaintext@,
                password@,
                *options,
                original_filename@,
                created_at,
                salt@,
                nonce@,
            ) == Err::<(MetadataView, Seq<u8>), _>(e.spec_kind()),
        },
{
    if plaintext.len() == 0 {
        return Err(EncryptionError::InvalidFileFormat(String::from_str("File is empty")));
    }
    if nonce.len() != NONCE_LENGTH {
        return Err(EncryptionError::Crypto(String::from_str("Invalid nonce length")));
    }
    let mut key = match engine.derive_key(password, salt) {
        Ok(key) => key,
        Err(e) => {
            return Err(e);
        },
    };
    let ghost key_value = key@;
    let sealed_bytes = if options.compression_enabled {
        let mut packed = match compress_data(plaintext) {
            Ok(packed) => packed,
            Err(e) => {
                wipe(&mut key);
                return Err(e);
            },
        };
        let sealed_bytes = encrypt(key.as_slice(), nonce, packed.as_slice());
        wipe(&mut packed);
        sealed_bytes
    } else {
        encrypt(key.as_slice(), nonce, plaintext)
    };
    wipe(&mut key);
    let ciphertext = match sealed_bytes {
        Ok(ciphertext) => ciphertext,
        Err(e) => {
            return Err(e);
        },
    };
    let integrity_hash = if options.integrity_check {
        Some(engine.calculate_integrity_hash(ciphertext.as_slice()))
    } else {
        None
    };
    let metadata = EncryptionMetadata {
        version: String::from_str("2.0.0"),
        algorithm: String::from_str("AES-256-GCM"),
        key_derivation: String::from_str("Argon2id"),
        salt: slice_to_vec(salt),
        iv: slice_to_vec(nonce),
        compressed: options.compression_enabled,
        original_filename: String::from_str(original_filename),
        created_at,
        integrity_hash,
    };
    proof {
        reveal_strlit("2.0.0");
        assert(is_supported_version(metadata@.version));
        assert(metadata@ == fresh_metadata(
            *options,
            original_filename@,
            created_at,
            salt@,
            nonce@,
            ciphertext@,
        ));
    }
    Ok(SealedPayload { metadata, ciphertext })
}

/// Seals a source under a fresh random salt and a fresh random nonce, whose
/// lengths are the configured ones. An empty source is refused before any
/// random material is drawn.
pub fn encrypt_file(
    engine: &CryptoEngine,
    plaintext: &[u8],
    password: &str,
    options: &EncryptionOptions,
    original_filename: &str,
    created_at: Timestamp,
) -> (result: Result<SealedPayload, EncryptionError>)
    ensures
        match result {
            Ok(sealed) => {
                &&& sealed.metadata@.salt.len() == engine.spec_settings().salt_length
                &&& sealed.metadata@.iv.len() == engine.spec_settings().iv_length
                &&& spec_seal(
                    engine.spec_settings(),
                    plaintext@,
                    password@,
                    *options,
                    original_filename@,
                    created_at,
                    sealed.metadata@.salt,
                    sealed.metadata@.iv,
                ) == Ok::<_, ErrorKind>((sealed.metadata@, sealed.ciphertext@))
                &&& spec_open(
                    engine.spec_settings(),
                    sealed.metadata@,
                    sealed.ciphertext@,
                    password@,
                ) == Ok::<_, ErrorKind>(plaintext@)
            },
            Err(e) => {
                &&& plaintext@.len() == 0 ==> e.spec_kind() == ErrorKind::InvalidFileFormat
                &&& plaintext@.len() == 0 || e.spec_kind() == ErrorKind::Crypto || exists|
                    salt: Seq<u8>,
                    nonce: Seq<u8>,
                |
                    salt.len() == engine.spec_settings().salt_length && nonce.len()
                        == engine.spec_settings().iv_length && #[trigger] spec_seal(
                        engine.spec_settings(),
                        plaintext@,
                        password@,
                        *options,
                        original_filename@,
                        created_at,
                        salt,
                        nonce,
                    ) == Err::<(MetadataView, Seq<u8>), _>(e.spec_kind())
            },
        },
        plaintext@.len() == 0 ==> result is Err,
{
    if plaintext.len() == 0 {
        return Err(EncryptionError::InvalidFileFormat(String::from_str("File is empty")));
    }
    let salt = match engine.generate_salt() {
        Ok(salt) => salt,
        Err(e) => {
            return Err(e);
        },
    };
    let nonce = match engine.generate_nonce() {
        Ok(nonce) => nonce,
        Err(e) => {
            return Err(e);
        },
    };
    encrypt_with_materials(
        engine,
        plaintext,
        password,
        options,
        original_filename,
        created_at,
        salt.as_slice(),
        nonce.as_slice(),
    )
}

/// Opens a ciphertext with the metadata that came with it. A failed
/// authentication is reported as an invalid password, whether the password
/// or the data is at fault. A recorded digest that differs from the
/// ciphertext's is reported before the cipher is tried.
pub fn decrypt_file(
    engine: &CryptoEngine,
    metadata: &EncryptionMetadata,
    ciphertext: &[u8],
    password: &str,
) -> (result: Result<Vec<u8>, EncryptionError>)
    ensures
        match result {
            Ok(plaintext) => spec_open(engine.spec_settings(), metadata@, ciphertext@, password@)
                == Ok::<_, ErrorKind>(plaintext@),
            Err(e) => {
                &&& spec_open(engine.spec_settings(), metadata@, ciphertext@, password@) == Err::<
                    Seq<u8>,
                    _,
                >(e.spec_kind())
                &&& e matches EncryptionError::UnsupportedVersion(v) ==> v@ == metadata@.version
            },
        },
{
    if !supported_version(metadata.version.as_str()) {
        return Err(EncryptionError::UnsupportedVersion(metadata.version.clone()));
    }
    let mut key = match engine.derive_key(password, metadata.salt.as_slice()) {
        Ok(key) => key,
        Err(e) => {
            return Err(e);
        },
    };
    if metadata.iv.len() != NONCE_LENGTH {
        wipe(&mut key);
        return Err(EncryptionError::InvalidFileFormat(String::from_str("Invalid nonce length")));
    }
    match &metadata.integrity_hash {
        Some(expected) => {
            let actual = engine.calculate_integrity_hash(ciphertext);
            if !bytes_equal(actual.as_slice(), expected.as_slice()) {
                wipe(&mut key);
                return Err(
                    EncryptionError::IntegrityCheckFailed(
                        String::from_str("Data integrity check failed"),
                    ),
                );
            }
        },
        None => {},
    }
    let opened = decrypt(key.as_slice(), metadata.iv.as_slice(), ciphertext);
    wipe(&mut key);
    let packed = match opened {
        Ok(packed) => packed,
        Err(e) => {
            return Err(e);
        },
    };
    if metadata.compressed {
        decompress_data(packed.as_slice())
    } else {
        Ok(packed)
    }
}

/// Probes a password against the first 64 bytes of the ciphertext. Any
/// failure on the way, a short ciphertext and a failed key derivation among
/// them, gives `false`. Since the tag covers the whole ciphertext, a `true`
/// or `false` from here is a hint and no more: a full decryption decides.
pub fn verify_password(
    engine: &CryptoEngine,
    metadata: &EncryptionMetadata,
    ciphertext: &[u8],
    password: &str,
) -> (accepted: bool)
    ensures
        accepted == spec_probe(engine.spec_settings(), metadata@, ciphertext@, password@),
{
    if ciphertext.len() < PROBE_LENGTH || metadata.iv.len() != NONCE_LENGTH {
        return false;
    }
    let mut key = match engine.derive_key(password, metadata.salt.as_slice()) {
        Ok(key) => key,
        Err(_) => {
            return false;
        },
    };
    let prefix = slice_subrange(ciphertext, 0, PROBE_LENGTH);
    let opened = decrypt(key.as_slice(), metadata.iv.as_slice(), prefix);
    wipe(&mut key);
    opened.is_ok()
}

} // verus!
