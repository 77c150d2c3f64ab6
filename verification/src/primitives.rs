//! The cryptographic and compression primitives, taken from the crates that
//! implement them. Nothing in this file is proved: each function states what
//! the crate behind it is taken to do.

use vstd::prelude::*;
use aes_gcm::aead::Aead;
use aes_gcm::aead::KeyInit;
use argon2::PasswordHasher;
use rand::RngCore;
use sha2::Digest;
use std::io::Read;
use std::io::Write;
use zeroize::Zeroize;

verus! {

/// The Argon2id hash (version 0x13, default output length) of a password
/// under a salt with the given memory cost in KiB, number of passes and
/// number of lanes; `None` where the function rejects its parameters.
pub uninterp spec fn argon2id_hash(
    password: Seq<char>,
    salt: Seq<u8>,
    memory_cost: u32,
    iterations: u32,
    parallelism: u32,
) -> Option<Seq<u8>>;

/// The AES-256-GCM ciphertext, authentication tag appended, of a plaintext
/// under a key and a nonce, with no associated data; `None` where the
/// plaintext is longer than the cipher accepts.
pub uninterp spec fn aes256gcm_seal(key: Seq<u8>, nonce: Seq<u8>, plaintext: Seq<u8>) -> Option<
    Seq<u8>,
>;

/// The plaintext that AES-256-GCM recovers from a ciphertext with its tag;
/// `None` where the tag does not verify.
pub uninterp spec fn aes256gcm_open(key: Seq<u8>, nonce: Seq<u8>, sealed: Seq<u8>) -> Option<
    Seq<u8>,
>;

/// The SHA-256 digest of a byte string.
pub uninterp spec fn sha256_digest(data: Seq<u8>) -> Seq<u8>;

/// The raw DEFLATE stream of a byte string at the best compression level;
/// `None` where the encoder reports an error.
pub uninterp spec fn deflate_stream(data: Seq<u8>) -> Option<Seq<u8>>;

/// The bytes that a raw DEFLATE stream expands to; `None` where the stream
/// is malformed.
pub uninterp spec fn inflate_stream(data: Seq<u8>) -> Option<Seq<u8>>;

/// Calls `argon2::Argon2::hash_password` (Argon2id, version 0x13) on the
/// salt in its base-64 form, as `SaltString::encode_b64` gives it, with
/// parameters from `argon2::Params::new`. Claims only that the outcome is a
/// function of the arguments. The bounds keep the salt within what the salt
/// string holds and the lane count within what the parameter check
/// multiplies without overflow.
#[verifier::external_body]
pub(crate) fn argon2id(
    password: &str,
    salt: &[u8],
    memory_cost: u32,
    iterations: u32,
    parallelism: u32,
) -> (hash: Option<Vec<u8>>)
    requires
        8 <= salt@.len() <= 48,
        parallelism <= 0xFF_FFFF,
    ensures
        match hash {
            Some(h) => argon2id_hash(password@, salt@, memory_cost, iterations, parallelism)
                == Some(h@),
            None => argon2id_hash(password@, salt@, memory_cost, iterations, parallelism)
                is None,
        },
{
    let salt_string = argon2::password_hash::SaltString::encode_b64(salt).ok()?;
    let params = argon2::Params::new(memory_cost, iterations, parallelism, None).ok()?;
    let hasher = argon2::Argon2::new(argon2::Algorithm::Argon2id, argon2::Version::V0x13, params);
    let hashed = hasher.hash_password(password.as_bytes(), &salt_string).ok()?;
    Some(hashed.hash?.as_bytes().to_vec())
}

/// Calls `aes_gcm::Aes256Gcm::encrypt`. Claims that the outcome is a
/// function of the arguments, that the output is the plaintext's length plus
/// the 16-byte tag, and that opening it under the same key and nonce gives
/// the plaintext back.
#[verifier::external_body]
pub(crate) fn aead_seal(key: &[u8], nonce: &[u8], plaintext: &[u8]) -> (sealed: Option<Vec<u8>>)
    requires
        key@.len() == 32,
        nonce@.len() == 12,
    ensures
        match sealed {
            Some(c) => {
                &&& aes256gcm_seal(key@, nonce@, plaintext@) == Some(c@)
                &&& c@.len() == plaintext@.len() + 16
                &&& aes256gcm_open(key@, nonce@, c@) == Some(plaintext@)
            },
            None => aes256gcm_seal(key@, nonce@, plaintext@) is None,
        },
{
    let cipher = aes_gcm::Aes256Gcm::new(aes_gcm::Key::<aes_gcm::Aes256Gcm>::from_slice(key));
    cipher.encrypt(aes_gcm::Nonce::from_slice(nonce), plaintext).ok()
}

/// Calls `aes_gcm::Aes256Gcm::decrypt`. Claims only that the outcome is a
/// function of the arguments.
#[verifier::external_body]
pub(crate) fn aead_open(key: &[u8], nonce: &[u8], sealed: &[u8]) -> (plaintext: Option<Vec<u8>>)
    requires
        key@.len() == 32,
        nonce@.len() == 12,
    ensures
        match plaintext {
            Some(p) => aes256gcm_open(key@, nonce@, sealed@) == Some(p@),
            None => aes256gcm_open(key@, nonce@, sealed@) is None,
        },
{
    let cipher = aes_gcm::Aes256Gcm::new(aes_gcm::Key::<aes_gcm::Aes256Gcm>::from_slice(key));
    cipher.decrypt(aes_gcm::Nonce::from_slice(nonce), sealed).ok()
}

/// Calls `sha2::Sha256::digest`. Claims that the digest is a function of
/// the data and is 32 bytes long.
#[verifier::external_body]
pub(crate) fn sha256(data: &[u8]) -> (digest: Vec<u8>)
    ensures
        digest@ == sha256_digest(data@),
        digest@.len() == 32,
{
    sha2::Sha256::digest(data).to_vec()
}

/// Runs `flate2::write::DeflateEncoder` at `Compression::best()` over the
/// data. Claims that the outcome is a function of the data and that
/// inflating the stream gives the data back.
#[verifier::external_body]
pub(crate) fn deflate(data: &[u8]) -> (stream: Option<Vec<u8>>)
    ensures
        match stream {
            Some(c) => {
                &&& deflate_stream(data@) == Some(c@)
                &&& inflate_stream(c@) == Some(data@)
            },
            None => deflate_stream(data@) is None,
        },
{
    let mut encoder = flate2::write::DeflateEncoder::new(Vec::new(), flate2::Compression::best());
    encoder.write_all(data).ok()?;
    encoder.finish().ok()
}

/// Reads `flate2::read::DeflateDecoder` over the stream to its end. Claims
/// only that the outcome is a function of the stream.
#[verifier::external_body]
pub(crate) fn inflate(stream: &[u8]) -> (data: Option<Vec<u8>>)
    ensures
        match data {
            Some(d) => inflate_stream(stream@) == Some(d@),
            None => inflate_stream(stream@) is None,
        },
{
    let mut decoder = flate2::read::DeflateDecoder::new(stream);
    let mut data = Vec::new();
    decoder.read_to_end(&mut data).ok()?;
    Some(data)
}

/// Fills a buffer of the given length from `rand::rngs::OsRng`, the
/// operating system's generator. Claims only the length of what comes back;
/// `None` where the system gives no random bytes.
#[verifier::external_body]
pub(crate) fn random_bytes(length: usize) -> (bytes: Option<Vec<u8>>)
    ensures
        bytes matches Some(b) ==> b@.len() == length,
{
    let mut bytes = vec![0u8; length];
    rand::rngs::OsRng.try_fill_bytes(&mut bytes).ok()?;
    Some(bytes)
}

/// Calls `zeroize::Zeroize::zeroize` on the vector, which overwrites its
/// bytes with zeros and then clears it. Claims that the vector is empty
/// afterwards.
#[verifier::external_body]
pub(crate) fn wipe(bytes: &mut Vec<u8>)
    ensures
        final(bytes)@.len() == 0,
{
    bytes.zeroize();
}

} // verus!
