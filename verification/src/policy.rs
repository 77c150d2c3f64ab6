//! The decisions around one file: what is refused before work starts, what
//! becomes of the source afterwards, what the output is called, and what is
//! reported.

use vstd::prelude::*;
use vstd::string::*;
use crate::container::HEADER_LENGTH;
use crate::error::EncryptionError;
use crate::error::ErrorKind;
use crate::primitives::random_bytes;
use crate::types::CompressionRatio;
use crate::types::EncryptionOptions;
use crate::types::EncryptionResult;

verus! {

/// Refuses an encryption whose source is missing or empty, or whose output
/// already exists. Nothing is ever overwritten.
pub fn check_encrypt_request(
    source_path: &str,
    source_exists: bool,
    source_size: u64,
    output_path: &str,
    output_exists: bool,
) -> (result: Result<(), EncryptionError>)
    ensures
        result is Ok <==> source_exists && source_size > 0 && !output_exists,
        !source_exists ==> (result matches Err(EncryptionError::FileNotFound(p)) && p@
            == source_path@),
        source_exists && source_size == 0 ==> (result matches Err(
            EncryptionError::InvalidFileFormat(d),
        ) && d@ == "File is empty"@),
        source_exists && source_size > 0 && output_exists ==> (result matches Err(
            EncryptionError::FileExists(p),
        ) && p@ == output_path@),
{
    if !source_exists {
        return Err(EncryptionError::FileNotFound(String::from_str(source_path)));
    }
    if source_size == 0 {
        return Err(EncryptionError::InvalidFileFormat(String::from_str("File is empty")));
    }
    if output_exists {
        return Err(EncryptionError::FileExists(String::from_str(output_path)));
    }
    Ok(())
}

/// Refuses a decryption whose source is missing or too short to hold the
/// marker and the metadata block.
pub fn check_decrypt_request(source_path: &str, source_exists: bool, source_size: u64) -> (result:
    Result<(), EncryptionError>)
    ensures
        result is Ok <==> source_exists && source_size >= 1032,
        !source_exists ==> (result matches Err(EncryptionError::FileNotFound(p)) && p@
            == source_path@),
        source_exists && source_size < 1032 ==> (result matches Err(
            EncryptionError::InvalidFileFormat(d),
        ) && d@ == "File too small to be encrypted"@),
{
    if !source_exists {
        return Err(EncryptionError::FileNotFound(String::from_str(source_path)));
    }
    if source_size < HEADER_LENGTH as u64 {
        return Err(
            EncryptionError::InvalidFileFormat(String::from_str("File too small to be encrypted")),
        );
    }
    Ok(())
}

/// Refuses to write where something already is.
pub fn check_output_free(output_path: &str, output_exists: bool) -> (result: Result<
    (),
    EncryptionError,
>)
    ensures
        result is Ok <==> !output_exists,
        output_exists ==> (result matches Err(EncryptionError::FileExists(p)) && p@
            == output_path@),
{
    if output_exists {
        Err(EncryptionError::FileExists(String::from_str(output_path)))
    } else {
        Ok(())
    }
}

/// The place of the last dot among the first `n` characters of a name, or
/// -1 where there is none.
pub open spec fn last_dot(name: Seq<char>, n: int) -> int
    decreases n,
{
    if n <= 0 {
        -1
    } else if name[n - 1] == '.' {
        n - 1
    } else {
        last_dot(name, n - 1)
    }
}

/// A file name without its extension: what stands before the last dot. A
/// name without a dot, or with its only dot in front, has no extension.
pub open spec fn spec_file_stem(name: Seq<char>) -> Seq<char> {
    let dot = last_dot(name, name.len() as int);
    if dot <= 0 {
        name
    } else {
        name.subrange(0, dot)
    }
}

/// The name of the container of a file: the file's name with `enc` in
/// place of its extension.
pub open spec fn spec_encrypted_file_name(name: Seq<char>) -> Seq<char> {
    spec_file_stem(name) + ".enc"@
}

/// The name under which a decrypted file is written: the name recorded in
/// the metadata, or `decrypted_` and the container's name without its
/// extension where none is recorded.
pub open spec fn spec_restored_file_name(
    original_filename: Seq<char>,
    container_name: Seq<char>,
) -> Seq<char> {
    if original_filename.len() == 0 {
        "decrypted_"@ + spec_file_stem(container_name)
    } else {
        original_filename
    }
}

pub fn file_stem(name: &str) -> (stem: &str)
    ensures
        stem@ == spec_file_stem(name@),
{
    let length: usize = name.unicode_len();
    let mut i: usize = length;
    while i > 0
        invariant
            i <= length,
            length == name@.len(),
            last_dot(name@, length as int) == last_dot(name@, i as int),
        decreases i,
    {
        if name.get_char(i - 1) == '.' {
            if i - 1 == 0 {
                assert(name@.subrange(0, length as int) =~= name@);
                return name;
            }
            return name.substring_char(0, i - 1);
        }
        i = i - 1;
    }
    name
}

pub fn encrypted_file_name(name: &str) -> (container_name: String)
    ensures
        container_name@ == spec_encrypted_file_name(name@),
{
    String::from_str(file_stem(name)).concat(".enc")
}

pub fn restored_file_name(original_filename: &str, container_name: &str) -> (name: String)
    ensures
        name@ == spec_restored_file_name(original_filename@, container_name@),
{
    if original_filename.unicode_len() == 0 {
        String::from_str("decrypted_").concat(file_stem(container_name))
    } else {
        String::from_str(original_filename)
    }
}

/// What becomes of the source once its container is written.
#[derive(Clone, Copy, Debug, PartialEq, Eq, Structural)]
pub enum DisposalPolicy {
    Keep,
    Delete,
    EraseThenDelete,
}

/// Plain deletion where the options ask for it; else erasure before
/// deletion where they ask for that; else the source stays.
pub open spec fn spec_disposal_policy(options: EncryptionOptions) -> DisposalPolicy {
    if options.delete_original {
        DisposalPolicy::Delete
    } else if options.erase_traces {
        DisposalPolicy::EraseThenDelete
    } else {
        DisposalPolicy::Keep
    }
}

pub fn disposal_policy(options: &EncryptionOptions) -> (policy: DisposalPolicy)
    ensures
        policy == spec_disposal_policy(*options),
{
    if options.delete_original {
        DisposalPolicy::Delete
    } else if options.erase_traces {
        DisposalPolicy::EraseThenDelete
    } else {
        DisposalPolicy::Keep
    }
}

/// One thing done to the source file.
#[derive(Clone, Debug)]
pub enum DisposalStep {
    /// Write these bytes over the file from its start.
    Overwrite(Vec<u8>),
    /// Flush the file to durable storage.
    Flush,
    /// Remove the file.
    Remove,
}

/// Whether the steps carry out the policy on a file of the given length:
/// nothing to keep it; one removal to delete it; to erase it, an overwrite
/// with exactly as many bytes as the file has, then a flush, then the
/// removal.
pub open spec fn carries_out(
    steps: Seq<DisposalStep>,
    policy: DisposalPolicy,
    file_length: usize,
) -> bool {
    match policy {
        DisposalPolicy::Keep => steps.len() == 0,
        DisposalPolicy::Delete => steps.len() == 1 && steps[0] is Remove,
        DisposalPolicy::EraseThenDelete => {
            &&& steps.len() == 3
            &&& (steps[0] matches DisposalStep::Overwrite(data) && data@.len() == file_length)
            &&& steps[1] is Flush
            &&& steps[2] is Remove
        },
    }
}

/// The steps that dispose of a source of the given length. The bytes of an
/// overwrite are fresh random ones. The only failure is a random generator
/// that gives nothing, and then only where erasure was asked for.
pub fn disposal_steps(options: &EncryptionOptions, file_length: usize) -> (result: Result<
    Vec<DisposalStep>,
    EncryptionError,
>)
    ensures
        match result {
            Ok(steps) => carries_out(steps@, spec_disposal_policy(*options), file_length),
            Err(e) => {
                &&& spec_disposal_policy(*options) == DisposalPolicy::EraseThenDelete
                &&& e.spec_kind() == ErrorKind::Crypto
            },
        },
{
    let mut steps: Vec<DisposalStep> = Vec::new();
    match disposal_policy(options) {
        DisposalPolicy::Keep => {},
        DisposalPolicy::Delete => {
            steps.push(DisposalStep::Remove);
        },
        DisposalPolicy::EraseThenDelete => {
            let data = match random_bytes(file_length) {
                Some(data) => data,
                None => {
                    return Err(
                        EncryptionError::Crypto(String::from_str("No random bytes available")),
                    );
                },
            };
            steps.push(DisposalStep::Overwrite(data));
            steps.push(DisposalStep::Flush);
            steps.push(DisposalStep::Remove);
        },
    }
    Ok(steps)
}

/// The report of a finished encryption. The ratio is stated only where
/// compression was on: the ciphertext's length against the source's.
pub fn encryption_report(
    output_path: &str,
    original_size: u64,
    container_size: u64,
    ciphertext_length: u64,
    compression_enabled: bool,
    processing_time_ms: u64,
) -> (report: EncryptionResult)
    ensures
        report.success,
        report.output_path@ == output_path@,
        report.original_size == original_size,
        report.encrypted_size == container_size,
        report.compression_ratio == (if compression_enabled {
            Some(
                CompressionRatio {
                    encrypted_bytes: ciphertext_length,
                    original_bytes: original_size,
                },
            )
        } else {
            None
        }),
        report.processing_time_ms == processing_time_ms,
        report.message@ == "Encryption completed successfully"@,
{
    EncryptionResult {
        success: true,
        output_path: String::from_str(output_path),
        original_size,
        encrypted_size: container_size,
        compression_ratio: if compression_enabled {
            Some(
                CompressionRatio {
                    encrypted_bytes: ciphertext_length,
                    original_bytes: original_size,
                },
            )
        } else {
            None
        },
        processing_time_ms,
        message: String::from_str("Encryption completed successfully"),
    }
}

/// The report of a finished decryption: the container's size, then the
/// size of what came out of it.
pub fn decryption_report(
    output_path: &str,
    container_size: u64,
    decrypted_size: u64,
    processing_time_ms: u64,
) -> (report: EncryptionResult)
    ensures
        report.success,
        report.output_path@ == output_path@,
        report.original_size == container_size,
        report.encrypted_size == decrypted_size,
        report.compression_ratio is None,
        report.processing_time_ms == processing_time_ms,
        report.message@ == "Decryption completed successfully"@,
{
    EncryptionResult {
        success: true,
        output_path: String::from_str(output_path),
        original_size: container_size,
        encrypted_size: decrypted_size,
        compression_ratio: None,
        processing_time_ms,
        message: String::from_str("Decryption completed successfully"),
    }
}

} // verus!
