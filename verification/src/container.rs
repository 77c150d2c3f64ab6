//! The container: an 8-byte marker, a metadata block of 1024 bytes that
//! holds the record and zero padding, then the ciphertext.

use vstd::prelude::*;
use vstd::slice::*;
use vstd::string::*;
use crate::error::EncryptionError;
use crate::error::ErrorKind;

verus! {

pub const MAGIC_LENGTH: usize = 8;

pub const METADATA_SIZE: usize = 1024;

pub const HEADER_LENGTH: usize = 1032;

/// The marker that opens every container: the ASCII text `FE2.0` and three
/// zero bytes.
pub open spec fn magic_header() -> Seq<u8> {
    seq![0x46u8, 0x45u8, 0x32u8, 0x2eu8, 0x30u8, 0u8, 0u8, 0u8]
}

/// Whether the bytes begin with the marker.
pub open spec fn has_magic(bytes: Seq<u8>) -> bool {
    bytes.len() >= 8 && bytes.subrange(0, 8) == magic_header()
}

/// A record that the metadata block can hold and give back: at most 1024
/// bytes, none of them zero.
pub open spec fn is_record(record: Seq<u8>) -> bool {
    &&& record.len() <= 1024
    &&& forall|i: int| 0 <= i < record.len() ==> record[i] != 0
}

/// The metadata block of a record: the record, then zeros up to 1024 bytes.
pub open spec fn padded_block(record: Seq<u8>) -> Seq<u8> {
    record + Seq::new((1024 - record.len()) as nat, |i: int| 0u8)
}

/// The container of a record and a ciphertext.
pub open spec fn container_bytes(record: Seq<u8>, ciphertext: Seq<u8>) -> Seq<u8> {
    magic_header() + padded_block(record) + ciphertext
}

/// Whether the record in a block ends at `end`: no zero byte before it, and
/// a zero byte at it unless the block ends there.
pub open spec fn is_record_end(block: Seq<u8>, end: int) -> bool {
    &&& 0 <= end <= block.len()
    &&& forall|i: int| 0 <= i < end ==> block[i] != 0
    &&& end < block.len() ==> block[end] == 0
}

/// Whether the bytes are a container that holds this record and this
/// ciphertext.
pub open spec fn parses_to(bytes: Seq<u8>, record: Seq<u8>, ciphertext: Seq<u8>) -> bool {
    &&& bytes.len() >= 1032
    &&& has_magic(bytes)
    &&& is_record_end(bytes.subrange(8, 1032), record.len() as int)
    &&& record == bytes.subrange(8, 8 + record.len() as int)
    &&& ciphertext == bytes.subrange(1032, bytes.len() as int)
}

/// The two parts of a container that was read.
#[derive(Clone, Debug)]
pub struct Container {
    pub record: Vec<u8>,
    pub ciphertext: Vec<u8>,
}

/// A container holds one record and one ciphertext, no others.
pub proof fn lemma_parse_unique(
    bytes: Seq<u8>,
    record_a: Seq<u8>,
    ciphertext_a: Seq<u8>,
    record_b: Seq<u8>,
    ciphertext_b: Seq<u8>,
)
    requires
        parses_to(bytes, record_a, ciphertext_a),
        parses_to(bytes, record_b, ciphertext_b),
    ensures
        record_a == record_b,
        ciphertext_a == ciphertext_b,
{
    let block = bytes.subrange(8, 1032);
    let a = record_a.len() as int;
    let b = record_b.len() as int;
    if a < b {
        assert(block[a] == 0);
        assert(block[a] != 0);
    }
    if b < a {
        assert(block[b] == 0);
        assert(block[b] != 0);
    }
}

/// Reading is the inverse of writing: the container written for a record
/// and a ciphertext holds exactly that record and that ciphertext, and it is
/// 8 + 1024 bytes longer than the ciphertext.
pub proof fn lemma_container_round_trip(record: Seq<u8>, ciphertext: Seq<u8>)
    requires
        is_record(record),
    ensures
        parses_to(container_bytes(record, ciphertext), record, ciphertext),
        container_bytes(record, ciphertext).len() == 8 + 1024 + ciphertext.len(),
{
    let bytes = container_bytes(record, ciphertext);
    let block = padded_block(record);
    assert(block.len() == 1024);
    assert(bytes.subrange(0, 8) =~= magic_header());
    assert(bytes.subrange(8, 1032) =~= block);
    assert(bytes.subrange(8, 8 + record.len() as int) =~= record);
    assert(bytes.subrange(1032, bytes.len() as int) =~= ciphertext);
    assert forall|i: int| 0 <= i < record.len() implies block[i] != 0 by {
        assert(block[i] == record[i]);
    }
    if record.len() < 1024 {
        assert(block[record.len() as int] == 0);
    }
}

/// A file that is shorter than the marker and the metadata block, or that
/// does not begin with the marker, holds no record and no ciphertext.
pub proof fn lemma_malformed_holds_nothing(bytes: Seq<u8>, record: Seq<u8>, ciphertext: Seq<u8>)
    requires
        bytes.len() < 1032 || !has_magic(bytes),
    ensures
        !parses_to(bytes, record, ciphertext),
{
}

/// The marker's bytes.
pub fn magic_bytes() -> (magic: [u8; 8])
    ensures
        magic@ == magic_header(),
{
    let magic: [u8; 8] = [0x46u8, 0x45u8, 0x32u8, 0x2eu8, 0x30u8, 0u8, 0u8, 0u8];
    assert(magic@ =~= magic_header());
    magic
}

/// Whether a file's first bytes are the marker. Fewer than eight bytes are
/// not.
pub fn is_encrypted_file(header: &[u8]) -> (flagged: bool)
    ensures
        flagged == has_magic(header@),
{
    if header.len() < MAGIC_LENGTH {
        return false;
    }
    let magic = magic_bytes();
    let mut i: usize = 0;
    while i < MAGIC_LENGTH
        invariant
            i <= 8,
            header@.len() >= 8,
            magic@ == magic_header(),
            forall|j: int| 0 <= j < i ==> header@[j] == magic@[j],
        decreases 8 - i,
    {
        if header[i] != magic[i] {
            assert(header@.subrange(0, 8)[i as int] != magic_header()[i as int]);
            return false;
        }
        i = i + 1;
    }
    assert(header@.subrange(0, 8) =~= magic_header());
    true
}

/// Appends a slice to a vector.
fn append_bytes(target: &mut Vec<u8>, source: &[u8])
    requires
        old(target)@.len() + source@.len() <= usize::MAX,
    ensures
        final(target)@ == old(target)@ + source@,
{
    let mut i: usize = 0;
    while i < source.len()
        invariant
            i <= source@.len(),
            target@ == old(target)@ + source@.subrange(0, i as int),
        decreases source@.len() - i,
    {
        target.push(source[i]);
        i = i + 1;
        assert(target@ =~= old(target)@ + source@.subrange(0, i as int));
    }
    assert(source@.subrange(0, source@.len() as int) =~= source@);
}

/// The index of the first zero byte of a block, or the block's length where
/// it has none.
fn find_record_end(block: &[u8]) -> (end: usize)
    ensures
        is_record_end(block@, end as int),
{
    let mut i: usize = 0;
    while i < block.len()
        invariant
            i <= block@.len(),
            forall|j: int| 0 <= j < i ==> block@[j] != 0,
        decreases block@.len() - i,
    {
        if block[i] == 0 {
            return i;
        }
        i = i + 1;
    }
    i
}

/// Writes a container: the marker, the record padded with zeros to 1024
/// bytes, the ciphertext. A record that is longer than the block, or that
/// holds a zero byte and so could not be read back, is refused.
pub fn write_container(record: &[u8], ciphertext: &[u8]) -> (result: Result<
    Vec<u8>,
    EncryptionError,
>)
    requires
        1032 + ciphertext@.len() <= usize::MAX,
    ensures
        match result {
            Ok(bytes) => {
                &&& is_record(record@)
                &&& bytes@ == container_bytes(record@, ciphertext@)
                &&& bytes@.len() == 8 + 1024 + ciphertext@.len()
                &&& parses_to(bytes@, record@, ciphertext@)
            },
            Err(e) => {
                &&& !is_record(record@)
                &&& e.spec_kind() == ErrorKind::SerializationError
            },
        },
{
    if record.len() > METADATA_SIZE {
        return Err(
            EncryptionError::SerializationError(
                String::from_str("Metadata does not fit its block"),
            ),
        );
    }
    let end = find_record_end(record);
    if end < record.len() {
        return Err(
            EncryptionError::SerializationError(String::from_str("Metadata holds a zero byte")),
        );
    }
    let magic = magic_bytes();
    let mut bytes: Vec<u8> = Vec::new();
    append_bytes(&mut bytes, magic.as_slice());
    append_bytes(&mut bytes, record);
    let mut i: usize = record.len();
    while i < METADATA_SIZE
        invariant
            record@.len() <= i <= 1024,
            bytes@ == magic_header() + record@ + Seq::new(
                (i - record@.len()) as nat,
                |k: int| 0u8,
            ),
        decreases 1024 - i,
    {
        bytes.push(0u8);
        i = i + 1;
        assert(bytes@ =~= magic_header() + record@ + Seq::new(
            (i - record@.len()) as nat,
            |k: int| 0u8,
        ));
    }
    assert(bytes@ =~= magic_header() + padded_block(record@));
    append_bytes(&mut bytes, ciphertext);
    proof {
        lemma_container_round_trip(record@, ciphertext@);
    }
    Ok(bytes)
}

/// Reads a container. The marker is looked at before anything else; the
/// record is the metadata block up to its first zero byte; what follows the
/// block is the ciphertext.
pub fn read_container(bytes: &[u8]) -> (result: Result<Container, EncryptionError>)
    ensures
        match result {
            Ok(c) => parses_to(bytes@, c.record@, c.ciphertext@),
            Err(e) => {
                &&& bytes@.len() < 1032 || !has_magic(bytes@)
                &&& e.spec_kind() == ErrorKind::InvalidFileFormat
                &&& e.spec_detail() == (if bytes@.len() < 1032 {
                    "File too small to be encrypted"@
                } else {
                    "Invalid file format"@
                })
            },
        },
{
    if bytes.len() < HEADER_LENGTH {
        return Err(
            EncryptionError::InvalidFileFormat(String::from_str("File too small to be encrypted")),
        );
    }
    if !is_encrypted_file(slice_subrange(bytes, 0, MAGIC_LENGTH)) {
        assert(bytes@.subrange(0, 8).subrange(0, 8) =~= bytes@.subrange(0, 8));
        return Err(EncryptionError::InvalidFileFormat(String::from_str("Invalid file format")));
    }
    assert(bytes@.subrange(0, 8).subrange(0, 8) =~= bytes@.subrange(0, 8));
    let block = slice_subrange(bytes, MAGIC_LENGTH, HEADER_LENGTH);
    let end = find_record_end(block);
    let record = slice_to_vec(slice_subrange(block, 0, end));
    let ciphertext = slice_to_vec(slice_subrange(bytes, HEADER_LENGTH, bytes.len()));
    assert(record@ =~= bytes@.subrange(8, 8 + record@.len() as int));
    Ok(Container { record, ciphertext })
}

} // verus!
