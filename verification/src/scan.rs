//! Classifying what a directory walk finds: which entries are encrypted
//! containers, and what progress is reported on the way.

use vstd::prelude::*;
use vstd::string::*;
use crate::container::has_magic;
use crate::container::is_encrypted_file;
use crate::text::text_equal;
use crate::types::FileInfo;
use crate::types::ScanProgress;
use crate::types::Timestamp;

verus! {

pub const PROGRESS_INTERVAL: u64 = 10;

/// What kind of thing an entry is.
#[derive(Clone, Copy, Debug, PartialEq, Eq, Structural)]
pub enum EntryKind {
    Directory,
    File,
    Other,
}

/// One entry of a directory walk, as the walker saw it: `header` holds the
/// file's first bytes, eight of them where the file has as many and could
/// be read; `size` is absent where the file's attributes could not be read.
#[derive(Clone, Debug)]
pub struct ScanEntry {
    pub kind: EntryKind,
    pub path: String,
    pub name: String,
    pub directory: String,
    pub extension: Option<String>,
    pub header: Vec<u8>,
    pub size: Option<u64>,
    pub modified: Timestamp,
}

impl ScanEntry {
    /// An entry is flagged as an encrypted container where it is a file
    /// with the extension `enc` whose first eight bytes are the marker and
    /// whose attributes could be read.
    pub open spec fn is_flagged(&self) -> bool {
        &&& self.kind == EntryKind::File
        &&& (self.extension matches Some(x) && x@ == "enc"@)
        &&& has_magic(self.header@)
        &&& self.size is Some
    }

    /// Whether two entries say the same of a file.
    pub open spec fn same_as(&self, other: &ScanEntry) -> bool {
        &&& self.kind == other.kind
        &&& self.path@ == other.path@
        &&& self.name@ == other.name@
        &&& self.directory@ == other.directory@
        &&& self.extension is Some == other.extension is Some
        &&& self.extension is Some ==> self.extension->Some_0@ == other.extension->Some_0@
        &&& self.header@ == other.header@
        &&& self.size == other.size
        &&& self.modified == other.modified
    }

    pub fn flagged(&self) -> (flagged: bool)
        ensures
            flagged == self.is_flagged(),
    {
        match self.kind {
            EntryKind::File => {},
            _ => {
                return false;
            },
        }
        let has_extension = match &self.extension {
            Some(x) => text_equal(x.as_str(), "enc"),
            None => false,
        };
        has_extension && is_encrypted_file(self.header.as_slice()) && self.size.is_some()
    }
}

/// Whether a record describes a flagged entry.
pub open spec fn describes(info: FileInfo, entry: ScanEntry) -> bool {
    &&& info.name@ == entry.name@
    &&& info.path@ == entry.path@
    &&& entry.size == Some(info.size)
    &&& info.modified == entry.modified
    &&& info.directory@ == entry.directory@
    &&& info.is_encrypted
    &&& (info.encryption_version matches Some(v) && v@ == "2.0.0"@)
}

/// The paths of the flagged entries among the first `n`, in their order.
pub open spec fn flagged_paths(entries: Seq<ScanEntry>, n: int) -> Seq<Seq<char>>
    decreases n,
{
    if n <= 0 {
        Seq::empty()
    } else if entries[n - 1].is_flagged() {
        flagged_paths(entries, n - 1).push(entries[n - 1].path@)
    } else {
        flagged_paths(entries, n - 1)
    }
}

/// The flagged entries among the first `n`, in their order.
pub open spec fn flagged_entries(entries: Seq<ScanEntry>, n: int) -> Seq<ScanEntry>
    decreases n,
{
    if n <= 0 {
        Seq::empty()
    } else if entries[n - 1].is_flagged() {
        flagged_entries(entries, n - 1).push(entries[n - 1])
    } else {
        flagged_entries(entries, n - 1)
    }
}

/// Whether the records describe the entries, one for one.
pub open spec fn describe_all(files: Seq<FileInfo>, entries: Seq<ScanEntry>) -> bool {
    &&& files.len() == entries.len()
    &&& forall|k: int| 0 <= k < files.len() ==> describes(#[trigger] files[k], entries[k])
}

/// The number of directories among the first `n` entries.
pub open spec fn directories(entries: Seq<ScanEntry>, n: int) -> int
    decreases n,
{
    if n <= 0 {
        0
    } else {
        directories(entries, n - 1) + (if entries[n - 1].kind == EntryKind::Directory {
            1int
        } else {
            0int
        })
    }
}

/// The paths of the files found, in their order.
pub open spec fn paths_of(files: Seq<FileInfo>) -> Seq<Seq<char>> {
    Seq::new(files.len(), |i: int| files[i].path@)
}

/// Two walks that saw the same entries flag the same files: classifying an
/// unchanged tree again changes nothing.
pub proof fn lemma_scan_repeatable(first: Seq<ScanEntry>, second: Seq<ScanEntry>, n: int)
    requires
        0 <= n <= first.len(),
        first.len() == second.len(),
        forall|i: int| 0 <= i < first.len() ==> (#[trigger] first[i]).same_as(&second[i]),
    ensures
        flagged_paths(first, n) == flagged_paths(second, n),
        directories(first, n) == directories(second, n),
    decreases n,
{
    if n > 0 {
        lemma_scan_repeatable(first, second, n - 1);
        assert(first[n - 1].same_as(&second[n - 1]));
    }
}

/// The state of a scan.
pub struct Scanner {
    pub directories_processed: u64,
    pub files_found: u64,
    pub encrypted_files: Vec<FileInfo>,
}

impl Scanner {
    /// The count of files is the number of files kept.
    pub open spec fn well_formed(&self) -> bool {
        self.files_found == self.encrypted_files@.len()
    }

    pub fn new() -> (scanner: Self)
        ensures
            scanner.well_formed(),
            scanner.directories_processed == 0,
            scanner.files_found == 0,
            scanner.encrypted_files@.len() == 0,
    {
        Scanner { directories_processed: 0, files_found: 0, encrypted_files: Vec::new() }
    }

    /// Takes one entry in. A directory is counted, and every tenth one is
    /// reported. A flagged file is kept with what the walker saw of it.
    /// Anything else changes nothing.
    pub fn observe(&mut self, entry: &ScanEntry) -> (progress: Option<ScanProgress>)
        requires
            old(self).well_formed(),
            old(self).directories_processed < u64::MAX,
        ensures
            final(self).well_formed(),
            final(self).directories_processed == old(self).directories_processed + (if entry.kind
                == EntryKind::Directory {
                1int
            } else {
                0int
            }),
            if entry.is_flagged() {
                &&& final(self).encrypted_files@.len() == old(self).encrypted_files@.len() + 1
                &&& final(self).encrypted_files@.subrange(
                    0,
                    old(self).encrypted_files@.len() as int,
                ) == old(self).encrypted_files@
                &&& describes(
                    final(self).encrypted_files@[old(self).encrypted_files@.len() as int],
                    *entry,
                )
            } else {
                final(self).encrypted_files@ == old(self).encrypted_files@
            },
            match progress {
                Some(p) => {
                    &&& entry.kind == EntryKind::Directory
                    &&& final(self).directories_processed % PROGRESS_INTERVAL == 0
                    &&& p.directories_processed == final(self).directories_processed
                    &&& p.files_found == final(self).files_found
                    &&& p.current_path@ == entry.path@
                    &&& !p.is_complete
                },
                None => entry.kind != EntryKind::Directory || final(self).directories_processed
                    % PROGRESS_INTERVAL != 0,
            },
    {
        match entry.kind {
            EntryKind::Directory => {
                self.directories_processed = self.directories_processed + 1;
                if self.directories_processed % PROGRESS_INTERVAL == 0 {
                    return Some(
                        ScanProgress {
                            directories_processed: self.directories_processed,
                            files_found: self.files_found,
                            current_path: entry.path.clone(),
                            is_complete: false,
                        },
                    );
                }
            },
            _ => {
                if entry.flagged() {
                    let size: u64 = match entry.size {
                        Some(size) => size,
                        None => 0,
                    };
                    let info = FileInfo {
                        name: entry.name.clone(),
                        path: entry.path.clone(),
                        size,
                        modified: entry.modified,
                        directory: entry.directory.clone(),
                        is_encrypted: true,
                        encryption_version: Some(String::from_str("2.0.0")),
                    };
                    let ghost before = self.encrypted_files@;
                    self.encrypted_files.push(info);
                    let kept: usize = self.encrypted_files.len();
                    assert(self.files_found + 1 == kept);
                    self.files_found = self.files_found + 1;
                    assert(self.encrypted_files@.subrange(0, before.len() as int) =~= before);
                }
            },
        }
        None
    }

    /// Ends the scan: the files found, and the closing report.
    pub fn finish(self) -> (end: (Vec<FileInfo>, ScanProgress))
        requires
            self.well_formed(),
        ensures
            end.0@ == self.encrypted_files@,
            end.1.directories_processed == self.directories_processed,
            end.1.files_found == self.files_found,
            end.1.current_path@ == "Scan complete"@,
            end.1.is_complete,
    {
        let closing = ScanProgress {
            directories_processed: self.directories_processed,
            files_found: self.files_found,
            current_path: String::from_str("Scan complete"),
            is_complete: true,
        };
        (self.encrypted_files, closing)
    }
}

/// Classifies the entries of a whole walk. The files that come back are the
/// flagged entries, in the walk's order, and the closing report counts the
/// directories and the files.
pub fn scan_directory(entries: &Vec<ScanEntry>) -> (end: (Vec<FileInfo>, ScanProgress))
    ensures
        paths_of(end.0@) == flagged_paths(entries@, entries@.len() as int),
        describe_all(end.0@, flagged_entries(entries@, entries@.len() as int)),
        end.1.current_path@ == "Scan complete"@,
        end.1.directories_processed == directories(entries@, entries@.len() as int),
        end.1.files_found == end.0@.len(),
        end.1.is_complete,
{
    let mut scanner = Scanner::new();
    let mut i: usize = 0;
    while i < entries.len()
        invariant
            i <= entries@.len(),
            scanner.well_formed(),
            scanner.directories_processed == directories(entries@, i as int),
            scanner.directories_processed <= i,
            paths_of(scanner.encrypted_files@) == flagged_paths(entries@, i as int),
            describe_all(scanner.encrypted_files@, flagged_entries(entries@, i as int)),
        decreases entries@.len() - i,
    {
        let ghost before = scanner.encrypted_files@;
        let _ = scanner.observe(&entries[i]);
        proof {
            let after = scanner.encrypted_files@;
            if entries@[i as int].is_flagged() {
                assert(after.subrange(0, before.len() as int) == before);
                assert forall|k: int| 0 <= k < before.len() implies after[k] == before[k] by {
                    assert(after.subrange(0, before.len() as int)[k] == after[k]);
                }
                assert(paths_of(after) =~= paths_of(before).push(entries@[i as int].path@));
            }
        }
        i = i + 1;
    }
    scanner.finish()
}

} // verus!
