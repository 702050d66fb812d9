//! The streaming zip protocol: a forward pass that plans one filesystem
//! action per entry as the stream arrives, then — only after the entry
//! stream is fully drained — a second pass over the trailing central
//! directory that patches executable permissions, which zip's local headers
//! do not carry. The two phases share only the sanitize function and the
//! caller's target root.

use vstd::prelude::*;

use crate::bytes::clone_bytes;
use crate::dirset::DirectorySet;
use crate::entry::{ArchiveEntry, EntryKind};
use crate::error::ExtractError;
use crate::sanitize::{enclosed_name, parent_name, parent_of, safe_name};

verus! {

/// Copy-buffer size when the declared entry size is unusable.
pub const DEFAULT_BUF_SIZE: usize = 128 * 1024;

/// Largest copy buffer allocated for a declared entry size.
pub const MAX_BUF_SIZE: usize = 1024 * 1024;

/// The copy-buffer capacity for an entry: the declared size clamped to
/// [`MAX_BUF_SIZE`], or [`DEFAULT_BUF_SIZE`] when no usable size is
/// declared.
pub open spec fn spec_buffer_capacity(size: Option<u64>) -> int {
    match size {
        Some(sz) => if (sz as int) <= (usize::MAX as int) {
            if (sz as int) < (MAX_BUF_SIZE as int) {
                sz as int
            } else {
                MAX_BUF_SIZE as int
            }
        } else {
            DEFAULT_BUF_SIZE as int
        },
        None => DEFAULT_BUF_SIZE as int,
    }
}

/// Size the buffered writer for one entry's copy.
pub fn buffer_capacity(size: Option<u64>) -> (cap: usize)
    ensures
        cap as int == spec_buffer_capacity(size),
{
    match size {
        Some(sz) => {
            if sz <= usize::MAX as u64 {
                let s = sz as usize;
                if s < MAX_BUF_SIZE {
                    s
                } else {
                    MAX_BUF_SIZE
                }
            } else {
                DEFAULT_BUF_SIZE
            }
        },
        None => DEFAULT_BUF_SIZE,
    }
}

/// The filesystem action owed for one zip entry during the forward pass.
/// The caller joins each relative path under its target root, performs the
/// action, and advances the stream past the entry either way.
#[derive(Debug)]
pub enum EntryDisposition {
    /// The raw name is unsafe: log a warning and write nothing.
    Skip,
    /// A directory entry: create `path` (and its ancestors) unless
    /// `create` is false, in which case it was already created earlier in
    /// this extraction.
    MakeDir { path: Vec<u8>, create: bool },
    /// A file entry: ensure `parent` exists (unless `create_parent` is
    /// false), then create or truncate `path` and stream-copy the entry's
    /// decompressed bytes through a writer of `buffer_capacity` bytes.
    WriteFile { path: Vec<u8>, parent: Vec<u8>, create_parent: bool, buffer_capacity: usize },
}

/// The forward pass of one zip extraction: consumes entries in stream
/// order, carrying the directory-memoization set. Lives exactly as long as
/// one extraction call.
pub struct ZipForwardPass {
    dirs: DirectorySet,
}

impl ZipForwardPass {
    /// The directory paths already planned for creation in this extraction.
    pub closed spec fn dirs_seen(&self) -> Set<Seq<u8>> {
        self.dirs@
    }

    /// Start an extraction: no directories created yet.
    pub fn new() -> (z: Self)
        ensures
            z.dirs_seen() == Set::<Seq<u8>>::empty(),
    {
        ZipForwardPass { dirs: DirectorySet::new() }
    }

    /// Plan the action for the next entry of the stream. Unsafe names are
    /// skipped without failing the extraction; a directory entry is created
    /// once; a file entry ensures its parent directory once and is then
    /// written through a sized buffer.
    pub fn on_entry(&mut self, entry: &ArchiveEntry) -> (d: EntryDisposition)
        ensures
            !safe_name(entry.name@) ==> {
                &&& d matches EntryDisposition::Skip
                &&& final(self).dirs_seen() == old(self).dirs_seen()
            },
            safe_name(entry.name@) && entry.kind == EntryKind::Directory ==> {
                &&& d matches EntryDisposition::MakeDir { path, create } && path@ == entry.name@
                    && create == !old(self).dirs_seen().contains(entry.name@)
                &&& final(self).dirs_seen() == old(self).dirs_seen().insert(entry.name@)
            },
            safe_name(entry.name@) && entry.kind != EntryKind::Directory ==> {
                &&& d matches EntryDisposition::WriteFile {
                    path,
                    parent,
                    create_parent,
                    buffer_capacity,
                } && path@ == entry.name@ && parent@ == parent_name(entry.name@) && create_parent
                    == !old(self).dirs_seen().contains(parent_name(entry.name@))
                    && buffer_capacity as int == spec_buffer_capacity(entry.size)
                &&& final(self).dirs_seen() == old(self).dirs_seen().insert(
                    parent_name(entry.name@),
                )
            },
    {
        match enclosed_name(&entry.name) {
            None => EntryDisposition::Skip,
            Some(path) => {
                if entry.kind == EntryKind::Directory {
                    let create = self.dirs.insert(clone_bytes(&path));
                    EntryDisposition::MakeDir { path, create }
                } else {
                    let parent = parent_of(&path);
                    let create_parent = self.dirs.insert(clone_bytes(&parent));
                    let buffer_capacity = buffer_capacity(entry.size);
                    EntryDisposition::WriteFile { path, parent, create_parent, buffer_capacity }
                }
            },
        }
    }

    /// The entry stream is exhausted: move to the trailing-metadata pass.
    /// Only now is the central directory reachable, since the stream cannot
    /// seek.
    pub fn finish(self) -> (p: ZipPermissionPass) {
        ZipPermissionPass {  }
    }
}

/// The outcome of verifying one entry's running CRC32 against the archive's
/// declared value.
#[derive(Clone, Copy, Debug, PartialEq, Eq, Structural)]
pub enum CrcStatus {
    /// Computed and declared checksums agree.
    Matched,
    /// They disagree, but the declared value is the zero sentinel used by
    /// archives whose checksum lives in an out-of-line record: treated as
    /// "unknown", not "verified", and downgraded to a warning.
    PresumedMissing,
}

/// Verify the CRC32 computed while copying an entry against the value the
/// archive declared for it. A mismatch against a non-zero declared value is
/// fatal to the whole extraction; a mismatch against zero is downgraded to
/// a warning, since streamed archives with out-of-line data descriptors
/// reliably stub the inline value as zero.
pub fn check_entry_crc(entry: &ArchiveEntry, computed: u32) -> (r: Result<
    CrcStatus,
    ExtractError,
>)
    ensures
        computed == entry.crc32 ==> r matches Ok(CrcStatus::Matched),
        computed != entry.crc32 && entry.crc32 == 0 ==> r matches Ok(CrcStatus::PresumedMissing),
        computed != entry.crc32 && entry.crc32 != 0 ==> {
            &&& r matches Err(e)
            &&& e matches ExtractError::ChecksumMismatch { path, computed: c, expected }
            &&& path@ == entry.name@
            &&& c == computed
            &&& expected == entry.crc32
        },
{
    if computed == entry.crc32 {
        Ok(CrcStatus::Matched)
    } else if entry.crc32 == 0 {
        Ok(CrcStatus::PresumedMissing)
    } else {
        Err(
            ExtractError::ChecksumMismatch {
                path: clone_bytes(&entry.name),
                computed,
                expected: entry.crc32,
            },
        )
    }
}

/// The second phase of one zip extraction: a pass over the trailing central
/// directory, reachable only once the entry stream is fully drained, that
/// patches executable permissions post hoc.
pub struct ZipPermissionPass {}

impl ZipPermissionPass {
    /// Decide from one central-directory record whether the file written
    /// for it needs an executable-bit patch: only non-directory records
    /// carrying permission bits with some execute bit set, under a safe
    /// name, are patched. Returns the relative path of the file to patch;
    /// the patch itself is additive (see
    /// [`crate::permissions::patch_executable_mode`]).
    pub fn on_record(&self, is_dir: bool, unix_mode: Option<u32>, name: &Vec<u8>) -> (r: Option<
        Vec<u8>,
    >)
        ensures
            r is Some <==> (!is_dir && unix_mode is Some && (unix_mode->0 & 0o111) != 0
                && safe_name(name@)),
            r matches Some(p) ==> p@ == name@,
    {
        if is_dir {
            return None;
        }
        match unix_mode {
            None => None,
            Some(m) => {
                if m & 0o111 == 0 {
                    None
                } else {
                    enclosed_name(name)
                }
            },
        }
    }
}

} // verus!
