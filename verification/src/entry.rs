//! The logical unit read from an archive stream: one entry's metadata, as
//! the extractors consume it. Entries are transient, produced and discarded
//! per stream item.

use vstd::prelude::*;

verus! {

/// The kind of an archive entry. Zip streams produce files and directories;
/// tar streams produce all four kinds.
#[derive(Clone, Copy, Debug, PartialEq, Eq, Structural)]
pub enum EntryKind {
    File,
    Directory,
    Symlink,
    HardLink,
}

/// One entry's metadata, decoded from the archive's framing by the caller
/// that drives the stream.
pub struct ArchiveEntry {
    /// The raw entry name, exactly as the archive declares it; not yet
    /// sanitized.
    pub name: Vec<u8>,
    /// What the entry is.
    pub kind: EntryKind,
    /// The declared uncompressed size, when the framing carries one. It may
    /// be absent or untrustworthy while streaming, and is used only to size
    /// the copy buffer.
    pub size: Option<u64>,
    /// The declared platform permission bits, when the framing carries them
    /// inline (tar does; zip's local header does not).
    pub mode: Option<u32>,
    /// The declared CRC32 of the contents. Meaningful for zip entries only,
    /// where zero is the "unknown" sentinel reported by archives whose real
    /// checksum lives in an out-of-line record; other callers leave it zero.
    pub crc32: u32,
}

} // verus!
