//! The error taxonomy of an extraction. Anomalies that threaten data
//! integrity or the ability to keep parsing are fatal and abort the whole
//! operation; per-entry anomalies that can be dropped safely (an unsafe name,
//! an unsupported symlink) are not errors but skip dispositions, reported by
//! the per-entry planners.

use vstd::prelude::*;

verus! {

/// A fatal extraction failure. There is no partial-success value: an
/// extraction either completes (modulo individually skipped entries) or
/// surfaces one of these.
#[derive(Debug)]
pub enum ExtractError {
    /// A zip entry's payload hashed to a different CRC32 than the archive
    /// declared (and the declared value was not the zero "unknown" sentinel).
    /// Carries the entry path and both checksums for diagnosis.
    ChecksumMismatch { path: Vec<u8>, computed: u32, expected: u32 },
    /// A directory creation, file creation, or copy failed.
    Io,
    /// A corrupt header, unreadable trailing metadata, or a decompression
    /// failure.
    MalformedArchive,
}

} // verus!
