//! Streaming extraction of archive containers (zip and tar-based variants)
//! onto a filesystem, designed for forward-only byte sources such as live
//! downloads.
//!
//! This crate holds the verified core: path sanitization against directory
//! traversal, the zip two-phase extraction and permission protocol, the
//! per-entry tar protocol with its symlink and executable-bit policies,
//! directory-creation memoization, and format dispatch. The surrounding I/O
//! (reading archive streams, writing files) is left to callers, who feed
//! entry metadata in and carry the returned plans out.

pub mod bytes;
pub mod dirset;
pub mod entry;
pub mod error;
pub mod format;
pub mod permissions;
pub mod prompt;
pub mod sanitize;
pub mod tar;
pub mod zip;
