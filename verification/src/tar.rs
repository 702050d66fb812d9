//! The streaming tar protocol, shared by every decompression variant:
//! entries are planned one by one in stream order, with the same traversal
//! guard as the zip pass, per-ancestor directory memoization, a per-call
//! symlink-capability flag, and immediate executable-bit propagation —
//! tar headers carry the mode inline, so no second pass is needed.
//!
//! Fixed for every tar extraction: stored modification times and stored
//! ownership or full permission bits are not honored (only the executable
//! bit is propagated), and entries may not escape the target through an
//! external symlink.

use vstd::prelude::*;

use crate::bytes::clone_bytes;
use crate::dirset::DirectorySet;
use crate::entry::{ArchiveEntry, EntryKind};
use crate::sanitize::{enclosed_name, parent_name, parent_of, safe_name};

verus! {

/// The filesystem action owed for one tar entry. The caller joins each
/// relative path under its canonicalized target root and performs the
/// action.
#[derive(Debug)]
pub enum TarDisposition {
    /// A symlink entry on a platform that cannot materialize symlinks:
    /// log a warning naming the raw path and write nothing, rather than
    /// failing the whole extraction.
    SkipSymlink { path: Vec<u8> },
    /// The raw name is unsafe: log a warning and write nothing.
    SkipUnsafe,
    /// A directory entry: create `path` (and its ancestors) unless
    /// `create` is false, in which case it was already created earlier in
    /// this extraction.
    MakeDir { path: Vec<u8>, create: bool },
    /// A symlink entry on a capable platform: ensure `parent` exists
    /// (unless `create_parent` is false), then create the link at `path`.
    WriteSymlink { path: Vec<u8>, parent: Vec<u8>, create_parent: bool },
    /// A regular file or hard link: ensure `parent` exists (unless
    /// `create_parent` is false), write the entry at `path`, and, when
    /// `set_executable`, immediately OR the full execute mask into the
    /// written file's permissions (see
    /// [`crate::permissions::patch_executable_mode`]).
    WriteFile { path: Vec<u8>, parent: Vec<u8>, create_parent: bool, set_executable: bool },
}

/// One tar extraction: consumes entries in stream order, carrying the
/// directory-memoization set and the platform's symlink capability,
/// resolved once per extraction. Lives exactly as long as one call.
pub struct TarExtractor {
    dirs: DirectorySet,
    symlink_capable: bool,
}

impl TarExtractor {
    /// The directory paths already planned for creation in this extraction.
    pub closed spec fn dirs_seen(&self) -> Set<Seq<u8>> {
        self.dirs@
    }

    /// Whether this extraction's platform can materialize symlinks.
    pub closed spec fn symlink_support(&self) -> bool {
        self.symlink_capable
    }

    /// Start an extraction. The caller resolves the platform's symlink
    /// capability once and canonicalizes the target before any write.
    pub fn new(symlink_capable: bool) -> (t: Self)
        ensures
            t.dirs_seen() == Set::<Seq<u8>>::empty(),
            t.symlink_support() == symlink_capable,
    {
        TarExtractor { dirs: DirectorySet::new(), symlink_capable }
    }

    /// Plan the action for the next entry of the stream: skip symlinks on
    /// incapable platforms, skip unsafe names, create each distinct
    /// directory once, and propagate the executable bit from the declared
    /// mode of files and hard links.
    pub fn on_entry(&mut self, entry: &ArchiveEntry) -> (d: TarDisposition)
        ensures
            final(self).symlink_support() == old(self).symlink_support(),
            entry.kind == EntryKind::Symlink && !old(self).symlink_support() ==> {
                &&& d matches TarDisposition::SkipSymlink { path } && path@ == entry.name@
                &&& final(self).dirs_seen() == old(self).dirs_seen()
            },
            !(entry.kind == EntryKind::Symlink && !old(self).symlink_support()) && !safe_name(
                entry.name@,
            ) ==> {
                &&& d matches TarDisposition::SkipUnsafe
                &&& final(self).dirs_seen() == old(self).dirs_seen()
            },
            safe_name(entry.name@) && entry.kind == EntryKind::Directory ==> {
                &&& d matches TarDisposition::MakeDir { path, create } && path@ == entry.name@
                    && create == !old(self).dirs_seen().contains(entry.name@)
                &&& final(self).dirs_seen() == old(self).dirs_seen().insert(entry.name@)
            },
            safe_name(entry.name@) && entry.kind == EntryKind::Symlink && old(
                self,
            ).symlink_support() ==> {
                &&& d matches TarDisposition::WriteSymlink { path, parent, create_parent }
                    && path@ == entry.name@ && parent@ == parent_name(entry.name@) && create_parent
                    == !old(self).dirs_seen().contains(parent_name(entry.name@))
                &&& final(self).dirs_seen() == old(self).dirs_seen().insert(
                    parent_name(entry.name@),
                )
            },
            safe_name(entry.name@) && (entry.kind == EntryKind::File || entry.kind
                == EntryKind::HardLink) ==> {
                &&& d matches TarDisposition::WriteFile {
                    path,
                    parent,
                    create_parent,
                    set_executable,
                } && path@ == entry.name@ && parent@ == parent_name(entry.name@) && create_parent
                    == !old(self).dirs_seen().contains(parent_name(entry.name@)) && set_executable
                    == (entry.mode is Some && (entry.mode->0 & 0o111) != 0)
                &&& final(self).dirs_seen() == old(self).dirs_seen().insert(
                    parent_name(entry.name@),
                )
            },
    {
        if entry.kind == EntryKind::Symlink && !self.symlink_capable {
            return TarDisposition::SkipSymlink { path: clone_bytes(&entry.name) };
        }
        match enclosed_name(&entry.name) {
            None => TarDisposition::SkipUnsafe,
            Some(path) => {
                if entry.kind == EntryKind::Directory {
                    let create = self.dirs.insert(clone_bytes(&path));
                    TarDisposition::MakeDir { path, create }
                } else {
                    let parent = parent_of(&path);
                    let create_parent = self.dirs.insert(clone_bytes(&parent));
                    if entry.kind == EntryKind::Symlink {
                        TarDisposition::WriteSymlink { path, parent, create_parent }
                    } else {
                        let set_executable = match entry.mode {
                            Some(m) => m & 0o111 != 0,
                            None => false,
                        };
                        TarDisposition::WriteFile { path, parent, create_parent, set_executable }
                    }
                }
            },
        }
    }
}

} // verus!
