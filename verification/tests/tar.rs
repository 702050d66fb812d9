use uv_extract::entry::{ArchiveEntry, EntryKind};
use uv_extract::permissions::{has_executable_bit, patch_executable_mode};
use uv_extract::tar::{TarDisposition, TarExtractor};

fn v(s: &[u8]) -> Vec<u8> {
    s.to_vec()
}

fn tar_entry(name: &[u8], kind: EntryKind, mode: u32) -> ArchiveEntry {
    ArchiveEntry { name: v(name), kind, size: None, mode: Some(mode), crc32: 0 }
}

#[test]
fn symlink_without_platform_support_is_one_warning() {
    // a single symlink entry on a platform without symlink support: the
    // extraction completes, writes nothing for the entry, and warns once
    let mut tar = TarExtractor::new(false);
    match tar.on_entry(&tar_entry(b"link", EntryKind::Symlink, 0o777)) {
        TarDisposition::SkipSymlink { path } => assert_eq!(path, v(b"link")),
        other => panic!("expected SkipSymlink, got {:?}", other),
    }
    // the stream continues normally after the skip
    assert!(matches!(
        tar.on_entry(&tar_entry(b"file", EntryKind::File, 0o644)),
        TarDisposition::WriteFile { .. }
    ));
}

#[test]
fn symlink_with_platform_support_is_written() {
    let mut tar = TarExtractor::new(true);
    match tar.on_entry(&tar_entry(b"pkg/link", EntryKind::Symlink, 0o777)) {
        TarDisposition::WriteSymlink { path, parent, create_parent } => {
            assert_eq!(path, v(b"pkg/link"));
            assert_eq!(parent, v(b"pkg"));
            assert!(create_parent);
        }
        other => panic!("expected WriteSymlink, got {:?}", other),
    }
}

#[test]
fn executable_bit_is_propagated_from_declared_mode() {
    let mut tar = TarExtractor::new(true);
    assert!(matches!(
        tar.on_entry(&tar_entry(b"bin/tool", EntryKind::File, 0o755)),
        TarDisposition::WriteFile { set_executable: true, .. }
    ));
    assert!(matches!(
        tar.on_entry(&tar_entry(b"bin/data", EntryKind::File, 0o644)),
        TarDisposition::WriteFile { set_executable: false, .. }
    ));
    assert!(matches!(
        tar.on_entry(&tar_entry(b"bin/hard", EntryKind::HardLink, 0o711)),
        TarDisposition::WriteFile { set_executable: true, .. }
    ));
}

#[test]
fn unsafe_tar_name_is_skipped() {
    let mut tar = TarExtractor::new(true);
    assert!(matches!(
        tar.on_entry(&tar_entry(b"../../etc/passwd", EntryKind::File, 0o644)),
        TarDisposition::SkipUnsafe
    ));
}

#[test]
fn tar_directories_are_memoized() {
    let mut tar = TarExtractor::new(true);
    assert!(matches!(
        tar.on_entry(&tar_entry(b"pkg", EntryKind::Directory, 0o755)),
        TarDisposition::MakeDir { create: true, .. }
    ));
    assert!(matches!(
        tar.on_entry(&tar_entry(b"pkg", EntryKind::Directory, 0o755)),
        TarDisposition::MakeDir { create: false, .. }
    ));
    // a file under the directory created above needs no further creation
    assert!(matches!(
        tar.on_entry(&tar_entry(b"pkg/a", EntryKind::File, 0o644)),
        TarDisposition::WriteFile { create_parent: false, .. }
    ));
    // a file under a directory not seen yet ensures it, exactly once
    assert!(matches!(
        tar.on_entry(&tar_entry(b"lib/b", EntryKind::File, 0o644)),
        TarDisposition::WriteFile { create_parent: true, .. }
    ));
    assert!(matches!(
        tar.on_entry(&tar_entry(b"lib/c", EntryKind::File, 0o644)),
        TarDisposition::WriteFile { create_parent: false, .. }
    ));
}

#[test]
fn executable_patch_is_additive_only() {
    assert!(has_executable_bit(0o100));
    assert!(!has_executable_bit(0o644));
    assert_eq!(patch_executable_mode(0o644), Some(0o755));
    assert_eq!(patch_executable_mode(0o600), Some(0o711));
    // already fully executable: nothing to do
    assert_eq!(patch_executable_mode(0o755), None);
    // no permission bit is ever removed
    let patched = patch_executable_mode(0o640).unwrap();
    assert_eq!(patched & 0o640, 0o640);
    assert_eq!(patched, 0o751);
}
