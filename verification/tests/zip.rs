use uv_extract::entry::{ArchiveEntry, EntryKind};
use uv_extract::error::ExtractError;
use uv_extract::permissions::patch_executable_mode;
use uv_extract::zip::{
    buffer_capacity, check_entry_crc, CrcStatus, EntryDisposition, ZipForwardPass,
};

fn v(s: &[u8]) -> Vec<u8> {
    s.to_vec()
}

fn zip_entry(name: &[u8], kind: EntryKind, size: u64, crc32: u32) -> ArchiveEntry {
    ArchiveEntry { name: v(name), kind, size: Some(size), mode: None, crc32 }
}

#[test]
fn scenario_directory_file_and_hostile_entry() {
    // a directory, a file of two bytes with a correct checksum, and a
    // hostile name climbing out of the root
    let mut pass = ZipForwardPass::new();

    match pass.on_entry(&zip_entry(b"dir/", EntryKind::Directory, 0, 0)) {
        EntryDisposition::MakeDir { path, create } => {
            assert_eq!(path, v(b"dir/"));
            assert!(create);
        }
        other => panic!("expected MakeDir, got {:?}", other),
    }

    let payload = b"hi";
    let declared = crc32fast::hash(payload);
    let file = zip_entry(b"dir/file.txt", EntryKind::File, 2, declared);
    match pass.on_entry(&file) {
        EntryDisposition::WriteFile { path, parent, create_parent, buffer_capacity } => {
            assert_eq!(path, v(b"dir/file.txt"));
            assert_eq!(parent, v(b"dir"));
            assert!(create_parent);
            assert_eq!(buffer_capacity, 2);
        }
        other => panic!("expected WriteFile, got {:?}", other),
    }
    assert_eq!(
        check_entry_crc(&file, crc32fast::hash(payload)).unwrap(),
        CrcStatus::Matched
    );

    match pass.on_entry(&zip_entry(b"../evil", EntryKind::File, 4, 0)) {
        EntryDisposition::Skip => {}
        other => panic!("expected Skip, got {:?}", other),
    }

    // the trailing central directory patches the executable bit of the file
    let patch = pass.finish();
    let target = patch.on_record(false, Some(0o755), &v(b"dir/file.txt"));
    assert_eq!(target, Some(v(b"dir/file.txt")));
    assert_eq!(patch_executable_mode(0o644), Some(0o755));
    // the hostile record is ignored in the permission pass as well
    assert_eq!(patch.on_record(false, Some(0o755), &v(b"../evil")), None);
    // directories and permission-less records are ignored
    assert_eq!(patch.on_record(true, Some(0o755), &v(b"dir/")), None);
    assert_eq!(patch.on_record(false, None, &v(b"dir/file.txt")), None);
    // a record without execute bits needs no patch
    assert_eq!(patch.on_record(false, Some(0o644), &v(b"dir/file.txt")), None);
}

#[test]
fn corrupted_payload_with_nonzero_crc_is_fatal() {
    let payload = b"hello world";
    let declared = crc32fast::hash(payload);
    let entry = zip_entry(b"a.txt", EntryKind::File, 11, declared);
    let corrupted = crc32fast::hash(b"hello w0rld");
    assert_ne!(corrupted, declared);
    match check_entry_crc(&entry, corrupted) {
        Err(ExtractError::ChecksumMismatch { path, computed, expected }) => {
            assert_eq!(path, v(b"a.txt"));
            assert_eq!(computed, corrupted);
            assert_eq!(expected, declared);
        }
        other => panic!("expected ChecksumMismatch, got {:?}", other),
    }
}

#[test]
fn corrupted_payload_with_zero_crc_is_one_warning() {
    let entry = zip_entry(b"a.txt", EntryKind::File, 11, 0);
    let computed = crc32fast::hash(b"hello w0rld");
    assert_eq!(check_entry_crc(&entry, computed).unwrap(), CrcStatus::PresumedMissing);
}

#[test]
fn matching_crc_verifies() {
    let entry = zip_entry(b"a.txt", EntryKind::File, 5, crc32fast::hash(b"abcde"));
    assert_eq!(
        check_entry_crc(&entry, crc32fast::hash(b"abcde")).unwrap(),
        CrcStatus::Matched
    );
}

#[test]
fn buffer_capacity_clamps_declared_size() {
    assert_eq!(buffer_capacity(Some(2)), 2);
    assert_eq!(buffer_capacity(Some(4096)), 4096);
    assert_eq!(buffer_capacity(Some(2 * 1024 * 1024)), 1024 * 1024);
    assert_eq!(buffer_capacity(Some(u64::MAX)), 1024 * 1024);
    assert_eq!(buffer_capacity(None), 128 * 1024);
}

#[test]
fn duplicate_parents_create_once() {
    let mut pass = ZipForwardPass::new();
    let first = pass.on_entry(&zip_entry(b"pkg/a.py", EntryKind::File, 1, 0));
    let second = pass.on_entry(&zip_entry(b"pkg/b.py", EntryKind::File, 1, 0));
    assert!(matches!(
        first,
        EntryDisposition::WriteFile { create_parent: true, .. }
    ));
    assert!(matches!(
        second,
        EntryDisposition::WriteFile { create_parent: false, .. }
    ));
}
