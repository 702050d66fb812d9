use uv_extract::dirset::DirectorySet;

fn v(s: &[u8]) -> Vec<u8> {
    s.to_vec()
}

#[test]
fn insert_reports_freshness() {
    let mut dirs = DirectorySet::new();
    assert!(dirs.insert(v(b"pkg")));
    assert!(!dirs.insert(v(b"pkg")));
    assert!(dirs.contains(&v(b"pkg")));
    assert!(!dirs.contains(&v(b"other")));
    assert!(dirs.insert(v(b"pkg/sub")));
    assert!(!dirs.insert(v(b"pkg/sub")));
}

#[test]
fn creation_work_is_proportional_to_distinct_dirs() {
    // six entries sharing two distinct ancestor directories: exactly two
    // creations are performed, however the entries are ordered
    let ancestors = [
        v(b"pkg"),
        v(b"pkg"),
        v(b"pkg/sub"),
        v(b"pkg"),
        v(b"pkg/sub"),
        v(b"pkg/sub"),
    ];
    let mut dirs = DirectorySet::new();
    let mut creations = 0;
    for a in ancestors {
        if dirs.insert(a) {
            creations += 1;
        }
    }
    assert_eq!(creations, 2);
}
