use uv_extract::sanitize::{enclosed_name, parent_of, resolve};

fn v(s: &[u8]) -> Vec<u8> {
    s.to_vec()
}

#[test]
fn rejects_traversal_outside_root() {
    assert!(enclosed_name(&v(b"../../etc/passwd")).is_none());
    assert!(resolve(&v(b"../../etc/passwd")).is_none());
}

#[test]
fn accepts_descend_then_ascend() {
    let name = v(b"a/../b");
    assert_eq!(enclosed_name(&name), Some(v(b"a/../b")));
    let stack = resolve(&name).unwrap();
    assert_eq!(stack, vec![v(b"b")]);
}

#[test]
fn rejects_nul_byte() {
    assert!(enclosed_name(&v(b"a\0b")).is_none());
}

#[test]
fn rejects_absolute_path() {
    assert!(enclosed_name(&v(b"/etc/passwd")).is_none());
    assert!(enclosed_name(&v(b"\\evil")).is_none());
}

#[test]
fn rejects_drive_style_start() {
    assert!(enclosed_name(&v(b"C:\\evil")).is_none());
    assert!(enclosed_name(&v(b"C:/evil")).is_none());
}

#[test]
fn accepts_nested_name() {
    let name = v(b"pkg/sub/file.txt");
    assert_eq!(enclosed_name(&name), Some(name.clone()));
    let stack = resolve(&name).unwrap();
    assert_eq!(stack, vec![v(b"pkg"), v(b"sub"), v(b"file.txt")]);
}

#[test]
fn current_dir_components_are_dropped() {
    let name = v(b"./a/./b");
    assert!(enclosed_name(&name).is_some());
    assert_eq!(resolve(&name).unwrap(), vec![v(b"a"), v(b"b")]);
}

#[test]
fn rejects_net_negative_interior() {
    assert!(enclosed_name(&v(b"a/../../b")).is_none());
}

#[test]
fn deep_descend_then_full_ascend_is_accepted() {
    let name = v(b"a/b/../../c");
    assert!(enclosed_name(&name).is_some());
    assert_eq!(resolve(&name).unwrap(), vec![v(b"c")]);
}

#[test]
fn empty_name_is_safe_and_empty() {
    assert_eq!(enclosed_name(&v(b"")), Some(v(b"")));
    assert_eq!(resolve(&v(b"")).unwrap(), Vec::<Vec<u8>>::new());
}

#[test]
fn parent_of_nested_name() {
    assert_eq!(parent_of(&v(b"a/b/c")), v(b"a/b"));
}

#[test]
fn parent_of_single_component_is_root() {
    assert_eq!(parent_of(&v(b"file.txt")), v(b""));
}
