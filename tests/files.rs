use conez_api::files::{FileMode, FileTable};

fn path(s: &str) -> Vec<u8> {
    s.as_bytes().to_vec()
}

#[test]
fn fifth_open_fails_and_leaves_others() {
    let mut t = FileTable::new();
    for i in 0..4 {
        assert_eq!(t.open(&path("/a"), 1), i);
    }
    assert_eq!(t.advance(1, 10), 10);
    assert_eq!(t.seek(2, 3, 8), 0);
    assert_eq!(t.open(&path("/e"), 0), -1);
    assert_eq!(t.tell(0), 0);
    assert_eq!(t.tell(1), 10);
    assert_eq!(t.tell(2), 3);
    assert_eq!(t.tell(3), 0);
    for i in 0..4 {
        assert!(t.is_open(i));
    }
}

#[test]
fn handles_are_reused_lowest_first() {
    let mut t = FileTable::new();
    assert_eq!(t.open(&path("/a"), 0), 0);
    assert_eq!(t.open(&path("/b"), 1), 1);
    assert_eq!(t.open(&path("/c"), 2), 2);
    assert_eq!(t.close(1), 0);
    assert!(!t.is_open(1));
    assert_eq!(t.open(&path("/d"), 2), 1);
    let e = t.entry(1).unwrap();
    assert_eq!(e.path, path("/d"));
    assert_eq!(e.mode, FileMode::Append);
    assert_eq!(e.cursor, 0);
}

#[test]
fn bad_mode_fails() {
    let mut t = FileTable::new();
    assert_eq!(t.open(&path("/a"), 3), -1);
    assert_eq!(t.open(&path("/a"), -1), -1);
    assert!(!t.is_open(0));
    assert_eq!(FileMode::from_code(0), Some(FileMode::Read));
}

#[test]
fn invalid_handles_fail() {
    let mut t = FileTable::new();
    assert_eq!(t.close(0), -1);
    assert_eq!(t.tell(0), -1);
    assert_eq!(t.tell(7), -1);
    assert_eq!(t.seek(-1, 0, 0), -1);
    assert_eq!(t.advance(4, 1), -1);
    assert!(t.entry(0).is_none());
    assert_eq!(t.open(&path("/a"), 0), 0);
    assert_eq!(t.close(0), 0);
    assert_eq!(t.close(0), -1);
}

#[test]
fn seek_bounds() {
    let mut t = FileTable::new();
    assert_eq!(t.open(&path("/a"), 0), 0);
    assert_eq!(t.seek(0, 9, 8), -1);
    assert_eq!(t.seek(0, -1, 8), -1);
    assert_eq!(t.tell(0), 0);
    assert_eq!(t.seek(0, 8, 8), 0);
    assert_eq!(t.tell(0), 8);
}

#[test]
fn advance_bounds() {
    let mut t = FileTable::new();
    assert_eq!(t.open(&path("/a"), 1), 0);
    assert_eq!(t.advance(0, -1), -1);
    assert_eq!(t.advance(0, i32::MAX), i32::MAX);
    assert_eq!(t.advance(0, 1), -1);
    assert_eq!(t.tell(0), i32::MAX);
}

#[test]
fn open_checks_guest_span() {
    let mut t = FileTable::new();
    let mem = b"xx/log.txtyy".to_vec();
    assert_eq!(t.open_from_guest(&mem, 8, 5, 0), -1);
    assert_eq!(t.open_from_guest(&mem, -1, 2, 0), -1);
    assert!(!t.is_open(0));
    assert_eq!(t.open_from_guest(&mem, 2, 8, 0), 0);
    assert_eq!(t.entry(0).unwrap().path, path("/log.txt"));
}
