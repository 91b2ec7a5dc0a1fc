use conez_api::lut::{LutStore, LUT_LEN};

#[test]
fn saved_value_survives_restart() {
    let mut s = LutStore::new();
    assert_eq!(s.load(3), 0);
    s.set(0, 42);
    assert_eq!(s.save(3), 0);
    s.restart();
    assert_eq!(s.get(0), 0);
    assert_eq!(s.load(3), 0);
    assert_eq!(s.get(0), 42);
}

#[test]
fn unsaved_edits_are_lost() {
    let mut s = LutStore::new();
    assert_eq!(s.load(1), 0);
    s.set(5, 7);
    assert_eq!(s.save(1), 0);
    s.set(5, 8);
    assert_eq!(s.get(5), 8);
    s.restart();
    assert_eq!(s.load(1), 0);
    assert_eq!(s.get(5), 7);
}

#[test]
fn unloaded_and_out_of_range() {
    let mut s = LutStore::new();
    assert_eq!(s.get(0), 0);
    assert_eq!(s.size(), 0);
    s.set(0, 1);
    assert_eq!(s.save(0), -1);
    assert_eq!(s.load(-1), -1);
    assert_eq!(s.load(16), -1);
    assert_eq!(s.load(0), 0);
    assert_eq!(s.size(), LUT_LEN as i32);
    assert_eq!(s.get(LUT_LEN as i32), 0);
    assert_eq!(s.get(-1), 0);
    assert_eq!(s.save(16), -1);
}

#[test]
fn check_reports_durable_copies() {
    let mut s = LutStore::new();
    assert_eq!(s.check(2), -1);
    assert_eq!(s.load(2), 0);
    assert_eq!(s.check(2), -1);
    assert_eq!(s.save(2), 0);
    assert_eq!(s.check(2), 0);
    assert_eq!(s.check(99), -1);
}

#[test]
fn restore_from_storage() {
    let mut s = LutStore::new();
    assert_eq!(s.restore(4, vec![1, 2, 3]), -1);
    let mut t = vec![0; LUT_LEN];
    t[9] = -12;
    assert_eq!(s.restore(4, t), 0);
    assert_eq!(s.check(4), 0);
    assert_eq!(s.load(4), 0);
    assert_eq!(s.get(9), -12);
}
