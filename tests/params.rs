use conez_api::params::{ParamStore, PARAM_COUNT};

#[test]
fn get_after_set_every_slot() {
    let mut s = ParamStore::new();
    for i in 0..16 {
        s.set(i, i * 7 - 3);
        assert_eq!(s.get(i), i * 7 - 3);
    }
}

#[test]
fn new_store_is_zero() {
    let s = ParamStore::new();
    for i in 0..PARAM_COUNT as i32 {
        assert_eq!(s.get(i), 0);
    }
    assert!(!s.should_stop());
}

#[test]
fn out_of_range_reads_zero_and_writes_drop() {
    let mut s = ParamStore::new();
    s.set(16, 9);
    s.set(-1, 9);
    assert_eq!(s.get(16), 0);
    assert_eq!(s.get(-1), 0);
    assert_eq!(s.get(i32::MAX), 0);
    for i in 0..16 {
        assert_eq!(s.get(i), 0);
    }
}

#[test]
fn last_write_wins() {
    let mut s = ParamStore::new();
    s.set(3, 1);
    s.set(3, 2);
    assert_eq!(s.get(3), 2);
}

#[test]
fn stop_flag_follows_last_write() {
    let mut s = ParamStore::new();
    s.set(0, 0);
    s.set(0, 1);
    assert!(s.should_stop());
    s.set(0, 0);
    assert!(!s.should_stop());
    s.set(0, 2);
    assert!(!s.should_stop());
}
