use conez_api::params::ParamStore;
use conez_api::waits::{waiters_to_wake, ParamWaiter};
use conez_api::waits::{
    edge_wait_step, param_wait_step, WaitCondition, WaitStep, WAIT_EQ, WAIT_GT, WAIT_LT, WAIT_NEQ,
};

#[test]
fn equal_wait_met_before_timeout() {
    let mut s = ParamStore::new();
    assert_eq!(param_wait_step(WAIT_EQ, 5, 1000, 0, s.get(4)), WaitStep::Pending);
    s.set(4, 5);
    assert_eq!(param_wait_step(WAIT_EQ, 5, 1000, 300, s.get(4)), WaitStep::Done(1));
}

#[test]
fn equal_wait_times_out() {
    assert_eq!(param_wait_step(WAIT_EQ, 5, 1000, 999, 4), WaitStep::Pending);
    assert_eq!(param_wait_step(WAIT_EQ, 5, 1000, 1000, 4), WaitStep::Done(0));
}

#[test]
fn other_conditions() {
    assert_eq!(param_wait_step(WAIT_GT, 5, 10, 0, 6), WaitStep::Done(1));
    assert_eq!(param_wait_step(WAIT_GT, 5, 10, 0, 5), WaitStep::Pending);
    assert_eq!(param_wait_step(WAIT_LT, 5, 10, 0, 4), WaitStep::Done(1));
    assert_eq!(param_wait_step(WAIT_LT, 5, 10, 0, 5), WaitStep::Pending);
    assert_eq!(param_wait_step(WAIT_NEQ, 5, 10, 0, 4), WaitStep::Done(1));
    assert_eq!(param_wait_step(WAIT_NEQ, 5, 10, 0, 5), WaitStep::Pending);
}

#[test]
fn unknown_condition_is_not_meaningful() {
    assert_eq!(param_wait_step(4, 5, 1000, 0, 5), WaitStep::Done(-1));
    assert_eq!(WaitCondition::from_code(-1), None);
    assert_eq!(WaitCondition::from_code(2), Some(WaitCondition::Eq));
}

#[test]
fn negative_timeout_ends_at_once() {
    assert_eq!(param_wait_step(WAIT_EQ, 5, -1, 0, 4), WaitStep::Done(0));
}

#[test]
fn edge_wait_without_pulse() {
    for t in [0, 1, 1000, i32::MAX, -5] {
        assert_eq!(edge_wait_step(false, false, t, 0), WaitStep::Done(-1));
        assert_eq!(edge_wait_step(false, true, t, 0), WaitStep::Done(-1));
    }
}

#[test]
fn edge_wait_with_pulse() {
    assert_eq!(edge_wait_step(true, true, 1000, 10), WaitStep::Done(1));
    assert_eq!(edge_wait_step(true, false, 1000, 10), WaitStep::Pending);
    assert_eq!(edge_wait_step(true, false, 1000, 1000), WaitStep::Done(0));
}

#[test]
fn write_wakes_only_watchers() {
    let ws = vec![
        ParamWaiter { module_id: 7, slot: 3 },
        ParamWaiter { module_id: 8, slot: 4 },
        ParamWaiter { module_id: 9, slot: 3 },
    ];
    assert_eq!(waiters_to_wake(&ws, 3), vec![7, 9]);
    assert_eq!(waiters_to_wake(&ws, 4), vec![8]);
    assert_eq!(waiters_to_wake(&ws, 0), Vec::<u32>::new());
    assert_eq!(waiters_to_wake(&vec![], 3), Vec::<u32>::new());
}
