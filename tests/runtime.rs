use conez_api::runtime::{Module, ModuleState, RuntimeAction, RuntimeEvent};

fn running(budget: u32) -> Module {
    let mut m = Module::load(false, true, budget).unwrap();
    assert_eq!(m.handle(RuntimeEvent::Start), RuntimeAction::InvokeLoop);
    m
}

#[test]
fn load_needs_an_entry_point() {
    assert!(Module::load(false, false, 100).is_none());
    let m = Module::load(true, false, 100).unwrap();
    assert_eq!(m.state, ModuleState::Loaded);
}

#[test]
fn setup_runs_once_before_loop() {
    let mut m = Module::load(true, true, 100).unwrap();
    assert_eq!(m.handle(RuntimeEvent::Start), RuntimeAction::InvokeSetup);
    assert_eq!(m.state, ModuleState::Initializing);
    assert_eq!(m.handle(RuntimeEvent::Start), RuntimeAction::Idle);
    assert_eq!(m.handle(RuntimeEvent::SetupReturned), RuntimeAction::InvokeLoop);
    assert_eq!(m.state, ModuleState::Running);
    assert_eq!(m.handle(RuntimeEvent::LoopReturned(0)), RuntimeAction::InvokeLoop);
}

#[test]
fn setup_only_module_stops() {
    let mut m = Module::load(true, false, 100).unwrap();
    assert_eq!(m.handle(RuntimeEvent::Start), RuntimeAction::InvokeSetup);
    assert_eq!(m.handle(RuntimeEvent::SetupReturned), RuntimeAction::Unload);
    assert_eq!(m.state, ModuleState::Stopped);
}

#[test]
fn never_yielding_module_faults() {
    let mut m = running(100);
    assert_eq!(m.handle(RuntimeEvent::Elapsed(60)), RuntimeAction::Idle);
    assert_eq!(m.handle(RuntimeEvent::LoopReturned(0)), RuntimeAction::InvokeLoop);
    assert_eq!(m.handle(RuntimeEvent::Elapsed(40)), RuntimeAction::Idle);
    assert_eq!(m.handle(RuntimeEvent::Elapsed(1)), RuntimeAction::Unload);
    assert_eq!(m.state, ModuleState::Faulted);
    assert_eq!(m.handle(RuntimeEvent::LoopReturned(0)), RuntimeAction::Idle);
    assert_eq!(m.handle(RuntimeEvent::Start), RuntimeAction::Idle);
    assert_eq!(m.handle(RuntimeEvent::Yielded(0)), RuntimeAction::Idle);
    assert_eq!(m.state, ModuleState::Faulted);
}

#[test]
fn yielding_resets_watchdog() {
    let mut m = running(100);
    assert_eq!(m.handle(RuntimeEvent::Elapsed(90)), RuntimeAction::Idle);
    assert_eq!(m.handle(RuntimeEvent::Yielded(0)), RuntimeAction::Resume);
    assert_eq!(m.since_yield_ms, 0);
    assert_eq!(m.handle(RuntimeEvent::Elapsed(90)), RuntimeAction::Idle);
    assert_eq!(m.state, ModuleState::Running);
}

#[test]
fn stop_flag_at_yield() {
    let mut m = running(100);
    assert_eq!(m.handle(RuntimeEvent::Yielded(1)), RuntimeAction::ExitAtYield);
    assert_eq!(m.state, ModuleState::Stopping);
    assert_eq!(m.handle(RuntimeEvent::LoopReturned(1)), RuntimeAction::Unload);
    assert_eq!(m.state, ModuleState::Stopped);
    assert_eq!(m.handle(RuntimeEvent::Start), RuntimeAction::Idle);
}

#[test]
fn stop_flag_at_loop_return() {
    let mut m = running(100);
    assert_eq!(m.handle(RuntimeEvent::LoopReturned(1)), RuntimeAction::Unload);
    assert_eq!(m.state, ModuleState::Stopped);
}

#[test]
fn trap_faults() {
    let mut m = running(100);
    assert_eq!(m.handle(RuntimeEvent::Trap), RuntimeAction::Unload);
    assert_eq!(m.state, ModuleState::Faulted);
}

#[test]
fn unload_request() {
    let mut m = running(100);
    assert_eq!(m.handle(RuntimeEvent::UnloadRequested), RuntimeAction::ExitAtYield);
    assert_eq!(m.state, ModuleState::Stopping);
    assert_eq!(m.handle(RuntimeEvent::Yielded(0)), RuntimeAction::ExitAtYield);
    let mut n = Module::load(false, true, 5).unwrap();
    assert_eq!(n.handle(RuntimeEvent::UnloadRequested), RuntimeAction::Unload);
    assert_eq!(n.state, ModuleState::Stopped);
}
