//! The lifecycle of one guest module. The host reports what happened (an
//! entry point returned, the guest yielded, time passed without a yield, a
//! trap) and the module answers with its next state and what the host does
//! next. A watchdog counts the time since the last yield; a module that runs
//! past its budget without yielding is faulted and never runs again.
use vstd::prelude::*;

verus! {

#[derive(Clone, Copy, Debug, PartialEq, Eq, Structural)]
pub enum ModuleState {
    Loaded,
    Initializing,
    Running,
    Stopping,
    Stopped,
    Faulted,
}

#[derive(Clone, Copy, Debug, PartialEq, Eq, Structural)]
pub enum RuntimeEvent {
    /// The host begins running the module.
    Start,
    /// The setup entry point returned normally.
    SetupReturned,
    /// One run of the repeating entry point returned; carries the stop flag.
    LoopReturned(i32),
    /// The guest called the delay or a wait primitive; carries the stop flag.
    Yielded(i32),
    /// The guest ran this many milliseconds more without yielding.
    Elapsed(u32),
    /// The sandbox trapped: bad memory access or another fatal error.
    Trap,
    /// The host wants the module gone.
    UnloadRequested,
}

#[derive(Clone, Copy, Debug, PartialEq, Eq, Structural)]
pub enum RuntimeAction {
    /// Nothing to do.
    Idle,
    /// Call the setup entry point.
    InvokeSetup,
    /// Call the repeating entry point.
    InvokeLoop,
    /// Let the suspended guest continue.
    Resume,
    /// Make the guest's current yield point exit instead of continuing.
    ExitAtYield,
    /// Tear the module down.
    Unload,
}

#[derive(Clone, Copy, Debug, PartialEq, Eq, Structural)]
pub struct Module {
    pub state: ModuleState,
    pub has_setup: bool,
    pub has_loop: bool,
    /// Longest time the guest may run without yielding.
    pub budget_ms: u32,
    /// Time the guest has run since it last yielded.
    pub since_yield_ms: u32,
}

/// Whether the module's code may be running.
pub open spec fn is_live(s: ModuleState) -> bool {
    s == ModuleState::Initializing || s == ModuleState::Running || s == ModuleState::Stopping
}

/// The stop flag asks for a stop.
pub open spec fn stop_flag_set(flag: i32) -> bool {
    flag == 1
}

/// The module with a new state.
pub open spec fn in_state(m: Module, s: ModuleState) -> Module {
    Module { state: s, ..m }
}

/// The module after a yield: the watchdog starts again.
pub open spec fn yielded(m: Module) -> Module {
    Module { since_yield_ms: 0, ..m }
}

/// The step of the watchdog for `ms` more milliseconds without a yield.
pub open spec fn watchdog_next(m: Module, ms: u32) -> (Module, RuntimeAction) {
    if m.since_yield_ms + ms > m.budget_ms {
        (in_state(m, ModuleState::Faulted), RuntimeAction::Unload)
    } else {
        (Module { since_yield_ms: (m.since_yield_ms + ms) as u32, ..m }, RuntimeAction::Idle)
    }
}

/// The next state of `m` and the host's next action on event `e`.
pub open spec fn module_next(m: Module, e: RuntimeEvent) -> (Module, RuntimeAction) {
    match m.state {
        ModuleState::Stopped | ModuleState::Faulted => (m, RuntimeAction::Idle),
        _ => match e {
            RuntimeEvent::Trap => (in_state(m, ModuleState::Faulted), RuntimeAction::Unload),
            RuntimeEvent::Elapsed(ms) => if is_live(m.state) {
                watchdog_next(m, ms)
            } else {
                (m, RuntimeAction::Idle)
            },
            RuntimeEvent::Start => if m.state == ModuleState::Loaded {
                if m.has_setup {
                    (in_state(m, ModuleState::Initializing), RuntimeAction::InvokeSetup)
                } else {
                    (in_state(m, ModuleState::Running), RuntimeAction::InvokeLoop)
                }
            } else {
                (m, RuntimeAction::Idle)
            },
            RuntimeEvent::SetupReturned => if m.state == ModuleState::Initializing {
                if m.has_loop {
                    (in_state(yielded(m), ModuleState::Running), RuntimeAction::InvokeLoop)
                } else {
                    (in_state(m, ModuleState::Stopped), RuntimeAction::Unload)
                }
            } else if m.state == ModuleState::Stopping {
                (in_state(m, ModuleState::Stopped), RuntimeAction::Unload)
            } else {
                (m, RuntimeAction::Idle)
            },
            RuntimeEvent::LoopReturned(flag) => if m.state == ModuleState::Running {
                if stop_flag_set(flag) {
                    (in_state(m, ModuleState::Stopped), RuntimeAction::Unload)
                } else {
                    (m, RuntimeAction::InvokeLoop)
                }
            } else if m.state == ModuleState::Stopping {
                (in_state(m, ModuleState::Stopped), RuntimeAction::Unload)
            } else {
                (m, RuntimeAction::Idle)
            },
            RuntimeEvent::Yielded(flag) => if m.state == ModuleState::Stopping {
                (yielded(m), RuntimeAction::ExitAtYield)
            } else if is_live(m.state) {
                if stop_flag_set(flag) {
                    (in_state(yielded(m), ModuleState::Stopping), RuntimeAction::ExitAtYield)
                } else {
                    (yielded(m), RuntimeAction::Resume)
                }
            } else {
                (m, RuntimeAction::Idle)
            },
            RuntimeEvent::UnloadRequested => if m.state == ModuleState::Loaded {
                (in_state(m, ModuleState::Stopped), RuntimeAction::Unload)
            } else if m.state == ModuleState::Stopping {
                (m, RuntimeAction::Idle)
            } else {
                (in_state(m, ModuleState::Stopping), RuntimeAction::ExitAtYield)
            },
        },
    }
}

/// The module after the events `evs`, in order.
pub open spec fn module_run(m: Module, evs: Seq<RuntimeEvent>) -> Module
    decreases evs.len(),
{
    if evs.len() == 0 {
        m
    } else {
        module_run(module_next(m, evs[0]).0, evs.drop_first())
    }
}

/// The host's actions on the events `evs`, in order.
pub open spec fn module_actions(m: Module, evs: Seq<RuntimeEvent>) -> Seq<RuntimeAction>
    decreases evs.len(),
{
    if evs.len() == 0 {
        Seq::empty()
    } else {
        seq![module_next(m, evs[0]).1] + module_actions(module_next(m, evs[0]).0, evs.drop_first())
    }
}

/// Whether `e` is a report that the guest ran on without yielding: time
/// passing, or the repeating entry point returning with no stop asked.
pub open spec fn runs_without_yield(e: RuntimeEvent) -> bool {
    match e {
        RuntimeEvent::Elapsed(_) => true,
        RuntimeEvent::LoopReturned(flag) => !stop_flag_set(flag),
        _ => false,
    }
}

/// The milliseconds of running that `evs` report.
pub open spec fn elapsed_total(evs: Seq<RuntimeEvent>) -> int
    decreases evs.len(),
{
    if evs.len() == 0 {
        0
    } else {
        (match evs[0] {
            RuntimeEvent::Elapsed(ms) => ms as int,
            _ => 0,
        }) + elapsed_total(evs.drop_first())
    }
}

impl Module {
    /// A loaded module with the entry points it offers and its watchdog
    /// budget; `None` where it offers neither entry point.
    pub fn load(has_setup: bool, has_loop: bool, budget_ms: u32) -> (r: Option<Module>)
        ensures
            r.is_some() == (has_setup || has_loop),
            r.is_some() ==> r.unwrap() == (Module {
                state: ModuleState::Loaded,
                has_setup,
                has_loop,
                budget_ms,
                since_yield_ms: 0,
            }),
    {
        if !has_setup && !has_loop {
            None
        } else {
            Some(Module { state: ModuleState::Loaded, has_setup, has_loop, budget_ms, since_yield_ms: 0 })
        }
    }

    /// Takes event `e` and returns what the host does next.
    pub fn handle(&mut self, e: RuntimeEvent) -> (a: RuntimeAction)
        ensures
            (*final(self), a) == module_next(*old(self), e),
    {
        let m = *self;
        let (next, a) = match m.state {
            ModuleState::Stopped | ModuleState::Faulted => (m, RuntimeAction::Idle),
            _ => match e {
                RuntimeEvent::Trap => (m.with_state(ModuleState::Faulted), RuntimeAction::Unload),
                RuntimeEvent::Elapsed(ms) => if m.live() {
                    m.watchdog(ms)
                } else {
                    (m, RuntimeAction::Idle)
                },
                RuntimeEvent::Start => if m.state == ModuleState::Loaded {
                    if m.has_setup {
                        (m.with_state(ModuleState::Initializing), RuntimeAction::InvokeSetup)
                    } else {
                        (m.with_state(ModuleState::Running), RuntimeAction::InvokeLoop)
                    }
                } else {
                    (m, RuntimeAction::Idle)
                },
                RuntimeEvent::SetupReturned => if m.state == ModuleState::Initializing {
                    if m.has_loop {
                        (m.after_yield().with_state(ModuleState::Running), RuntimeAction::InvokeLoop)
                    } else {
                        (m.with_state(ModuleState::Stopped), RuntimeAction::Unload)
                    }
                } else if m.state == ModuleState::Stopping {
                    (m.with_state(ModuleState::Stopped), RuntimeAction::Unload)
                } else {
                    (m, RuntimeAction::Idle)
                },
                RuntimeEvent::LoopReturned(flag) => if m.state == ModuleState::Running {
                    if flag == 1 {
                        (m.with_state(ModuleState::Stopped), RuntimeAction::Unload)
                    } else {
                        (m, RuntimeAction::InvokeLoop)
                    }
                } else if m.state == ModuleState::Stopping {
                    (m.with_state(ModuleState::Stopped), RuntimeAction::Unload)
                } else {
                    (m, RuntimeAction::Idle)
                },
                RuntimeEvent::Yielded(flag) => if m.state == ModuleState::Stopping {
                    (m.after_yield(), RuntimeAction::ExitAtYield)
                } else if m.live() {
                    if flag == 1 {
                        (m.after_yield().with_state(ModuleState::Stopping), RuntimeAction::ExitAtYield)
                    } else {
                        (m.after_yield(), RuntimeAction::Resume)
                    }
                } else {
                    (m, RuntimeAction::Idle)
                },
                RuntimeEvent::UnloadRequested => if m.state == ModuleState::Loaded {
                    (m.with_state(ModuleState::Stopped), RuntimeAction::Unload)
                } else if m.state == ModuleState::Stopping {
                    (m, RuntimeAction::Idle)
                } else {
                    (m.with_state(ModuleState::Stopping), RuntimeAction::ExitAtYield)
                },
            },
        };
        *self = next;
        a
    }

    /// Whether the module's code may be running.
    pub fn live(&self) -> (r: bool)
        ensures
            r == is_live(self.state),
    {
        self.state == ModuleState::Initializing || self.state == ModuleState::Running || self.state
            == ModuleState::Stopping
    }

    fn with_state(self, s: ModuleState) -> (m: Module)
        ensures
            m == in_state(self, s),
    {
        Module { state: s, ..self }
    }

    fn after_yield(self) -> (m: Module)
        ensures
            m == yielded(self),
    {
        Module { since_yield_ms: 0, ..self }
    }

    fn watchdog(self, ms: u32) -> (r: (Module, RuntimeAction))
        ensures
            r == watchdog_next(self, ms),
    {
        if self.since_yield_ms as u64 + ms as u64 > self.budget_ms as u64 {
            (self.with_state(ModuleState::Faulted), RuntimeAction::Unload)
        } else {
            (Module { since_yield_ms: self.since_yield_ms + ms, ..self }, RuntimeAction::Idle)
        }
    }
}

/// A faulted module stays faulted whatever happens next, and the host never
/// calls any of its entry points again.
pub proof fn lemma_faulted_is_final(m: Module, evs: Seq<RuntimeEvent>)
    requires
        m.state == ModuleState::Faulted,
    ensures
        module_run(m, evs) == m,
        module_actions(m, evs).len() == evs.len(),
        forall|i: int| 0 <= i < evs.len() ==> #[trigger] module_actions(m, evs)[i] == RuntimeAction::Idle,
    decreases evs.len(),
{
    if evs.len() > 0 {
        lemma_faulted_is_final(m, evs.drop_first());
        assert(module_next(m, evs[0]) == (m, RuntimeAction::Idle));
        assert forall|i: int| 0 <= i < evs.len() implies #[trigger] module_actions(m, evs)[i]
            == RuntimeAction::Idle by {
            if i > 0 {
                assert(module_actions(m, evs)[i] == module_actions(m, evs.drop_first())[i - 1]);
            }
        }
    }
}

/// A running module that never yields, and whose reports of running without a
/// yield add up to more than what its watchdog has left, ends faulted.
pub proof fn lemma_no_yield_faults(m: Module, evs: Seq<RuntimeEvent>)
    requires
        m.state == ModuleState::Running,
        m.since_yield_ms <= m.budget_ms,
        forall|i: int| 0 <= i < evs.len() ==> runs_without_yield(#[trigger] evs[i]),
        m.since_yield_ms + elapsed_total(evs) > m.budget_ms,
    ensures
        module_run(m, evs).state == ModuleState::Faulted,
    decreases evs.len(),
{
    let rest = evs.drop_first();
    assert(forall|i: int| 0 <= i < rest.len() ==> rest[i] == evs[i + 1]);
    let n = module_next(m, evs[0]).0;
    assert(runs_without_yield(evs[0]));
    match evs[0] {
        RuntimeEvent::Elapsed(ms) => {
            if m.since_yield_ms + ms > m.budget_ms {
                lemma_faulted_is_final(n, rest);
            } else {
                lemma_no_yield_faults(n, rest);
            }
        },
        _ => {
            lemma_no_yield_faults(n, rest);
        },
    }
}

} // verus!
