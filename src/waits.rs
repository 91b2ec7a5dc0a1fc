//! Decisions of the two blocking waits. The host suspends the module and
//! calls the step function on each wake-up (a write to the watched slot, a
//! timing-pulse edge, or the passing of time); the step says whether the wait
//! ends and with which result.
use vstd::prelude::*;

verus! {

/// Condition code: the slot is greater than the target.
pub const WAIT_GT: i32 = 0;
/// Condition code: the slot is less than the target.
pub const WAIT_LT: i32 = 1;
/// Condition code: the slot equals the target.
pub const WAIT_EQ: i32 = 2;
/// Condition code: the slot differs from the target.
pub const WAIT_NEQ: i32 = 3;

/// Result of a wait whose condition was met.
pub const WAIT_SATISFIED: i32 = 1;
/// Result of a wait whose timeout elapsed first.
pub const WAIT_TIMED_OUT: i32 = 0;
/// Result of a wait that cannot mean anything (no event source, bad condition).
pub const WAIT_NOT_MEANINGFUL: i32 = -1;

#[derive(Clone, Copy, Debug, PartialEq, Eq, Structural)]
pub enum WaitCondition {
    Gt,
    Lt,
    Eq,
    Neq,
}

/// The condition of a code, if it is one of the four.
pub open spec fn condition_of(code: i32) -> Option<WaitCondition> {
    if code == WAIT_GT {
        Some(WaitCondition::Gt)
    } else if code == WAIT_LT {
        Some(WaitCondition::Lt)
    } else if code == WAIT_EQ {
        Some(WaitCondition::Eq)
    } else if code == WAIT_NEQ {
        Some(WaitCondition::Neq)
    } else {
        None
    }
}

/// Whether `current` meets the condition against `target`.
pub open spec fn condition_met(c: WaitCondition, current: i32, target: i32) -> bool {
    match c {
        WaitCondition::Gt => current > target,
        WaitCondition::Lt => current < target,
        WaitCondition::Eq => current == target,
        WaitCondition::Neq => current != target,
    }
}

impl WaitCondition {
    /// Reads a condition code of the interface.
    pub fn from_code(code: i32) -> (r: Option<WaitCondition>)
        ensures
            r == condition_of(code),
    {
        if code == WAIT_GT {
            Some(WaitCondition::Gt)
        } else if code == WAIT_LT {
            Some(WaitCondition::Lt)
        } else if code == WAIT_EQ {
            Some(WaitCondition::Eq)
        } else if code == WAIT_NEQ {
            Some(WaitCondition::Neq)
        } else {
            None
        }
    }

    /// Whether `current` meets this condition against `target`.
    pub fn holds(&self, current: i32, target: i32) -> (r: bool)
        ensures
            r == condition_met(*self, current, target),
    {
        match self {
            WaitCondition::Gt => current > target,
            WaitCondition::Lt => current < target,
            WaitCondition::Eq => current == target,
            WaitCondition::Neq => current != target,
        }
    }
}

/// What a wait does after one look at its condition.
#[derive(Clone, Copy, Debug, PartialEq, Eq, Structural)]
pub enum WaitStep {
    /// The wait ends with this result.
    Done(i32),
    /// The module stays suspended.
    Pending,
}

/// The step of a parameter wait, `elapsed_ms` after it began, with the
/// watched slot at `current`.
pub open spec fn param_wait_spec(
    condition: i32,
    target: i32,
    timeout_ms: i32,
    elapsed_ms: u32,
    current: i32,
) -> WaitStep {
    match condition_of(condition) {
        None => WaitStep::Done(WAIT_NOT_MEANINGFUL),
        Some(c) => if condition_met(c, current, target) {
            WaitStep::Done(WAIT_SATISFIED)
        } else if elapsed_ms >= timeout_ms {
            WaitStep::Done(WAIT_TIMED_OUT)
        } else {
            WaitStep::Pending
        },
    }
}

/// The step of an edge wait, `elapsed_ms` after it began; `edge_seen` tells
/// whether a rising edge of the timing pulse came since.
pub open spec fn edge_wait_spec(
    pulse_present: bool,
    edge_seen: bool,
    timeout_ms: i32,
    elapsed_ms: u32,
) -> WaitStep {
    if !pulse_present {
        WaitStep::Done(WAIT_NOT_MEANINGFUL)
    } else if edge_seen {
        WaitStep::Done(WAIT_SATISFIED)
    } else if elapsed_ms >= timeout_ms {
        WaitStep::Done(WAIT_TIMED_OUT)
    } else {
        WaitStep::Pending
    }
}

/// Decides a parameter wait on one wake-up: met ends it with 1, an elapsed
/// timeout with 0, an unknown condition code with -1; otherwise it goes on.
pub fn param_wait_step(
    condition: i32,
    target: i32,
    timeout_ms: i32,
    elapsed_ms: u32,
    current: i32,
) -> (r: WaitStep)
    ensures
        r == param_wait_spec(condition, target, timeout_ms, elapsed_ms, current),
{
    match WaitCondition::from_code(condition) {
        None => WaitStep::Done(WAIT_NOT_MEANINGFUL),
        Some(c) => if c.holds(current, target) {
            WaitStep::Done(WAIT_SATISFIED)
        } else if elapsed_ms as i64 >= timeout_ms as i64 {
            WaitStep::Done(WAIT_TIMED_OUT)
        } else {
            WaitStep::Pending
        },
    }
}

/// Decides an edge wait on one wake-up: without timing-pulse hardware it ends
/// at once with -1; an edge ends it with 1, an elapsed timeout with 0.
pub fn edge_wait_step(pulse_present: bool, edge_seen: bool, timeout_ms: i32, elapsed_ms: u32) -> (r: WaitStep)
    ensures
        r == edge_wait_spec(pulse_present, edge_seen, timeout_ms, elapsed_ms),
        !pulse_present ==> r == WaitStep::Done(WAIT_NOT_MEANINGFUL),
{
    if !pulse_present {
        WaitStep::Done(WAIT_NOT_MEANINGFUL)
    } else if edge_seen {
        WaitStep::Done(WAIT_SATISFIED)
    } else if elapsed_ms as i64 >= timeout_ms as i64 {
        WaitStep::Done(WAIT_TIMED_OUT)
    } else {
        WaitStep::Pending
    }
}

/// A module suspended in a parameter wait, and the slot it watches.
#[derive(Clone, Copy, Debug, PartialEq, Eq, Structural)]
pub struct ParamWaiter {
    pub module_id: u32,
    pub slot: i32,
}

/// The modules among `waiters`, in order, that watch `slot`.
pub open spec fn watchers_of(waiters: Seq<ParamWaiter>, slot: i32) -> Seq<u32>
    decreases waiters.len(),
{
    if waiters.len() == 0 {
        Seq::empty()
    } else {
        watchers_of(waiters.drop_last(), slot) + if waiters.last().slot == slot {
            seq![waiters.last().module_id]
        } else {
            Seq::empty()
        }
    }
}

/// The modules to wake after a write to `slot`: every waiter that watches
/// it, in the order they wait, and no other.
pub fn waiters_to_wake(waiters: &Vec<ParamWaiter>, slot: i32) -> (r: Vec<u32>)
    ensures
        r@ == watchers_of(waiters@, slot),
{
    let mut r: Vec<u32> = Vec::new();
    let mut i: usize = 0;
    while i < waiters.len()
        invariant
            i <= waiters@.len(),
            r@ == watchers_of(waiters@.subrange(0, i as int), slot),
        decreases waiters@.len() - i,
    {
        let w = waiters[i];
        assert(waiters@.subrange(0, i as int + 1).drop_last() =~= waiters@.subrange(0, i as int));
        if w.slot == slot {
            r.push(w.module_id);
        }
        i = i + 1;
        assert(r@ =~= watchers_of(waiters@.subrange(0, i as int), slot));
    }
    assert(waiters@.subrange(0, i as int) =~= waiters@);
    r
}

/// A wait for the slot to equal 5 with a timeout of 1000 ms ends with 1 as
/// soon as the slot holds 5, ends with 0 once 1000 ms have passed without it,
/// and goes on before that.
pub proof fn lemma_equal_wait(elapsed_ms: u32, current: i32)
    ensures
        current == 5 ==> param_wait_spec(WAIT_EQ, 5, 1000, elapsed_ms, current) == WaitStep::Done(
            WAIT_SATISFIED,
        ),
        current != 5 && elapsed_ms >= 1000 ==> param_wait_spec(
            WAIT_EQ,
            5,
            1000,
            elapsed_ms,
            current,
        ) == WaitStep::Done(WAIT_TIMED_OUT),
        current != 5 && elapsed_ms < 1000 ==> param_wait_spec(
            WAIT_EQ,
            5,
            1000,
            elapsed_ms,
            current,
        ) == WaitStep::Pending,
{
}

/// Without timing-pulse hardware an edge wait ends at once with -1, whatever
/// its timeout.
pub proof fn lemma_edge_wait_without_pulse(edge_seen: bool, timeout_ms: i32, elapsed_ms: u32)
    ensures
        edge_wait_spec(false, edge_seen, timeout_ms, elapsed_ms) == WaitStep::Done(
            WAIT_NOT_MEANINGFUL,
        ),
{
}

} // verus!
