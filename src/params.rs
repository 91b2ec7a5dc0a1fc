//! The shared parameter store: sixteen signed slots, last write wins. Slot 0
//! is the stop flag: 1 asks the module to stop, 0 lets it run.
use vstd::prelude::*;

verus! {

/// Number of slots in the store.
pub const PARAM_COUNT: usize = 16;

/// The slot that carries the stop request.
pub const STOP_SLOT: i32 = 0;

/// What a read of `slot` returns: its value, or 0 outside the store.
pub open spec fn param_value(slots: Seq<i32>, slot: int) -> i32 {
    if 0 <= slot < PARAM_COUNT {
        slots[slot]
    } else {
        0
    }
}

/// The slots after a write of `value` to `slot`; a write outside the store is
/// dropped.
pub open spec fn param_written(slots: Seq<i32>, slot: int, value: i32) -> Seq<i32> {
    if 0 <= slot < PARAM_COUNT {
        slots.update(slot, value)
    } else {
        slots
    }
}

/// Whether the stop flag is set.
pub open spec fn stop_requested(slots: Seq<i32>) -> bool {
    param_value(slots, STOP_SLOT as int) == 1
}

/// The slots after the writes in `values`, in order, all to `slot`.
pub open spec fn param_writes(slots: Seq<i32>, slot: int, values: Seq<i32>) -> Seq<i32>
    decreases values.len(),
{
    if values.len() == 0 {
        slots
    } else {
        param_written(param_writes(slots, slot, values.drop_last()), slot, values.last())
    }
}

pub struct ParamStore {
    slots: Vec<i32>,
}

impl View for ParamStore {
    type V = Seq<i32>;

    closed spec fn view(&self) -> Seq<i32> {
        self.slots@
    }
}

impl ParamStore {
    /// The store holds exactly one value per slot.
    pub open spec fn wf(&self) -> bool {
        self@.len() == PARAM_COUNT
    }

    /// A store with every slot at 0, as at startup.
    pub fn new() -> (s: ParamStore)
        ensures
            s.wf(),
            s@ == Seq::new(PARAM_COUNT as nat, |i: int| 0i32),
    {
        let mut slots: Vec<i32> = Vec::new();
        let mut i: usize = 0;
        while i < PARAM_COUNT
            invariant
                i <= PARAM_COUNT,
                slots@ == Seq::new(i as nat, |j: int| 0i32),
            decreases PARAM_COUNT - i,
        {
            slots.push(0);
            i = i + 1;
        }
        ParamStore { slots }
    }

    /// The value of `slot`; 0 for a slot outside the store. Never fails.
    pub fn get(&self, slot: i32) -> (v: i32)
        requires
            self.wf(),
        ensures
            v == param_value(self@, slot as int),
    {
        if 0 <= slot && (slot as usize) < PARAM_COUNT {
            self.slots[slot as usize]
        } else {
            0
        }
    }

    /// Overwrites `slot` with `value`; a slot outside the store is ignored.
    pub fn set(&mut self, slot: i32, value: i32)
        requires
            old(self).wf(),
        ensures
            final(self).wf(),
            final(self)@ == param_written(old(self)@, slot as int, value),
    {
        if 0 <= slot && (slot as usize) < PARAM_COUNT {
            self.slots.set(slot as usize, value);
        }
    }

    /// Whether a stop has been requested (slot 0 holds 1).
    pub fn should_stop(&self) -> (r: bool)
        requires
            self.wf(),
        ensures
            r == stop_requested(self@),
    {
        self.get(STOP_SLOT) == 1
    }
}

/// A read right after a write to the same slot returns the value written.
pub proof fn lemma_get_after_set(slots: Seq<i32>, slot: int, value: i32)
    requires
        slots.len() == PARAM_COUNT,
        0 <= slot < PARAM_COUNT,
    ensures
        param_value(param_written(slots, slot, value), slot) == value,
{
}

/// After any non-empty run of writes to slot 0, a stop is requested exactly
/// when the last value written was 1.
pub proof fn lemma_stop_follows_last_write(slots: Seq<i32>, values: Seq<i32>)
    requires
        slots.len() == PARAM_COUNT,
        values.len() > 0,
    ensures
        stop_requested(param_writes(slots, STOP_SLOT as int, values)) == (values.last() == 1),
{
    lemma_writes_keep_len(slots, STOP_SLOT as int, values.drop_last());
}

/// Writes keep the number of slots.
pub proof fn lemma_writes_keep_len(slots: Seq<i32>, slot: int, values: Seq<i32>)
    requires
        slots.len() == PARAM_COUNT,
    ensures
        param_writes(slots, slot, values).len() == slots.len(),
    decreases values.len(),
{
    if values.len() > 0 {
        lemma_writes_keep_len(slots, slot, values.drop_last());
    }
}

} // verus!
