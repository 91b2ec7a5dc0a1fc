//! Calibration tables: integer tables kept by index in durable storage. A
//! guest loads one into a working copy, reads and edits that copy, and makes
//! its edits durable only by saving; a save replaces the durable copy whole.
use vstd::prelude::*;

verus! {

/// Number of table indices.
pub const LUT_COUNT: usize = 16;

/// Number of entries in every table.
pub const LUT_LEN: usize = 256;

/// What a read returns with no table loaded or outside the table.
pub const LUT_SENTINEL: i32 = 0;

/// The store as the guest and the storage see it.
pub ghost struct LutState {
    /// The durable copy of each index, where one was saved.
    pub durable: Seq<Option<Seq<i32>>>,
    /// The working copy, where a table is loaded.
    pub working: Option<Seq<i32>>,
}

/// A table of zeros, which an index holds until its first save.
pub open spec fn blank_table() -> Seq<i32> {
    Seq::new(LUT_LEN as nat, |i: int| 0i32)
}

/// Whether `index` names a table.
pub open spec fn index_ok(index: i32) -> bool {
    0 <= index < LUT_COUNT
}

/// After a load of `index`: the working copy is its durable copy, or a blank
/// table where it has none. An index out of range changes nothing.
pub open spec fn lut_loaded(s: LutState, index: i32) -> LutState {
    if !index_ok(index) {
        s
    } else {
        LutState {
            working: Some(
                match s.durable[index as int] {
                    Some(t) => t,
                    None => blank_table(),
                },
            ),
            ..s
        }
    }
}

/// Entry `i` of the working copy, or the sentinel.
pub open spec fn lut_value(s: LutState, i: i32) -> i32 {
    match s.working {
        Some(w) => if 0 <= i < w.len() {
            w[i as int]
        } else {
            LUT_SENTINEL
        },
        None => LUT_SENTINEL,
    }
}

/// After entry `i` of the working copy is set to `v`; without a working copy
/// or outside it nothing changes.
pub open spec fn lut_stored(s: LutState, i: i32, v: i32) -> LutState {
    match s.working {
        Some(w) => if 0 <= i < w.len() {
            LutState { working: Some(w.update(i as int, v)), ..s }
        } else {
            s
        },
        None => s,
    }
}

/// Whether a save of `index` succeeds: the index is in range and a table is
/// loaded.
pub open spec fn lut_can_save(s: LutState, index: i32) -> bool {
    index_ok(index) && s.working.is_some()
}

/// After a save of `index`: its durable copy is the working copy.
pub open spec fn lut_saved(s: LutState, index: i32) -> LutState {
    if lut_can_save(s, index) {
        LutState { durable: s.durable.update(index as int, s.working), ..s }
    } else {
        s
    }
}

/// After a restart: only the durable copies remain.
pub open spec fn lut_restarted(s: LutState) -> LutState {
    LutState { working: None, ..s }
}

pub open spec fn durable_of(o: Option<Vec<i32>>) -> Option<Seq<i32>> {
    match o {
        Some(v) => Some(v@),
        None => None,
    }
}

pub struct LutStore {
    durable: Vec<Option<Vec<i32>>>,
    working: Option<Vec<i32>>,
}

impl View for LutStore {
    type V = LutState;

    closed spec fn view(&self) -> LutState {
        LutState {
            durable: self.durable@.map_values(|o: Option<Vec<i32>>| durable_of(o)),
            working: durable_of(self.working),
        }
    }
}

/// A blank table.
fn blank() -> (t: Vec<i32>)
    ensures
        t@ == blank_table(),
{
    let mut t: Vec<i32> = Vec::new();
    let mut i: usize = 0;
    while i < LUT_LEN
        invariant
            i <= LUT_LEN,
            t@ == Seq::new(i as nat, |j: int| 0i32),
        decreases LUT_LEN - i,
    {
        t.push(0);
        i = i + 1;
    }
    t
}

impl LutStore {
    /// One durable slot per index; every table, durable or working, of full
    /// length.
    pub open spec fn wf(&self) -> bool {
        &&& self@.durable.len() == LUT_COUNT
        &&& forall|i: int|
            0 <= i < LUT_COUNT && (#[trigger] self@.durable[i]).is_some() ==> self@.durable[i].unwrap().len()
                == LUT_LEN
        &&& self@.working.is_some() ==> self@.working.unwrap().len() == LUT_LEN
    }

    /// A store with no durable table and nothing loaded.
    pub fn new() -> (s: LutStore)
        ensures
            s.wf(),
            s@.working.is_none(),
            forall|i: int| 0 <= i < LUT_COUNT ==> (#[trigger] s@.durable[i]).is_none(),
    {
        let mut durable: Vec<Option<Vec<i32>>> = Vec::new();
        let mut i: usize = 0;
        while i < LUT_COUNT
            invariant
                i <= LUT_COUNT,
                durable@.len() == i,
                forall|j: int| 0 <= j < i ==> (#[trigger] durable@[j]).is_none(),
            decreases LUT_COUNT - i,
        {
            durable.push(None);
            i = i + 1;
        }
        let s = LutStore { durable, working: None };
        assert(forall|j: int| 0 <= j < LUT_COUNT ==> (#[trigger] s@.durable[j]).is_none());
        s
    }

    /// Hands the store a durable copy read back from storage: 0, or -1 and
    /// no change where the index is out of range or the table is not of full
    /// length.
    pub fn restore(&mut self, index: i32, table: Vec<i32>) -> (r: i32)
        requires
            old(self).wf(),
        ensures
            final(self).wf(),
            r == 0 <==> index_ok(index) && table@.len() == LUT_LEN,
            r == 0 || r == -1,
            r == 0 ==> final(self)@ == (LutState {
                durable: old(self)@.durable.update(index as int, Some(table@)),
                ..old(self)@
            }),
            r == -1 ==> final(self)@ == old(self)@,
    {
        if index < 0 || index as usize >= LUT_COUNT || table.len() != LUT_LEN {
            return -1;
        }
        let ghost before = self@;
        let ghost tv = table@;
        self.durable.set(index as usize, Some(table));
        assert(self@.durable =~= before.durable.update(index as int, Some(tv)));
        0
    }

    /// Loads table `index` into the working copy: 0, or -1 and no change for
    /// an index out of range. An index never saved loads as zeros.
    pub fn load(&mut self, index: i32) -> (r: i32)
        requires
            old(self).wf(),
        ensures
            final(self).wf(),
            r == 0 <==> index_ok(index),
            r == 0 || r == -1,
            final(self)@ == lut_loaded(old(self)@, index),
    {
        if index < 0 || index as usize >= LUT_COUNT {
            return -1;
        }
        let t = match &self.durable[index as usize] {
            Some(v) => v.clone(),
            None => blank(),
        };
        self.working = Some(t);
        0
    }

    /// Entry `i` of the working copy; 0 with nothing loaded or outside it.
    pub fn get(&self, i: i32) -> (v: i32)
        requires
            self.wf(),
        ensures
            v == lut_value(self@, i),
    {
        match &self.working {
            Some(w) => if 0 <= i && (i as usize) < w.len() {
                w[i as usize]
            } else {
                LUT_SENTINEL
            },
            None => LUT_SENTINEL,
        }
    }

    /// Sets entry `i` of the working copy to `value`; ignored with nothing
    /// loaded or outside it.
    pub fn set(&mut self, i: i32, value: i32)
        requires
            old(self).wf(),
        ensures
            final(self).wf(),
            final(self)@ == lut_stored(old(self)@, i, value),
    {
        if let Some(w) = &mut self.working {
            if 0 <= i && (i as usize) < w.len() {
                w.set(i as usize, value);
            }
        }
    }

    /// Entries in the working copy; 0 with nothing loaded.
    pub fn size(&self) -> (n: i32)
        requires
            self.wf(),
        ensures
            n == (if self@.working.is_some() { LUT_LEN as i32 } else { 0 }),
    {
        if self.working.is_some() {
            LUT_LEN as i32
        } else {
            0
        }
    }

    /// Makes the working copy the durable copy of `index`, whole: 0, or -1
    /// and no change where the index is out of range or nothing is loaded.
    pub fn save(&mut self, index: i32) -> (r: i32)
        requires
            old(self).wf(),
        ensures
            final(self).wf(),
            r == 0 <==> lut_can_save(old(self)@, index),
            r == 0 || r == -1,
            final(self)@ == lut_saved(old(self)@, index),
    {
        if index < 0 || index as usize >= LUT_COUNT {
            return -1;
        }
        let copy = match &self.working {
            Some(w) => w.clone(),
            None => return -1,
        };
        let ghost before = self@;
        let ghost cv = copy@;
        self.durable.set(index as usize, Some(copy));
        assert(self@.durable =~= before.durable.update(index as int, before.working));
        0
    }

    /// 0 where `index` has an intact durable copy, else -1; changes nothing.
    pub fn check(&self, index: i32) -> (r: i32)
        requires
            self.wf(),
        ensures
            r == 0 <==> index_ok(index) && self@.durable[index as int].is_some(),
            r == 0 || r == -1,
    {
        if index < 0 || index as usize >= LUT_COUNT {
            return -1;
        }
        match &self.durable[index as usize] {
            Some(t) => if t.len() == LUT_LEN {
                0
            } else {
                -1
            },
            None => -1,
        }
    }

    /// Drops the working copy, as a restart does; the durable copies stay.
    pub fn restart(&mut self)
        requires
            old(self).wf(),
        ensures
            final(self).wf(),
            final(self)@ == lut_restarted(old(self)@),
    {
        self.working = None;
    }
}

/// A value set in a loaded table and saved is read back after a restart and a
/// new load of the same index.
pub proof fn lemma_saved_value_survives_restart(s: LutState, index: i32, i: i32, v: i32)
    requires
        index_ok(index),
        0 <= i < LUT_LEN,
        s.durable.len() == LUT_COUNT,
        forall|j: int|
            0 <= j < LUT_COUNT && (#[trigger] s.durable[j]).is_some() ==> s.durable[j].unwrap().len()
                == LUT_LEN,
    ensures
        lut_value(
            lut_loaded(
                lut_restarted(lut_saved(lut_stored(lut_loaded(s, index), i, v), index)),
                index,
            ),
            i,
        ) == v,
{
    let s1 = lut_loaded(s, index);
    assert(s1.working.unwrap().len() == LUT_LEN);
}

} // verus!
