//! The per-module table of open files: at most four handles, each the index
//! of its slot, reused after close. The filesystem itself is a collaborator;
//! the table decides handles and keeps each file's path, mode and cursor.
use vstd::prelude::*;
use crate::memory::{copy_from_guest, span_inside};

verus! {

/// Most files one module may hold open at once.
pub const MAX_OPEN_FILES: usize = 4;

/// What a file operation returns when it fails.
pub const FILE_ERROR: i32 = -1;

/// Largest cursor a handle can report.
pub const MAX_CURSOR: i32 = 0x7fff_ffff;

#[derive(Clone, Copy, Debug, PartialEq, Eq, Structural)]
pub enum FileMode {
    Read,
    Write,
    Append,
}

/// The mode of a mode code: 0 read, 1 write, 2 append.
pub open spec fn mode_of(code: i32) -> Option<FileMode> {
    if code == 0 {
        Some(FileMode::Read)
    } else if code == 1 {
        Some(FileMode::Write)
    } else if code == 2 {
        Some(FileMode::Append)
    } else {
        None
    }
}

impl FileMode {
    /// Reads a mode code of the interface.
    pub fn from_code(code: i32) -> (r: Option<FileMode>)
        ensures
            r == mode_of(code),
    {
        if code == 0 {
            Some(FileMode::Read)
        } else if code == 1 {
            Some(FileMode::Write)
        } else if code == 2 {
            Some(FileMode::Append)
        } else {
            None
        }
    }
}

/// One open file: its path, its mode and its read/write cursor.
pub struct OpenFile {
    pub path: Vec<u8>,
    pub mode: FileMode,
    pub cursor: i32,
}

/// What an open file stands for.
pub ghost struct FileEntry {
    pub path: Seq<u8>,
    pub mode: FileMode,
    pub cursor: int,
}

pub open spec fn entry_of(e: Option<OpenFile>) -> Option<FileEntry> {
    match e {
        None => None,
        Some(f) => Some(FileEntry { path: f.path@, mode: f.mode, cursor: f.cursor as int }),
    }
}

/// Whether a handle names a slot of the table.
pub open spec fn handle_in_range(handle: i32) -> bool {
    0 <= handle < MAX_OPEN_FILES
}

/// Whether `handle` names an open file of `t`.
pub open spec fn handle_open(t: Seq<Option<FileEntry>>, handle: i32) -> bool {
    handle_in_range(handle) && t[handle as int].is_some()
}

/// The lowest free slot of `t` at or after `i`, or -1 where there is none.
pub open spec fn free_from(t: Seq<Option<FileEntry>>, i: int) -> int
    decreases t.len() - i,
{
    if i >= t.len() || i < 0 {
        -1
    } else if t[i].is_none() {
        i
    } else {
        free_from(t, i + 1)
    }
}

/// The handle that the next open takes, or -1 where the table is full.
pub open spec fn lowest_free(t: Seq<Option<FileEntry>>) -> int {
    free_from(t, 0)
}

pub struct FileTable {
    entries: Vec<Option<OpenFile>>,
}

impl View for FileTable {
    type V = Seq<Option<FileEntry>>;

    closed spec fn view(&self) -> Seq<Option<FileEntry>> {
        self.entries@.map_values(|e: Option<OpenFile>| entry_of(e))
    }
}

impl FileTable {
    /// One slot per handle, each cursor a position the interface can report.
    pub open spec fn wf(&self) -> bool {
        &&& self@.len() == MAX_OPEN_FILES
        &&& forall|i: int|
            0 <= i < MAX_OPEN_FILES && (#[trigger] self@[i]).is_some() ==> 0
                <= self@[i].unwrap().cursor <= MAX_CURSOR
    }

    /// A table with no file open.
    pub fn new() -> (t: FileTable)
        ensures
            t.wf(),
            forall|i: int| 0 <= i < MAX_OPEN_FILES ==> (#[trigger] t@[i]).is_none(),
    {
        let mut entries: Vec<Option<OpenFile>> = Vec::new();
        let mut i: usize = 0;
        while i < MAX_OPEN_FILES
            invariant
                i <= MAX_OPEN_FILES,
                entries@.len() == i,
                forall|j: int| 0 <= j < i ==> (#[trigger] entries@[j]).is_none(),
            decreases MAX_OPEN_FILES - i,
        {
            entries.push(None);
            i = i + 1;
        }
        let t = FileTable { entries };
        assert(forall|j: int| 0 <= j < MAX_OPEN_FILES ==> (#[trigger] t@[j]).is_none());
        t
    }

    /// Whether `handle` names an open file.
    pub fn is_open(&self, handle: i32) -> (r: bool)
        requires
            self.wf(),
        ensures
            r == handle_open(self@, handle),
    {
        0 <= handle && (handle as usize) < MAX_OPEN_FILES && self.entries[handle as usize].is_some()
    }

    /// The open file behind `handle`, if any.
    pub fn entry(&self, handle: i32) -> (r: Option<&OpenFile>)
        requires
            self.wf(),
        ensures
            r.is_some() == handle_open(self@, handle),
            r.is_some() ==> entry_of(Some(*r.unwrap())) == self@[handle as int],
    {
        if 0 <= handle && (handle as usize) < MAX_OPEN_FILES {
            match &self.entries[handle as usize] {
                Some(f) => Some(f),
                None => None,
            }
        } else {
            None
        }
    }

    /// Opens `path` in the mode of `mode` (0 read, 1 write, 2 append) at
    /// cursor 0, in the lowest free slot, and returns that slot as the
    /// handle. Returns -1, the table untouched, for an unknown mode or when
    /// all four handles are in use.
    pub fn open(&mut self, path: &Vec<u8>, mode: i32) -> (h: i32)
        requires
            old(self).wf(),
        ensures
            final(self).wf(),
            h == -1 <==> (mode_of(mode).is_none() || lowest_free(old(self)@) == -1),
            h == -1 ==> final(self)@ == old(self)@,
            h != -1 ==> {
                &&& h == lowest_free(old(self)@)
                &&& final(self)@ == old(self)@.update(
                    h as int,
                    Some(FileEntry { path: path@, mode: mode_of(mode).unwrap(), cursor: 0 }),
                )
            },
    {
        let mo = FileMode::from_code(mode);
        if mo.is_none() {
            return FILE_ERROR;
        }
        let m = mo.unwrap();
        let mut i: usize = 0;
        while i < MAX_OPEN_FILES
            invariant
                self.wf(),
                self@ == old(self)@,
                mode_of(mode) == Some(m),
                i <= MAX_OPEN_FILES,
                self.entries@.len() == MAX_OPEN_FILES,
                forall|j: int| 0 <= j < i ==> (#[trigger] self@[j]).is_some(),
                free_from(self@, 0) == free_from(self@, i as int),
            decreases MAX_OPEN_FILES - i,
        {
            if self.entries[i].is_none() {
                let ghost before = self@;
                assert(before[i as int] == entry_of(self.entries@[i as int]));
                assert(free_from(before, i as int) == i as int);
                let f = OpenFile { path: path.clone(), mode: m, cursor: 0 };
                self.entries.set(i, Some(f));
                assert(self@ =~= before.update(
                    i as int,
                    Some(FileEntry { path: path@, mode: m, cursor: 0 }),
                ));
                return i as i32;
            }
            i = i + 1;
        }
        FILE_ERROR
    }

    /// Opens the path that a guest passes as the span `ptr`, `len` of its
    /// memory. Returns -1, the table untouched, where the span does not lie
    /// inside that memory; otherwise as `open` on the bytes of the span.
    pub fn open_from_guest(&mut self, memory: &Vec<u8>, ptr: i32, len: i32, mode: i32) -> (h: i32)
        requires
            old(self).wf(),
        ensures
            final(self).wf(),
            !span_inside(memory@.len() as int, ptr as int, len as int) ==> h == -1 && final(self)@
                == old(self)@,
            span_inside(memory@.len() as int, ptr as int, len as int) ==> {
                &&& h == -1 <==> (mode_of(mode).is_none() || lowest_free(old(self)@) == -1)
                &&& h == -1 ==> final(self)@ == old(self)@
                &&& h != -1 ==> h == lowest_free(old(self)@) && final(self)@ == old(self)@.update(
                    h as int,
                    Some(
                        FileEntry {
                            path: memory@.subrange(ptr as int, ptr + len),
                            mode: mode_of(mode).unwrap(),
                            cursor: 0,
                        },
                    ),
                )
            },
    {
        match copy_from_guest(memory, ptr, len) {
            Some(path) => self.open(&path, mode),
            None => FILE_ERROR,
        }
    }

    /// Closes `handle`: 0 and its slot freed, or -1, the table untouched,
    /// where it names no open file.
    pub fn close(&mut self, handle: i32) -> (r: i32)
        requires
            old(self).wf(),
        ensures
            final(self).wf(),
            r == 0 <==> handle_open(old(self)@, handle),
            r == 0 || r == -1,
            r == 0 ==> final(self)@ == old(self)@.update(handle as int, None),
            r == -1 ==> final(self)@ == old(self)@,
    {
        if !self.is_open(handle) {
            return FILE_ERROR;
        }
        let ghost before = self@;
        self.entries.set(handle as usize, None);
        assert(self@ =~= before.update(handle as int, None));
        0
    }

    /// The cursor of `handle`, or -1 where it names no open file.
    pub fn tell(&self, handle: i32) -> (r: i32)
        requires
            self.wf(),
        ensures
            handle_open(self@, handle) ==> r == self@[handle as int].unwrap().cursor,
            !handle_open(self@, handle) ==> r == -1,
    {
        match self.entry(handle) {
            Some(f) => f.cursor,
            None => FILE_ERROR,
        }
    }

    /// Moves the cursor of `handle` to `pos` in a file of `size` bytes: 0, or
    /// -1, the table untouched, where the handle names no open file or `pos`
    /// lies outside 0 ..= `size`.
    pub fn seek(&mut self, handle: i32, pos: i32, size: i32) -> (r: i32)
        requires
            old(self).wf(),
        ensures
            final(self).wf(),
            r == 0 <==> handle_open(old(self)@, handle) && 0 <= pos <= size,
            r == 0 || r == -1,
            r == 0 ==> final(self)@ == old(self)@.update(
                handle as int,
                Some(FileEntry { cursor: pos as int, ..old(self)@[handle as int].unwrap() }),
            ),
            r == -1 ==> final(self)@ == old(self)@,
    {
        if !self.is_open(handle) || pos < 0 || pos > size {
            return FILE_ERROR;
        }
        self.set_cursor(handle as usize, pos);
        0
    }

    /// Moves the cursor of `handle` past `n` bytes just read or written, and
    /// returns `n`; -1, the table untouched, where the handle names no open
    /// file, `n` is negative, or the cursor would pass the largest position.
    pub fn advance(&mut self, handle: i32, n: i32) -> (r: i32)
        requires
            old(self).wf(),
        ensures
            final(self).wf(),
            r != -1 <==> handle_open(old(self)@, handle) && 0 <= n && old(
                self,
            )@[handle as int].unwrap().cursor + n <= MAX_CURSOR,
            r != -1 ==> r == n && final(self)@ == old(self)@.update(
                handle as int,
                Some(
                    FileEntry {
                        cursor: old(self)@[handle as int].unwrap().cursor + n,
                        ..old(self)@[handle as int].unwrap()
                    },
                ),
            ),
            r == -1 ==> final(self)@ == old(self)@,
    {
        if !self.is_open(handle) || n < 0 {
            return FILE_ERROR;
        }
        let cur = self.tell(handle);
        if cur > MAX_CURSOR - n {
            return FILE_ERROR;
        }
        self.set_cursor(handle as usize, cur + n);
        n
    }

    fn set_cursor(&mut self, i: usize, pos: i32)
        requires
            old(self).wf(),
            i < MAX_OPEN_FILES,
            old(self)@[i as int].is_some(),
            0 <= pos,
        ensures
            final(self).wf(),
            final(self)@ == old(self)@.update(
                i as int,
                Some(FileEntry { cursor: pos as int, ..old(self)@[i as int].unwrap() }),
            ),
    {
        let ghost before = self@;
        let g = match &self.entries[i] {
            Some(f) => OpenFile { path: f.path.clone(), mode: f.mode, cursor: pos },
            None => return ,
        };
        self.entries.set(i, Some(g));
        assert(self@ =~= before.update(
            i as int,
            Some(FileEntry { cursor: pos as int, ..before[i as int].unwrap() }),
        ));
    }
}

/// With all four handles in use no slot is free, so an open fails and leaves
/// every open file (its path, mode and cursor) as it was.
pub proof fn lemma_open_when_full(t: Seq<Option<FileEntry>>)
    requires
        t.len() == MAX_OPEN_FILES,
        forall|i: int| 0 <= i < MAX_OPEN_FILES ==> (#[trigger] t[i]).is_some(),
    ensures
        lowest_free(t) == -1,
{
    assert(free_from(t, 4) == -1);
    assert(t[3].is_some() && free_from(t, 3) == -1);
    assert(t[2].is_some() && free_from(t, 2) == -1);
    assert(t[1].is_some() && free_from(t, 1) == -1);
    assert(t[0].is_some());
}

} // verus!
