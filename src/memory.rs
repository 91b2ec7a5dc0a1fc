//! Buffers across the sandbox edge: a guest hands a pointer and a length into
//! its own linear memory, and the host checks the span against that memory
//! before it reads or writes a byte.
use vstd::prelude::*;

verus! {

/// Whether `ptr` and `len` name a span that lies inside a memory of
/// `mem_len` bytes.
pub open spec fn span_inside(mem_len: int, ptr: int, len: int) -> bool {
    0 <= ptr && 0 <= len && ptr + len <= mem_len
}

/// Whether the span `ptr`, `len` lies inside `memory`.
pub fn span_in_bounds(memory: &Vec<u8>, ptr: i32, len: i32) -> (r: bool)
    ensures
        r == span_inside(memory@.len() as int, ptr as int, len as int),
{
    ptr >= 0 && len >= 0 && (ptr as usize) <= memory.len() && (len as usize) <= memory.len()
        - ptr as usize
}

/// A copy of the span `ptr`, `len` of `memory`, or `None` where the span does
/// not lie inside it.
pub fn copy_from_guest(memory: &Vec<u8>, ptr: i32, len: i32) -> (r: Option<Vec<u8>>)
    ensures
        r.is_some() == span_inside(memory@.len() as int, ptr as int, len as int),
        r.is_some() ==> r.unwrap()@ == memory@.subrange(ptr as int, ptr + len),
{
    if !span_in_bounds(memory, ptr, len) {
        return None;
    }
    let start = ptr as usize;
    let end = start + len as usize;
    let mut out: Vec<u8> = Vec::new();
    let mut i: usize = start;
    while i < end
        invariant
            start <= i <= end,
            end <= memory@.len(),
            start == ptr,
            end == ptr + len,
            out@ == memory@.subrange(start as int, i as int),
        decreases end - i,
    {
        out.push(memory[i]);
        i = i + 1;
        assert(out@ =~= memory@.subrange(start as int, i as int));
    }
    Some(out)
}

/// Copies `data` into `memory` at `ptr`, at most `max_len` bytes of it;
/// returns how many bytes were copied, or -1 (memory untouched) where the
/// span `ptr`, `max_len` does not lie inside the memory.
pub fn copy_to_guest(memory: &mut Vec<u8>, ptr: i32, max_len: i32, data: &Vec<u8>) -> (r: i32)
    ensures
        !span_inside(old(memory)@.len() as int, ptr as int, max_len as int) ==> r == -1
            && final(memory)@ == old(memory)@,
        span_inside(old(memory)@.len() as int, ptr as int, max_len as int) ==> {
            &&& r as int == if data@.len() < max_len { data@.len() as int } else { max_len as int }
            &&& final(memory)@ == old(memory)@.subrange(0, ptr as int) + data@.subrange(0, r as int)
                + old(memory)@.subrange(ptr + r, old(memory)@.len() as int)
        },
{
    if !span_in_bounds(memory, ptr, max_len) {
        return -1;
    }
    let n: usize = if data.len() < max_len as usize {
        data.len()
    } else {
        max_len as usize
    };
    let start = ptr as usize;
    let ghost before = memory@;
    let mlen = memory.len();
    let mut i: usize = 0;
    while i < n
        invariant
            n <= data@.len(),
            start + n <= mlen,
            mlen == before.len(),
            start == ptr,
            i <= n,
            memory@.len() == before.len(),
            memory@ == before.subrange(0, start as int) + data@.subrange(0, i as int)
                + before.subrange(start + i, before.len() as int),
        decreases n - i,
    {
        memory.set(start + i, data[i]);
        i = i + 1;
        assert(memory@ =~= before.subrange(0, start as int) + data@.subrange(0, i as int)
            + before.subrange(start + i, before.len() as int));
    }
    n as i32
}

} // verus!
