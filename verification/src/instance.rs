//! The live guest program this crate borrows, and the bridge to the
//! guest's own exported allocation routines.

use vstd::prelude::*;
use crate::error::MarshalError;

verus! {

/// The guest's exported allocation entry points, resolved once when the
/// Emscripten runtime data is attached to an instance.
///
/// The guest owns its own heap and stack layout: the host never allocates
/// guest memory itself, it can only ask the guest's allocator to carve out
/// space. Nothing is promised of the returned offsets — in particular `0`
/// is the guest convention's "allocation failed" sentinel and is passed
/// through unchanged, and an offset is not known to lie within the
/// memory's bounds until the caller checks it.
pub trait EmscriptenRuntime {
    /// Asks the guest's `malloc`-equivalent export for `byte_count` bytes.
    fn malloc(&mut self, byte_count: u32) -> u32;

    /// Asks the guest's stack-allocation export for `byte_count` bytes.
    fn stack_alloc(&mut self, byte_count: u32) -> u32;
}

/// A live, running guest program: its linear memory 0 as a flat byte
/// buffer, and the optionally attached Emscripten runtime data. This
/// crate borrows an instance for the duration of one call; it never owns
/// one.
pub struct Instance<R> {
    pub memory: Vec<u8>,
    pub emscripten_data: Option<R>,
}

/// Asks the guest's registered `malloc` export for `byte_count` bytes and
/// propagates whatever offset it returns (`0`, the guest's "allocation
/// failed" sentinel, included). Guest memory itself is not touched.
///
/// Calling this on an instance without attached Emscripten runtime data
/// is a programming error; the precondition rules it out, so no spurious
/// offset can ever be returned for such an instance.
pub fn reserve_heap<R: EmscriptenRuntime>(byte_count: u32, instance: &mut Instance<R>) -> (r: u32)
    requires
        old(instance).emscripten_data is Some,
    ensures
        final(instance).memory@ == old(instance).memory@,
        final(instance).emscripten_data is Some,
{
    match &mut instance.emscripten_data {
        Some(rt) => rt.malloc(byte_count),
        None => vstd::pervasive::unreached(),
    }
}

/// Copies `mem[off .. off + len]` out as an owned byte view: the read
/// counterpart of the memory-writing primitives, bounds-checked by the
/// precondition.
pub fn read_region(mem: &Vec<u8>, off: usize, len: usize) -> (r: Vec<u8>)
    requires
        off + len <= mem@.len(),
    ensures
        r@ == mem@.subrange(off as int, off as int + len as int),
{
    let mem_len: usize = mem.len();
    let mut r: Vec<u8> = Vec::new();
    let mut i: usize = 0;
    while i < len
        invariant
            off + len <= mem@.len(),
            mem@.len() == mem_len,
            0 <= i <= len,
            r@ == mem@.subrange(off as int, off as int + i as int),
        decreases len - i,
    {
        let idx: usize = off + i;
        r.push(mem[idx]);
        assert(r@ =~= mem@.subrange(off as int, off as int + (i + 1) as int));
        i = i + 1;
    }
    r
}

/// Asks the guest's registered stack-allocation export for
/// `count * elem_size` bytes, resolves the returned offset to a bounded
/// view over exactly `count` elements of `elem_size` bytes each, and
/// returns both. Guest memory itself is not modified.
///
/// If the offset the guest allocator hands back does not resolve within
/// the memory's bounds, the instance collaborator's report is propagated
/// as `OutOfBounds`.
///
/// Calling this on an instance without attached Emscripten runtime data
/// is a programming error; the precondition rules it out, so no spurious
/// offset can ever be returned for such an instance.
pub fn allocate_on_stack<R: EmscriptenRuntime>(
    count: u32,
    elem_size: u32,
    instance: &mut Instance<R>,
) -> (r: Result<(u32, Vec<u8>), MarshalError>)
    requires
        old(instance).emscripten_data is Some,
        count * elem_size <= u32::MAX,
    ensures
        final(instance).memory@ == old(instance).memory@,
        final(instance).emscripten_data is Some,
        match r {
            Ok((off, view)) => {
                &&& off as int + count as int * elem_size as int <= final(instance).memory@.len()
                &&& view@ == final(instance).memory@.subrange(
                    off as int,
                    off as int + count as int * elem_size as int,
                )
                &&& view@.len() == count as int * elem_size as int
            },
            Err(e) => e is OutOfBounds,
        },
{
    let total: u32 = count * elem_size;
    let off: u32 = match &mut instance.emscripten_data {
        Some(rt) => rt.stack_alloc(total),
        None => vstd::pervasive::unreached(),
    };
    if (off as u64) + (total as u64) <= (instance.memory.len() as u64) {
        let view = read_region(&instance.memory, off as usize, total as usize);
        Ok((off, view))
    } else {
        Err(MarshalError::OutOfBounds)
    }
}

} // verus!
