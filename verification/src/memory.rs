//! Primitives that write host bytes into guest memory at a
//! host-supplied offset.

use vstd::prelude::*;
use vstd::string::StringSliceAdditionalSpecFns;
use vstd::utf8::valid_utf8;
use crate::error::MarshalError;
use crate::instance::{EmscriptenRuntime, Instance, allocate_on_stack, reserve_heap};

verus! {

/// Relies on `core::str::from_utf8`: it returns `Ok` exactly on the byte
/// sequences that are valid UTF-8.
#[verifier::external_body]
fn utf8_check(bytes: &[u8]) -> (r: bool)
    ensures
        r == valid_utf8(bytes@),
{
    core::str::from_utf8(bytes).is_ok()
}

/// Copies the first `max` bytes of `source` into guest memory 0 starting
/// at offset `buf`, and returns `buf` for chaining. The caller guarantees
/// that `source` holds at least `max` bytes and that the destination
/// range lies within the memory's bounds.
pub fn write_to_buf<R>(source: &[u8], buf: u32, max: u32, instance: &mut Instance<R>) -> (r: u32)
    requires
        max as int <= source@.len(),
        buf as int + max as int <= old(instance).memory@.len(),
    ensures
        r == buf,
        final(instance).memory@.len() == old(instance).memory@.len(),
        final(instance).emscripten_data == old(instance).emscripten_data,
        forall|i: int|
            0 <= i < max as int ==> final(instance).memory@[buf as int + i] == source@[i],
        forall|i: int|
            0 <= i < old(instance).memory@.len() && !(buf as int <= i < buf as int + max as int)
                ==> final(instance).memory@[i] == old(instance).memory@[i],
{
    let mem_len: usize = instance.memory.len();
    let mut i: u32 = 0;
    while i < max
        invariant
            max as int <= source@.len(),
            buf as int + max as int <= instance.memory@.len(),
            instance.memory@.len() == mem_len,
            0 <= i <= max,
            instance.memory@.len() == old(instance).memory@.len(),
            instance.emscripten_data == old(instance).emscripten_data,
            forall|j: int| 0 <= j < i as int ==> instance.memory@[buf as int + j] == source@[j],
            forall|j: int|
                0 <= j < old(instance).memory@.len() && !(buf as int <= j < buf as int + i as int)
                    ==> instance.memory@[j] == old(instance).memory@[j],
        decreases max - i,
    {
        let b: u8 = *vstd::slice::slice_index_get(source, i as usize);
        let idx: usize = buf as usize + i as usize;
        vstd::pervasive::VecAdditionalExecFns::set(&mut instance.memory, idx, b);
        i = i + 1;
    }
    buf
}

/// Copies a host string's bytes into freshly heap-allocated guest memory
/// as a null-terminated C string and returns the allocated offset.
///
/// `cstr` holds the host string's bytes with the terminator excluded
/// (reading a raw, possibly unterminated host pointer up to its
/// terminator is the caller's edge, not this crate's). Bytes that are not
/// valid UTF-8 are rejected as a `Decoding` failure before anything is
/// allocated or written; an allocator offset that does not resolve within
/// the memory's bounds is propagated as `OutOfBounds`. On success,
/// exactly `len + 1` bytes stand at the returned offset: the string's
/// bytes followed by a single zero byte.
pub fn copy_cstr_into_wasm<R: EmscriptenRuntime>(
    instance: &mut Instance<R>,
    cstr: &[u8],
) -> (r: Result<u32, MarshalError>)
    requires
        old(instance).emscripten_data is Some,
        cstr@.len() + 1 <= u32::MAX,
    ensures
        final(instance).memory@.len() == old(instance).memory@.len(),
        final(instance).emscripten_data is Some,
        !valid_utf8(cstr@) ==> r == Err::<u32, MarshalError>(MarshalError::Decoding),
        match r {
            Ok(off) => {
                &&& valid_utf8(cstr@)
                &&& off as int + cstr@.len() + 1 <= final(instance).memory@.len()
                &&& final(instance).memory@.subrange(off as int, off as int + cstr@.len() as int)
                    == cstr@
                &&& final(instance).memory@[off as int + cstr@.len() as int] == 0
                &&& forall|i: int|
                    0 <= i < final(instance).memory@.len() && !(off as int <= i < off as int
                        + cstr@.len() + 1) ==> final(instance).memory@[i]
                        == old(instance).memory@[i]
            },
            Err(e) => {
                &&& final(instance).memory@ == old(instance).memory@
                &&& (e is Decoding <==> !valid_utf8(cstr@))
            },
        },
{
    if !utf8_check(cstr) {
        return Err(MarshalError::Decoding);
    }
    let cstr_len: u32 = cstr.len() as u32;
    let space_offset: u32 = reserve_heap(cstr_len + 1, instance);
    if (space_offset as u64) + (cstr_len as u64) + 1 <= (instance.memory.len() as u64) {
        write_to_buf(cstr, space_offset, cstr_len, instance);
        let terminator_at: usize = space_offset as usize + cstr_len as usize;
        vstd::pervasive::VecAdditionalExecFns::set(&mut instance.memory, terminator_at, 0u8);
        assert(instance.memory@.subrange(
            space_offset as int,
            space_offset as int + cstr@.len() as int,
        ) =~= cstr@);
        Ok(space_offset)
    } else {
        Err(MarshalError::OutOfBounds)
    }
}

/// Copies an already-validated, explicitly-sized host string into freshly
/// stack-allocated guest memory, appending the terminating zero byte
/// itself, and returns both the allocated offset and a bounded view over
/// the written region: the string's bytes followed by a single zero byte,
/// `len + 1` bytes in all.
///
/// An allocator offset that does not resolve within the memory's bounds
/// is propagated as `OutOfBounds`, and nothing is written.
pub fn allocate_cstr_on_stack<R: EmscriptenRuntime>(
    s: &str,
    instance: &mut Instance<R>,
) -> (r: Result<(u32, Vec<u8>), MarshalError>)
    requires
        old(instance).emscripten_data is Some,
        s.spec_bytes().len() + 1 <= u32::MAX,
    ensures
        final(instance).memory@.len() == old(instance).memory@.len(),
        final(instance).emscripten_data is Some,
        match r {
            Ok((off, view)) => {
                &&& view@ == s.spec_bytes() + seq![0u8]
                &&& off as int + s.spec_bytes().len() + 1 <= final(instance).memory@.len()
                &&& final(instance).memory@.subrange(
                    off as int,
                    off as int + s.spec_bytes().len() + 1,
                ) == view@
                &&& forall|i: int|
                    0 <= i < final(instance).memory@.len() && !(off as int <= i < off as int
                        + s.spec_bytes().len() + 1) ==> final(instance).memory@[i]
                        == old(instance).memory@[i]
            },
            Err(e) => {
                &&& e is OutOfBounds
                &&& final(instance).memory@ == old(instance).memory@
            },
        },
{
    let bytes: &[u8] = s.as_bytes();
    let len: u32 = bytes.len() as u32;
    match allocate_on_stack(len + 1, 1, instance) {
        Ok((offset, _)) => {
            write_to_buf(bytes, offset, len, instance);
            let _mem_len: usize = instance.memory.len();
            let terminator_at: usize = offset as usize + len as usize;
            vstd::pervasive::VecAdditionalExecFns::set(&mut instance.memory, terminator_at, 0u8);
            let mut view: Vec<u8> = vstd::slice::slice_to_vec(bytes);
            view.push(0u8);
            assert(view@ =~= s.spec_bytes() + seq![0u8]);
            assert(instance.memory@.subrange(
                offset as int,
                offset as int + s.spec_bytes().len() + 1,
            ) =~= view@);
            Ok((offset, view))
        },
        Err(e) => Err(e),
    }
}

/// Law: a C string successfully copied into guest memory reads back
/// unchanged. The hypotheses are exactly what [`copy_cstr_into_wasm`]
/// ensures of the region at the returned offset, and the conclusion is
/// the region that [`crate::instance::read_region`] hands back over
/// `len + 1` bytes: the string's bytes followed by the terminator.
pub proof fn lemma_cstr_round_trip(mem: Seq<u8>, cstr: Seq<u8>, off: int)
    requires
        0 <= off,
        off + cstr.len() + 1 <= mem.len(),
        mem.subrange(off, off + cstr.len() as int) == cstr,
        mem[off + cstr.len() as int] == 0,
    ensures
        mem.subrange(off, off + cstr.len() as int + 1) == cstr + seq![0u8],
{
    assert forall|i: int| 0 <= i < cstr.len() implies mem[off + i] == cstr[i] by {
        assert(mem.subrange(off, off + cstr.len() as int)[i] == mem[off + i]);
    }
    assert(mem.subrange(off, off + cstr.len() as int + 1) =~= cstr + seq![0u8]);
}

/// True iff `entries[n]` is the array's null terminator and no earlier
/// entry is null: `n` is then the entry count the scan must report.
pub open spec fn is_first_null(entries: Seq<u64>, n: int) -> bool {
    &&& 0 <= n < entries.len()
    &&& entries[n] == 0
    &&& forall|j: int| 0 <= j < n ==> entries[j] != 0
}

/// Counts the entries of a null-terminated array of host C-string
/// pointer values, up to but not including the terminator. No entry past
/// the terminator is inspected. A terminator must be reachable: an
/// unterminated array is undefined host input and is ruled out by the
/// precondition rather than scanned without bound.
pub fn count_cstr_array_entries(entries: &Vec<u64>) -> (n: u32)
    requires
        exists|i: int| 0 <= i < entries@.len() && entries@[i] == 0,
        entries@.len() <= u32::MAX,
    ensures
        is_first_null(entries@, n as int),
{
    let mut i: u32 = 0;
    loop
        invariant
            exists|k: int| 0 <= k < entries@.len() && entries@[k] == 0,
            entries@.len() <= u32::MAX,
            0 <= i <= entries@.len(),
            forall|j: int| 0 <= j < i as int ==> entries@[j] != 0,
        decreases entries@.len() - i as int,
    {
        proof {
            let k = choose|k: int| 0 <= k < entries@.len() && entries@[k] == 0;
            assert(i as int <= k);
        }
        if entries[i as usize] == 0 {
            return i;
        }
        i = i + 1;
    }
}

/// Counts the entries of a null-terminated host array of C-string pointer
/// values. The array contents are not marshaled into guest memory: the
/// call reports the fixed sentinel offset `0`, and guest memory is left
/// untouched. The count itself is exposed through
/// [`count_cstr_array_entries`] for callers that subscribe to it.
pub fn copy_terminated_array_of_cstrs<R>(
    _instance: &mut Instance<R>,
    cstrs: &Vec<u64>,
) -> (r: u32)
    requires
        exists|i: int| 0 <= i < cstrs@.len() && cstrs@[i] == 0,
        cstrs@.len() <= u32::MAX,
    ensures
        r == 0,
        final(_instance).memory@ == old(_instance).memory@,
        final(_instance).emscripten_data == old(_instance).emscripten_data,
{
    let _total_num: u32 = count_cstr_array_entries(cstrs);
    0
}

} // verus!
