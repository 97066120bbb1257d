//! Memory protection and mapping: the constants that the kernel's
//! virtual-memory calls take and return.
//!
//! The values are a protocol fixed by the kernel, not a choice made here.

use crate::flags::{combine, decompose, independent, is_single_bit, lemma_round_trip};
use crate::types::{c_int, uintptr_t};
use vstd::prelude::*;

verus! {

/// Pages may not be accessed at all.
pub const PROT_NONE: c_int = 0;

/// Pages may be read.
pub const PROT_READ: c_int = 1;

/// Pages may be written.
pub const PROT_WRITE: c_int = 2;

/// Pages may be executed.
pub const PROT_EXEC: c_int = 4;

/// The mapping is backed by a file. This is the absence of `MAP_ANON`.
pub const MAP_FILE: c_int = 0x0000;

/// Updates to the mapping are visible to other mappings of the same region.
pub const MAP_SHARED: c_int = 0x0001;

/// Updates to the mapping stay private to the caller.
pub const MAP_PRIVATE: c_int = 0x0002;

/// The mapping is backed by no file; its pages start out zeroed.
pub const MAP_ANON: c_int = 0x0020;

/// Another name for `MAP_ANON`.
pub const MAP_ANONYMOUS: c_int = MAP_ANON;

/// The address hint is binding.
pub const MAP_FIXED: c_int = 0x0010;

/// The address that a mapping call returns in place of a mapping when it
/// fails: every bit set.
pub const MAP_FAILED: uintptr_t = !0;

/// Schedule the write-back and return.
pub const MS_ASYNC: c_int = 0x0001;

/// Invalidate other mappings of the same file.
pub const MS_INVALIDATE: c_int = 0x0002;

/// Write back and wait for it to finish.
pub const MS_SYNC: c_int = 0x0004;

/// The access modes that a protection word can grant. `PROT_NONE` is not one
/// of them: it is the word that grants none.
pub open spec fn protection_flags() -> Seq<c_int> {
    seq![PROT_READ, PROT_WRITE, PROT_EXEC]
}

/// The mapping modes that a flag word can ask for. `MAP_FILE` is not one of
/// them: it is zero, and says only that `MAP_ANON` is absent.
pub open spec fn mapping_flags() -> Seq<c_int> {
    seq![MAP_SHARED, MAP_PRIVATE, MAP_FIXED, MAP_ANON]
}

/// The modes that a synchronisation word can ask for.
pub open spec fn sync_flags() -> Seq<c_int> {
    seq![MS_ASYNC, MS_INVALIDATE, MS_SYNC]
}

/// The protection constants are the three lowest bits, one each, and
/// `PROT_NONE` is zero. Any combination of them lies between 0 and 7, well
/// inside a `c_int`.
pub proof fn lemma_protection_bits()
    ensures
        PROT_NONE == 0,
        is_single_bit(PROT_READ),
        is_single_bit(PROT_WRITE),
        is_single_bit(PROT_EXEC),
        PROT_READ & PROT_WRITE == 0,
        PROT_READ & PROT_EXEC == 0,
        PROT_WRITE & PROT_EXEC == 0,
        PROT_READ | PROT_WRITE | PROT_EXEC == 7,
        independent(protection_flags()),
{
    assert(is_single_bit(PROT_READ)) by (bit_vector);
    assert(is_single_bit(PROT_WRITE)) by (bit_vector);
    assert(is_single_bit(PROT_EXEC)) by (bit_vector);
    assert(PROT_READ & PROT_WRITE == 0 && PROT_WRITE & PROT_READ == 0) by (bit_vector);
    assert(PROT_READ & PROT_EXEC == 0 && PROT_EXEC & PROT_READ == 0) by (bit_vector);
    assert(PROT_WRITE & PROT_EXEC == 0 && PROT_EXEC & PROT_WRITE == 0) by (bit_vector);
    assert(PROT_READ | PROT_WRITE | PROT_EXEC == 7) by (bit_vector);
}

/// The mapping-mode constants other than `MAP_FILE` are one bit each, no two
/// the same, and `MAP_FILE` is zero.
pub proof fn lemma_mapping_bits()
    ensures
        MAP_FILE == 0,
        is_single_bit(MAP_SHARED),
        is_single_bit(MAP_PRIVATE),
        is_single_bit(MAP_FIXED),
        is_single_bit(MAP_ANON),
        MAP_SHARED | MAP_PRIVATE | MAP_FIXED | MAP_ANON == 0x33,
        independent(mapping_flags()),
{
    assert(is_single_bit(MAP_SHARED)) by (bit_vector);
    assert(is_single_bit(MAP_PRIVATE)) by (bit_vector);
    assert(is_single_bit(MAP_FIXED)) by (bit_vector);
    assert(is_single_bit(MAP_ANON)) by (bit_vector);
    assert(MAP_SHARED | MAP_PRIVATE | MAP_FIXED | MAP_ANON == 0x33) by (bit_vector);
    assert(MAP_SHARED & MAP_PRIVATE == 0 && MAP_PRIVATE & MAP_SHARED == 0) by (bit_vector);
    assert(MAP_SHARED & MAP_FIXED == 0 && MAP_FIXED & MAP_SHARED == 0) by (bit_vector);
    assert(MAP_SHARED & MAP_ANON == 0 && MAP_ANON & MAP_SHARED == 0) by (bit_vector);
    assert(MAP_PRIVATE & MAP_FIXED == 0 && MAP_FIXED & MAP_PRIVATE == 0) by (bit_vector);
    assert(MAP_PRIVATE & MAP_ANON == 0 && MAP_ANON & MAP_PRIVATE == 0) by (bit_vector);
    assert(MAP_FIXED & MAP_ANON == 0 && MAP_ANON & MAP_FIXED == 0) by (bit_vector);
}

/// The synchronisation constants are the three lowest bits, one each.
pub proof fn lemma_sync_bits()
    ensures
        is_single_bit(MS_ASYNC),
        is_single_bit(MS_INVALIDATE),
        is_single_bit(MS_SYNC),
        MS_ASYNC | MS_INVALIDATE | MS_SYNC == 7,
        independent(sync_flags()),
{
    assert(is_single_bit(MS_ASYNC)) by (bit_vector);
    assert(is_single_bit(MS_INVALIDATE)) by (bit_vector);
    assert(is_single_bit(MS_SYNC)) by (bit_vector);
    assert(MS_ASYNC | MS_INVALIDATE | MS_SYNC == 7) by (bit_vector);
    assert(MS_ASYNC & MS_INVALIDATE == 0 && MS_INVALIDATE & MS_ASYNC == 0) by (bit_vector);
    assert(MS_ASYNC & MS_SYNC == 0 && MS_SYNC & MS_ASYNC == 0) by (bit_vector);
    assert(MS_INVALIDATE & MS_SYNC == 0 && MS_SYNC & MS_INVALIDATE == 0) by (bit_vector);
}

/// The two names of the anonymous mapping mode are one value.
pub proof fn lemma_anonymous_names_agree()
    ensures
        MAP_ANONYMOUS == MAP_ANON,
        MAP_ANONYMOUS == 0x20,
{
}

/// The failure sentinel, read as an integer of pointer width, has every bit
/// of that width set: it is the largest such integer, and its complement is
/// zero.
pub proof fn lemma_map_failed_is_all_ones()
    ensures
        MAP_FAILED == usize::MAX,
        !MAP_FAILED == 0,
        forall|i: u32| i < usize::BITS ==> #[trigger] (MAP_FAILED >> i) & 1 == 1,
{
    let top = usize::MAX;
    assert(top <= !0usize) by (bit_vector);
    assert(!!0usize == 0) by (bit_vector);
    assert(forall|i: u32| i < usize::BITS ==> #[trigger] (!0usize >> i) & 1 == 1) by (bit_vector);
}

/// The word that a set of access modes makes is the plain OR that a caller
/// writes: each mode's constant if the set holds it, `PROT_NONE` if not.
pub proof fn lemma_protection_word(chosen: Set<c_int>)
    ensures
        combine(protection_flags(), chosen) == (if chosen.contains(PROT_READ) {
            PROT_READ
        } else {
            PROT_NONE
        }) | (if chosen.contains(PROT_WRITE) {
            PROT_WRITE
        } else {
            PROT_NONE
        }) | (if chosen.contains(PROT_EXEC) {
            PROT_EXEC
        } else {
            PROT_NONE
        }),
{
    let f3 = protection_flags();
    let f2 = seq![PROT_READ, PROT_WRITE];
    let f1 = seq![PROT_READ];
    assert(f3.drop_last() == f2);
    assert(f2.drop_last() == f1);
    assert(f1.drop_last() == Seq::<c_int>::empty());
    reveal_with_fuel(combine, 4);
    let r = if chosen.contains(PROT_READ) { PROT_READ } else { PROT_NONE };
    let w = if chosen.contains(PROT_WRITE) { PROT_WRITE } else { PROT_NONE };
    let x = if chosen.contains(PROT_EXEC) { PROT_EXEC } else { PROT_NONE };
    assert(combine(f1, chosen) == r) by {
        assert(0i32 | 1i32 == 1i32) by (bit_vector);
    }
    assert(combine(f2, chosen) == r | w) by {
        assert(r | 0i32 == r) by (bit_vector);
    }
    assert(combine(f3, chosen) == r | w | x) by {
        let rw = r | w;
        assert(rw | 0i32 == rw) by (bit_vector);
    }
}

/// Round trip for access modes: a set of them, ORed into a protection word
/// and taken apart again, comes back as it was.
pub proof fn lemma_protection_round_trip(chosen: Set<c_int>)
    requires
        forall|flag: c_int| chosen.contains(flag) ==> protection_flags().contains(flag),
    ensures
        decompose(protection_flags(), combine(protection_flags(), chosen)) == chosen,
{
    lemma_protection_bits();
    lemma_round_trip(protection_flags(), chosen);
}

/// Round trip for mapping modes: a set of them, ORed into a flag word and
/// taken apart again, comes back as it was.
pub proof fn lemma_mapping_round_trip(chosen: Set<c_int>)
    requires
        forall|flag: c_int| chosen.contains(flag) ==> mapping_flags().contains(flag),
    ensures
        decompose(mapping_flags(), combine(mapping_flags(), chosen)) == chosen,
{
    lemma_mapping_bits();
    lemma_round_trip(mapping_flags(), chosen);
}

/// Round trip for synchronisation modes: a set of them, ORed into a word and
/// taken apart again, comes back as it was.
pub proof fn lemma_sync_round_trip(chosen: Set<c_int>)
    requires
        forall|flag: c_int| chosen.contains(flag) ==> sync_flags().contains(flag),
    ensures
        decompose(sync_flags(), combine(sync_flags(), chosen)) == chosen,
{
    lemma_sync_bits();
    lemma_round_trip(sync_flags(), chosen);
}

} // verus!
