//! The scalar type table: each C scalar name, bound to the Rust type that has
//! the width and signedness which the x86_64 C compiler gives that name.
//!
//! Nothing here runs. The table is right or wrong at build time, and a wrong
//! entry would corrupt every call that crosses the boundary, so the widths and
//! ranges are stated once, below, and proved.

use vstd::layout::size_of;
use vstd::prelude::*;

verus! {

#[allow(non_camel_case_types)]
pub type c_schar = i8;

#[allow(non_camel_case_types)]
pub type c_uchar = u8;

#[allow(non_camel_case_types)]
pub type c_short = i16;

#[allow(non_camel_case_types)]
pub type c_ushort = u16;

#[allow(non_camel_case_types)]
pub type c_int = i32;

#[allow(non_camel_case_types)]
pub type c_uint = u32;

#[allow(non_camel_case_types)]
pub type c_longlong = i64;

#[allow(non_camel_case_types)]
pub type c_ulonglong = u64;

#[allow(non_camel_case_types)]
pub type intmax_t = i64;

#[allow(non_camel_case_types)]
pub type uintmax_t = u64;

#[allow(non_camel_case_types)]
pub type size_t = usize;

#[allow(non_camel_case_types)]
pub type ptrdiff_t = isize;

#[allow(non_camel_case_types)]
pub type intptr_t = isize;

#[allow(non_camel_case_types)]
pub type uintptr_t = usize;

#[allow(non_camel_case_types)]
pub type ssize_t = isize;

#[allow(non_camel_case_types)]
pub type c_long = i64;

#[allow(non_camel_case_types)]
pub type c_ulong = u64;

#[allow(non_camel_case_types)]
pub type off_t = i64;

#[allow(non_camel_case_types)]
pub type wint_t = u32;

/// The names of fixed width: each occupies as many bytes, and holds exactly
/// the integers, that the x86_64 C ABI gives the C type of that name.
pub proof fn lemma_fixed_width_scalars()
    ensures
        size_of::<c_schar>() == 1 && c_schar::MIN == -0x80 && c_schar::MAX == 0x7f,
        size_of::<c_uchar>() == 1 && c_uchar::MIN == 0 && c_uchar::MAX == 0xff,
        size_of::<c_short>() == 2 && c_short::MIN == -0x8000 && c_short::MAX == 0x7fff,
        size_of::<c_ushort>() == 2 && c_ushort::MIN == 0 && c_ushort::MAX == 0xffff,
        size_of::<c_int>() == 4 && c_int::MIN == -0x8000_0000 && c_int::MAX == 0x7fff_ffff,
        size_of::<c_uint>() == 4 && c_uint::MIN == 0 && c_uint::MAX == 0xffff_ffff,
        size_of::<wint_t>() == 4 && wint_t::MIN == 0 && wint_t::MAX == 0xffff_ffff,
        size_of::<c_long>() == 8 && c_long::MIN == -0x8000_0000_0000_0000 && c_long::MAX
            == 0x7fff_ffff_ffff_ffff,
        size_of::<c_ulong>() == 8 && c_ulong::MIN == 0 && c_ulong::MAX == 0xffff_ffff_ffff_ffff,
        size_of::<c_longlong>() == 8 && c_longlong::MIN == c_long::MIN && c_longlong::MAX
            == c_long::MAX,
        size_of::<c_ulonglong>() == 8 && c_ulonglong::MIN == 0 && c_ulonglong::MAX
            == c_ulong::MAX,
        size_of::<intmax_t>() == 8 && intmax_t::MIN == c_long::MIN && intmax_t::MAX
            == c_long::MAX,
        size_of::<uintmax_t>() == 8 && uintmax_t::MIN == 0 && uintmax_t::MAX == c_ulong::MAX,
        size_of::<off_t>() == 8 && off_t::MIN == c_long::MIN && off_t::MAX == c_long::MAX,
{
    broadcast use vstd::layout::layout_of_primitives;

}

/// The names of pointer width: each occupies exactly as many bits as an
/// address does, the unsigned ones start at zero, and the signed ones split
/// the same number of values evenly around zero.
pub proof fn lemma_pointer_width_scalars()
    ensures
        size_of::<size_t>() * 8 == usize::BITS,
        size_of::<uintptr_t>() == size_of::<size_t>(),
        size_of::<ssize_t>() == size_of::<size_t>(),
        size_of::<ptrdiff_t>() == size_of::<size_t>(),
        size_of::<intptr_t>() == size_of::<size_t>(),
        size_t::MIN == 0 && uintptr_t::MIN == 0,
        uintptr_t::MAX == size_t::MAX,
        ssize_t::MIN == -ssize_t::MAX - 1 && size_t::MAX == 2 * ssize_t::MAX + 1,
        ptrdiff_t::MIN == ssize_t::MIN && ptrdiff_t::MAX == ssize_t::MAX,
        intptr_t::MIN == ssize_t::MIN && intptr_t::MAX == ssize_t::MAX,
{
    broadcast use vstd::layout::layout_of_primitives;

}

/// On a target with 64-bit addresses, which x86_64 is, the names of pointer
/// width occupy eight bytes and have the ranges of `c_ulong` and `c_long`.
pub proof fn lemma_pointer_width_scalars_on_64_bit()
    requires
        usize::BITS == 64,
    ensures
        size_of::<size_t>() == 8 && size_t::MAX == c_ulong::MAX,
        size_of::<ssize_t>() == 8 && ssize_t::MIN == c_long::MIN && ssize_t::MAX == c_long::MAX,
{
    broadcast use vstd::layout::layout_of_primitives;

}

} // verus!
