use std::mem::size_of;
use theseus_libc::{
    c_int, c_long, c_longlong, c_schar, c_short, c_uchar, c_uint, c_ulong, c_ulonglong, c_ushort,
    intmax_t, intptr_t, off_t, ptrdiff_t, size_t, ssize_t, uintmax_t, uintptr_t, wint_t,
};

#[test]
fn char_names_are_one_byte() {
    assert_eq!(size_of::<c_schar>(), 1);
    assert_eq!(size_of::<c_uchar>(), 1);
    assert_eq!(c_schar::MIN, -128);
    assert_eq!(c_schar::MAX, 127);
    assert_eq!(c_uchar::MIN, 0);
    assert_eq!(c_uchar::MAX, 255);
}

#[test]
fn short_names_are_two_bytes() {
    assert_eq!(size_of::<c_short>(), 2);
    assert_eq!(size_of::<c_ushort>(), 2);
    assert_eq!(c_short::MIN, -32768);
    assert_eq!(c_short::MAX, 32767);
    assert_eq!(c_ushort::MIN, 0);
    assert_eq!(c_ushort::MAX, 65535);
}

#[test]
fn int_names_are_four_bytes() {
    assert_eq!(size_of::<c_int>(), 4);
    assert_eq!(size_of::<c_uint>(), 4);
    assert_eq!(size_of::<wint_t>(), 4);
    assert_eq!(c_int::MIN, -2147483648);
    assert_eq!(c_int::MAX, 2147483647);
    assert_eq!(c_uint::MIN, 0);
    assert_eq!(c_uint::MAX, 4294967295);
    assert_eq!(wint_t::MIN, 0);
    assert_eq!(wint_t::MAX, 4294967295);
}

#[test]
fn long_names_are_eight_bytes() {
    assert_eq!(size_of::<c_long>(), 8);
    assert_eq!(size_of::<c_ulong>(), 8);
    assert_eq!(size_of::<c_longlong>(), 8);
    assert_eq!(size_of::<c_ulonglong>(), 8);
    assert_eq!(size_of::<intmax_t>(), 8);
    assert_eq!(size_of::<uintmax_t>(), 8);
    assert_eq!(size_of::<off_t>(), 8);
    assert_eq!(c_long::MIN, -9223372036854775808);
    assert_eq!(c_long::MAX, 9223372036854775807);
    assert_eq!(c_ulong::MIN, 0);
    assert_eq!(c_ulong::MAX, 18446744073709551615);
    assert_eq!(c_longlong::MIN, c_long::MIN);
    assert_eq!(c_longlong::MAX, c_long::MAX);
    assert_eq!(c_ulonglong::MAX, c_ulong::MAX);
    assert_eq!(intmax_t::MIN, c_long::MIN);
    assert_eq!(intmax_t::MAX, c_long::MAX);
    assert_eq!(uintmax_t::MAX, c_ulong::MAX);
    assert_eq!(off_t::MIN, c_long::MIN);
    assert_eq!(off_t::MAX, c_long::MAX);
}

#[test]
fn pointer_names_are_as_wide_as_an_address() {
    let width = size_of::<&u8>();
    assert_eq!(size_of::<size_t>(), width);
    assert_eq!(size_of::<uintptr_t>(), width);
    assert_eq!(size_of::<ssize_t>(), width);
    assert_eq!(size_of::<ptrdiff_t>(), width);
    assert_eq!(size_of::<intptr_t>(), width);
    assert_eq!(size_of::<size_t>() * 8, usize::BITS as usize);
}

#[test]
fn pointer_names_keep_their_signedness() {
    assert_eq!(size_t::MIN, 0);
    assert_eq!(uintptr_t::MIN, 0);
    assert_eq!(uintptr_t::MAX, size_t::MAX);
    assert!(ssize_t::MIN < 0);
    assert!(ptrdiff_t::MIN < 0);
    assert!(intptr_t::MIN < 0);
    assert_eq!(ssize_t::MIN, -ssize_t::MAX - 1);
    assert_eq!(ptrdiff_t::MIN, ssize_t::MIN);
    assert_eq!(ptrdiff_t::MAX, ssize_t::MAX);
    assert_eq!(intptr_t::MIN, ssize_t::MIN);
    assert_eq!(intptr_t::MAX, ssize_t::MAX);
    assert_eq!(size_t::MAX / 2, ssize_t::MAX as size_t);
}

#[test]
fn pointer_names_are_eight_bytes_on_64_bit() {
    if usize::BITS == 64 {
        assert_eq!(size_of::<size_t>(), 8);
        assert_eq!(size_of::<ssize_t>(), 8);
        assert_eq!(size_t::MAX as u64, c_ulong::MAX);
        assert_eq!(ssize_t::MAX as i64, c_long::MAX);
        assert_eq!(ssize_t::MIN as i64, c_long::MIN);
    }
}
