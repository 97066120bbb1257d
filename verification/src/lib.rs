//! C ABI definitions for Theseus OS on x86_64: the scalar type table, the
//! opaque stream handles and the memory-mapping constants, together with
//! proofs of the properties that callers rely on.

pub mod flags;
pub mod handles;
pub mod mm;
pub mod types;

pub use handles::{fpos_t, FILE};
pub use mm::{
    MAP_ANON, MAP_ANONYMOUS, MAP_FAILED, MAP_FILE, MAP_FIXED, MAP_PRIVATE, MAP_SHARED, MS_ASYNC,
    MS_INVALIDATE, MS_SYNC, PROT_EXEC, PROT_NONE, PROT_READ, PROT_WRITE,
};
pub use types::{
    c_int, c_long, c_longlong, c_schar, c_short, c_uchar, c_uint, c_ulong, c_ulonglong, c_ushort,
    intmax_t, intptr_t, off_t, ptrdiff_t, size_t, ssize_t, uintmax_t, uintptr_t, wint_t,
};
