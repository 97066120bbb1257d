//! Opaque handle types.
//!
//! A handle stands for a resource that the runtime owns. It is only ever held
//! behind a reference that the runtime handed out, and the address of that
//! reference is the identity of the resource. No value of a handle type can be
//! built or taken apart on this side of the boundary.

use core::convert::Infallible;
use vstd::pervasive::cloned;
use vstd::prelude::*;

verus! {

/// A stream, as the C runtime knows it.
#[allow(missing_debug_implementations)]
pub enum FILE {
    /// Holds a value of a type that has none, so this variant is never built.
    Opaque(Infallible),
}

impl Copy for FILE {}

impl Clone for FILE {
    /// Duplicates the handle. The duplicate is the handle itself: there is no
    /// hidden state that a copy could fail to carry.
    fn clone(&self) -> (copy: FILE)
        ensures
            copy == *self,
    {
        *self
    }
}

/// A position within a stream, as the C runtime knows it.
#[allow(non_camel_case_types)]
#[allow(missing_debug_implementations)]
pub enum fpos_t {
    /// Holds a value of a type that has none, so this variant is never built.
    Opaque(Infallible),
}

impl Copy for fpos_t {}

impl Clone for fpos_t {
    /// Duplicates the handle. The duplicate is the handle itself: there is no
    /// hidden state that a copy could fail to carry.
    fn clone(&self) -> (copy: fpos_t)
        ensures
            copy == *self,
    {
        *self
    }
}

/// Whatever number of times a stream handle is duplicated, every duplicate is
/// the handle that was duplicated, so any two of them name the same stream.
pub proof fn lemma_file_duplicates_agree(handle: FILE, first: FILE, second: FILE)
    requires
        cloned(handle, first),
        cloned(handle, second),
    ensures
        first == handle,
        second == handle,
        first == second,
{
}

/// Whatever number of times a position handle is duplicated, every duplicate
/// is the handle that was duplicated, so any two of them name the same
/// position.
pub proof fn lemma_fpos_duplicates_agree(handle: fpos_t, first: fpos_t, second: fpos_t)
    requires
        cloned(handle, first),
        cloned(handle, second),
    ensures
        first == handle,
        second == handle,
        first == second,
{
}

} // verus!
