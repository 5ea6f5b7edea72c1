//! The guard that keeps a foreign handle from being finalized while a call
//! uses it.

use vstd::prelude::*;

verus! {

/// A hold on a foreign handle. The driver marks the handle as in use while it
/// makes the call that the guard came with, and takes the mark back
/// afterwards, so that a deletion asked for during the call is put off to
/// its end.
#[derive(Debug)]
pub struct Preserve {
    ptr: usize,
}

impl View for Preserve {
    type V = usize;

    closed spec fn view(&self) -> usize {
        self.ptr
    }
}

impl Preserve {
    /// A guard for the handle at `ptr`.
    pub fn new(ptr: usize) -> (guard: Preserve)
        ensures
            guard@ == ptr,
    {
        Preserve { ptr }
    }

    /// The handle that this guard protects. It is good for as long as the
    /// guard is held, and no longer.
    pub fn as_ptr(&self) -> (ptr: usize)
        ensures
            ptr == self@,
    {
        self.ptr
    }
}

} // verus!
