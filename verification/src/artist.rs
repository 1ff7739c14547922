use vstd::prelude::*;

verus! {

/// An artist known to the native library, held by its native handle.
#[derive(Debug, Clone, Copy, PartialEq, Eq, Structural)]
pub struct Artist {
    ptr: usize,
}

impl View for Artist {
    type V = usize;

    /// The native handle.
    closed spec fn view(&self) -> usize {
        self.ptr
    }
}

impl Artist {
    /// The artist behind the native handle `ptr`.
    pub fn new(ptr: usize) -> (artist: Artist)
        ensures
            artist@ == ptr,
    {
        Artist { ptr }
    }

    /// The native handle of this artist.
    pub fn ptr(&self) -> (ptr: usize)
        ensures
            ptr == self@,
    {
        self.ptr
    }
}

} // verus!
