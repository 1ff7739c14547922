use vstd::prelude::*;

use crate::native::index_range;

verus! {

/// A playlist known to the native library, held by its native handle.
#[derive(Debug, Clone, Copy, PartialEq, Eq, Structural)]
pub struct Playlist {
    ptr: usize,
}

impl View for Playlist {
    type V = usize;

    /// The native handle.
    closed spec fn view(&self) -> usize {
        self.ptr
    }
}

impl Playlist {
    /// The playlist behind the native handle `ptr`.
    pub fn new(ptr: usize) -> (playlist: Playlist)
        ensures
            playlist@ == ptr,
    {
        Playlist { ptr }
    }

    /// The native handle of this playlist.
    pub fn ptr(&self) -> (ptr: usize)
        ensures
            ptr == self@,
    {
        self.ptr
    }

    /// Whether a playlist that reports `number_of_tracks` tracks has a track at
    /// `index`: every index below the count is asked for, the others are not.
    pub fn has_track(index: i32, number_of_tracks: i32) -> (present: bool)
        ensures
            present == (index < number_of_tracks),
    {
        index < number_of_tracks
    }
}

/// The positions that are walked to list a playlist's tracks are exactly the
/// non-negative positions at which the playlist has a track.
pub proof fn listed_positions_have_tracks(number_of_tracks: i32, index: i32)
    ensures
        index_range(number_of_tracks).contains(index) <==> (0 <= index && index < number_of_tracks),
{
    if 0 <= index && index < number_of_tracks {
        assert(index_range(number_of_tracks)[index as int] == index);
    }
}

} // verus!
