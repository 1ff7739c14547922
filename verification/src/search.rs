use vstd::prelude::*;

use crate::native::SpSearchType;

verus! {

/// A search made through the native library, held by its native handle.
#[derive(Debug, Clone, Copy, PartialEq, Eq, Structural)]
pub struct Search {
    ptr: usize,
}

impl View for Search {
    type V = usize;

    /// The native handle.
    closed spec fn view(&self) -> usize {
        self.ptr
    }
}

impl Search {
    /// The search behind the native handle `ptr`.
    pub fn new(ptr: usize) -> (search: Search)
        ensures
            search@ == ptr,
    {
        Search { ptr }
    }

    /// The native handle of this search.
    pub fn ptr(&self) -> (ptr: usize)
        ensures
            ptr == self@,
    {
        self.ptr
    }
}

/// The pages of results that a search asks the native library for.
#[derive(Debug, Clone, Copy, PartialEq, Eq, Structural)]
pub struct SearchRequest {
    pub track_offset: i32,
    pub track_count: i32,
    pub album_offset: i32,
    pub album_count: i32,
    pub artist_offset: i32,
    pub artist_count: i32,
    pub playlist_offset: i32,
    pub playlist_count: i32,
    pub search_type: SpSearchType,
}

impl SearchRequest {
    /// A standard search for the first hundred tracks, and for no albums,
    /// artists or playlists.
    pub fn tracks_only() -> (request: SearchRequest)
        ensures
            request.track_offset == 0,
            request.track_count == 100,
            request.album_offset == 0,
            request.album_count == 0,
            request.artist_offset == 0,
            request.artist_count == 0,
            request.playlist_offset == 0,
            request.playlist_count == 0,
            request.search_type == SpSearchType::SpSearchStandard,
    {
        SearchRequest {
            track_offset: 0,
            track_count: 100,
            album_offset: 0,
            album_count: 0,
            artist_offset: 0,
            artist_count: 0,
            playlist_offset: 0,
            playlist_count: 0,
            search_type: SpSearchType::SpSearchStandard,
        }
    }
}

} // verus!
