use vstd::prelude::*;

use crate::text::{join, joined, texts};

verus! {

/// A track known to the native library, held by its native handle.
#[derive(Debug, Clone, Copy, PartialEq, Eq, Structural)]
pub struct Track {
    ptr: usize,
}

impl View for Track {
    type V = usize;

    /// The native handle.
    closed spec fn view(&self) -> usize {
        self.ptr
    }
}

/// The number of milliseconds that a duration reported by the native library
/// stands for: the reported value read as an unsigned 64-bit number, so that a
/// negative report wraps round.
pub open spec fn duration_millis_of(raw: i32) -> int {
    if raw >= 0 {
        raw as int
    } else {
        raw + 0x1_0000_0000_0000_0000
    }
}

/// A duration reported as a non-negative number of milliseconds is that number;
/// a negative report wraps round the unsigned 64-bit range.
pub proof fn duration_is_reported_millis(raw: i32)
    ensures
        raw >= 0 ==> duration_millis_of(raw) == raw as int,
        raw < 0 ==> duration_millis_of(raw) == raw as int + 0x1_0000_0000_0000_0000,
        0 <= duration_millis_of(raw) <= u64::MAX,
{
}

/// How a track is shown: its name, a dash, and the names of its artists
/// separated by commas.
pub open spec fn track_label(name: Seq<char>, artist_names: Seq<Seq<char>>) -> Seq<char> {
    name + " - "@ + joined(artist_names, ", "@)
}

/// A track shows as its name, then ` - `, then its artists joined by `, `.
pub proof fn track_label_parts(name: Seq<char>, artist_names: Seq<Seq<char>>)
    ensures
        track_label(name, artist_names) == name + " - "@ + joined(artist_names, ", "@),
{
}

impl Track {
    /// The track behind the native handle `ptr`.
    pub closed spec fn new_spec(ptr: usize) -> Track {
        Track { ptr }
    }

    /// The track made by `new_spec` holds the handle it was made from.
    pub proof fn new_spec_handle(ptr: usize)
        ensures
            Track::new_spec(ptr)@ == ptr,
    {
    }

    /// The track behind the native handle `ptr`.
    pub fn new(ptr: usize) -> (track: Track)
        ensures
            track == Track::new_spec(ptr),
            track@ == ptr,
    {
        Track { ptr }
    }

    /// The native handle of this track.
    pub fn ptr(&self) -> (ptr: usize)
        ensures
            ptr == self@,
    {
        self.ptr
    }

    /// The length of a track in milliseconds, from the duration the native library
    /// reports for it.
    pub fn duration_millis(raw: i32) -> (millis: u64)
        ensures
            millis as int == duration_millis_of(raw),
            raw >= 0 ==> millis as int == raw as int,
            raw < 0 ==> millis as int == raw as int + 0x1_0000_0000_0000_0000,
    {
        assert(raw >= 0 ==> (raw as u64) == raw) by (bit_vector);
        assert(raw < 0 ==> (raw as u64) == raw + 0x1_0000_0000_0000_0000) by (bit_vector);
        #[verifier::truncate]
        (raw as u64)
    }

    /// The text that shows a track with the name `name` by the artists named in
    /// `artist_names`.
    pub fn label(name: &str, artist_names: &Vec<String>) -> (label: String)
        ensures
            label@ == track_label(name@, texts(artist_names@)),
            label@ == name@ + " - "@ + joined(texts(artist_names@), ", "@),
    {
        let mut label = name.to_owned();
        label.append(" - ");
        let artists = join(artist_names, ", ");
        label.append(artists.as_str());
        label
    }
}

} // verus!
