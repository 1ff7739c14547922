use vstd::prelude::*;

use crate::native::{playlist_type_code, SpPlaylistType};

verus! {

/// A session with the native library, held by the native handles it is made of:
/// the session itself and the helper that its callbacks reach.
#[derive(Debug, Clone, Copy, PartialEq, Eq, Structural)]
pub struct Session {
    session: usize,
    callback_helper: usize,
}

impl View for Session {
    type V = (usize, usize);

    /// The session handle and the callback helper handle.
    closed spec fn view(&self) -> (usize, usize) {
        (self.session, self.callback_helper)
    }
}

/// The plain settings a session is created with.
#[derive(Debug, Clone, Copy, PartialEq, Eq, Structural)]
pub struct SessionSettings {
    pub api_version: i32,
    pub application_key_size: i32,
    pub compress_playlists: bool,
    pub dont_save_metadata_for_playlists: bool,
    pub initially_unload_playlists: bool,
}

/// The version of the native interface that sessions are created for.
pub const API_VERSION: i32 = 12;

impl SessionSettings {
    /// The settings for a session whose application key is `key_len` bytes long:
    /// the interface version this crate is written for, the key's length as the
    /// native integer type takes it, and every playlist option off.
    pub fn new(key_len: usize) -> (settings: SessionSettings)
        ensures
            settings.api_version == API_VERSION,
            settings.api_version == 12,
            settings.application_key_size == key_len as i32,
            !settings.compress_playlists,
            !settings.dont_save_metadata_for_playlists,
            !settings.initially_unload_playlists,
    {
        SessionSettings {
            api_version: API_VERSION,
            application_key_size: #[verifier::truncate] (key_len as i32),
            compress_playlists: false,
            dont_save_metadata_for_playlists: false,
            initially_unload_playlists: false,
        }
    }
}

/// Whether the entry at `index` of a playlist container that reports
/// `number_of_playlists` entries, and reports the numeric kind `raw_kind` for this
/// one, is handed out as a playlist: it must be below the count and be a playlist
/// rather than a folder marker or a placeholder.
pub open spec fn is_playlist_entry(index: int, number_of_playlists: int, raw_kind: int) -> bool {
    index < number_of_playlists && raw_kind == playlist_type_code(SpPlaylistType::SpPlaylistTypePlaylist)
}

/// An entry is handed out as a playlist exactly when its position is below the
/// entry count and its kind code is zero, the code of a playlist; folder markers
/// and placeholders are never handed out.
pub proof fn playlist_entry_rule(index: int, number_of_playlists: int, raw_kind: int)
    ensures
        is_playlist_entry(index, number_of_playlists, raw_kind) <==> (index < number_of_playlists
            && raw_kind == 0),
{
}

impl Session {
    /// The session made of the native handles `session` and `callback_helper`.
    pub fn from_handles(session: usize, callback_helper: usize) -> (s: Session)
        ensures
            s@ == (session, callback_helper),
    {
        Session { session, callback_helper }
    }

    /// The native session handle.
    pub fn session_handle(&self) -> (handle: usize)
        ensures
            handle == self@.0,
    {
        self.session
    }

    /// The native handle of the helper that the session's callbacks reach.
    pub fn callback_helper_handle(&self) -> (handle: usize)
        ensures
            handle == self@.1,
    {
        self.callback_helper
    }

    /// Decides whether the container entry at `index` is handed out as a playlist,
    /// given the entry count and the numeric kind the native library reports.
    pub fn playlist_entry(index: i32, number_of_playlists: i32, raw_kind: i32) -> (is_playlist: bool)
        ensures
            is_playlist == is_playlist_entry(index as int, number_of_playlists as int, raw_kind as int),
            is_playlist == (index < number_of_playlists && raw_kind == 0),
    {
        if index >= number_of_playlists {
            return false;
        }
        let kind = SpPlaylistType::from_raw(raw_kind);
        assert(playlist_type_code(SpPlaylistType::SpPlaylistTypePlaylist) == 0);
        match kind {
            Some(SpPlaylistType::SpPlaylistTypePlaylist) => true,
            _ => false,
        }
    }

    /// The positions of the playlists in a container whose entries report the
    /// numeric kinds `raw_kinds`, in increasing order: exactly the positions that
    /// `playlist_entry` hands out.
    pub fn playlist_indices(raw_kinds: &Vec<i32>) -> (indices: Vec<i32>)
        requires
            raw_kinds@.len() <= i32::MAX,
        ensures
            forall|k: int|
                0 <= k < indices@.len() ==> 0 <= #[trigger] indices@[k] < raw_kinds@.len()
                    && is_playlist_entry(indices@[k] as int, raw_kinds@.len() as int, raw_kinds@[indices@[k] as int] as int),
            forall|k: int, l: int| 0 <= k < l < indices@.len() ==> indices@[k] < indices@[l],
            forall|p: int|
                0 <= p < raw_kinds@.len() && is_playlist_entry(p, raw_kinds@.len() as int, raw_kinds@[p] as int)
                    ==> indices@.contains(p as i32),
    {
        let count = raw_kinds.len() as i32;
        let mut indices: Vec<i32> = Vec::new();
        let mut i: i32 = 0;
        while i < count
            invariant
                count as int == raw_kinds@.len(),
                0 <= i <= count,
                forall|k: int|
                    0 <= k < indices@.len() ==> 0 <= #[trigger] indices@[k] < i
                        && is_playlist_entry(indices@[k] as int, count as int, raw_kinds@[indices@[k] as int] as int),
                forall|k: int, l: int| 0 <= k < l < indices@.len() ==> indices@[k] < indices@[l],
                forall|p: int|
                    0 <= p < i && is_playlist_entry(p, count as int, raw_kinds@[p] as int)
                        ==> indices@.contains(p as i32),
            decreases count - i,
        {
            let ghost before = indices@;
            if Self::playlist_entry(i, count, raw_kinds[i as usize]) {
                indices.push(i);
                assert(indices@[indices@.len() - 1] == i);
                assert forall|p: int|
                    0 <= p < i + 1 && is_playlist_entry(p, count as int, raw_kinds@[p] as int)
                        implies indices@.contains(p as i32) by {
                    if p < i {
                        let k = choose|k: int| 0 <= k < before.len() && before[k] == p as i32;
                        assert(indices@[k] == p as i32);
                    }
                }
            }
            i = i + 1;
        }
        indices
    }
}

} // verus!
