use vstd::prelude::*;

verus! {

/// The native library's representation of a session.
///
/// No value of it is ever made on this side: it only names what a native handle points at.
pub struct SpSession {
    _opaque: (),
}

/// The native library's representation of a playlist container.
///
/// No value of it is ever made on this side: it only names what a native handle points at.
pub struct SpPlaylistContainer {
    _opaque: (),
}

/// The native library's representation of a playlist.
///
/// No value of it is ever made on this side: it only names what a native handle points at.
pub struct SpPlaylist {
    _opaque: (),
}

/// The native library's representation of a track.
///
/// No value of it is ever made on this side: it only names what a native handle points at.
pub struct SpTrack {
    _opaque: (),
}

/// The native library's representation of an audio format description.
///
/// No value of it is ever made on this side: it only names what a native handle points at.
pub struct SpAudioformat {
    _opaque: (),
}

/// The native library's representation of an artist.
///
/// No value of it is ever made on this side: it only names what a native handle points at.
pub struct SpArtist {
    _opaque: (),
}

/// The native library's representation of an album.
///
/// No value of it is ever made on this side: it only names what a native handle points at.
pub struct SpAlbum {
    _opaque: (),
}

/// The native library's representation of an album browse request.
///
/// No value of it is ever made on this side: it only names what a native handle points at.
pub struct SpAlbumbrowse {
    _opaque: (),
}

/// The native library's representation of an audio buffer statistics record.
///
/// No value of it is ever made on this side: it only names what a native handle points at.
pub struct SpAudioBufferFormat {
    _opaque: (),
}

/// The native library's representation of a link.
///
/// No value of it is ever made on this side: it only names what a native handle points at.
pub struct SpLink {
    _opaque: (),
}

/// The outcome of a call into the native library.
#[allow(non_camel_case_types)]
#[derive(Debug, Clone, Copy, PartialEq, Eq, Structural)]
pub enum SpError {
    SP_ERROR_OK,
    SP_ERROR_BAD_API_VERSION,
    SP_ERROR_API_INITIALIZATION_FAILED,
    SP_ERROR_TRACK_NOT_PLAYABLE,
    SP_ERROR_BAD_APPLICATION_KEY,
    SP_ERROR_BAD_USERNAME_OR_PASSWORD,
    SP_ERROR_USER_BANNED,
    SP_ERROR_UNABLE_TO_CONTACT_SERVER,
    SP_ERROR_CLIENT_TOO_OLD,
    SP_ERROR_OTHER_PERMANENT,
    SP_ERROR_BAD_USER_AGENT,
    SP_ERROR_MISSING_CALLBACK,
    SP_ERROR_INVALID_INDATA,
    SP_ERROR_INDEX_OUT_OF_RANGE,
    SP_ERROR_USER_NEEDS_PREMIUM,
    SP_ERROR_OTHER_TRANSIENT,
    SP_ERROR_IS_LOADING,
    SP_ERROR_NO_STREAM_AVAILABLE,
    SP_ERROR_PERMISSION_DENIED,
    SP_ERROR_INBOX_IS_FULL,
    SP_ERROR_NO_CACHE,
    SP_ERROR_NO_SUCH_USER,
    SP_ERROR_NO_CREDENTIALS,
    SP_ERROR_NETWORK_DISABLED,
    SP_ERROR_INVALID_DEVICE_ID,
    SP_ERROR_CANT_OPEN_TRACE_FILE,
    SP_ERROR_APPLICATION_BANNED,
    SP_ERROR_OFFLINE_TOO_MANY_TRACKS,
    SP_ERROR_OFFLINE_DISK_CACHE,
    SP_ERROR_OFFLINE_EXPIRED,
    SP_ERROR_OFFLINE_NOT_ALLOWED,
    SP_ERROR_OFFLINE_LICENSE_LOST,
    SP_ERROR_OFFLINE_LICENSE_ERROR,
    SP_ERROR_LASTFM_AUTH_ERROR,
    SP_ERROR_INVALID_ARGUMENT,
    SP_ERROR_SYSTEM_FAILURE,
}

/// The numeric value that the native library uses for `kind`: its position in the
/// declaration, counting from zero.
pub open spec fn error_code(kind: SpError) -> int {
    match kind {
        SpError::SP_ERROR_OK => 0,
        SpError::SP_ERROR_BAD_API_VERSION => 1,
        SpError::SP_ERROR_API_INITIALIZATION_FAILED => 2,
        SpError::SP_ERROR_TRACK_NOT_PLAYABLE => 3,
        SpError::SP_ERROR_BAD_APPLICATION_KEY => 4,
        SpError::SP_ERROR_BAD_USERNAME_OR_PASSWORD => 5,
        SpError::SP_ERROR_USER_BANNED => 6,
        SpError::SP_ERROR_UNABLE_TO_CONTACT_SERVER => 7,
        SpError::SP_ERROR_CLIENT_TOO_OLD => 8,
        SpError::SP_ERROR_OTHER_PERMANENT => 9,
        SpError::SP_ERROR_BAD_USER_AGENT => 10,
        SpError::SP_ERROR_MISSING_CALLBACK => 11,
        SpError::SP_ERROR_INVALID_INDATA => 12,
        SpError::SP_ERROR_INDEX_OUT_OF_RANGE => 13,
        SpError::SP_ERROR_USER_NEEDS_PREMIUM => 14,
        SpError::SP_ERROR_OTHER_TRANSIENT => 15,
        SpError::SP_ERROR_IS_LOADING => 16,
        SpError::SP_ERROR_NO_STREAM_AVAILABLE => 17,
        SpError::SP_ERROR_PERMISSION_DENIED => 18,
        SpError::SP_ERROR_INBOX_IS_FULL => 19,
        SpError::SP_ERROR_NO_CACHE => 20,
        SpError::SP_ERROR_NO_SUCH_USER => 21,
        SpError::SP_ERROR_NO_CREDENTIALS => 22,
        SpError::SP_ERROR_NETWORK_DISABLED => 23,
        SpError::SP_ERROR_INVALID_DEVICE_ID => 24,
        SpError::SP_ERROR_CANT_OPEN_TRACE_FILE => 25,
        SpError::SP_ERROR_APPLICATION_BANNED => 26,
        SpError::SP_ERROR_OFFLINE_TOO_MANY_TRACKS => 27,
        SpError::SP_ERROR_OFFLINE_DISK_CACHE => 28,
        SpError::SP_ERROR_OFFLINE_EXPIRED => 29,
        SpError::SP_ERROR_OFFLINE_NOT_ALLOWED => 30,
        SpError::SP_ERROR_OFFLINE_LICENSE_LOST => 31,
        SpError::SP_ERROR_OFFLINE_LICENSE_ERROR => 32,
        SpError::SP_ERROR_LASTFM_AUTH_ERROR => 33,
        SpError::SP_ERROR_INVALID_ARGUMENT => 34,
        SpError::SP_ERROR_SYSTEM_FAILURE => 35,
    }
}

impl SpError {
    /// Decodes a numeric value received from the native library: the value whose
    /// code it is, or `None` where no value has that code.
    pub fn from_raw(code: i32) -> (kind: Option<SpError>)
        ensures
            match kind {
                Some(k) => error_code(k) == code as int,
                None => forall|k: SpError| error_code(k) != code as int,
            },
    {
        match code {
            0 => Some(SpError::SP_ERROR_OK),
            1 => Some(SpError::SP_ERROR_BAD_API_VERSION),
            2 => Some(SpError::SP_ERROR_API_INITIALIZATION_FAILED),
            3 => Some(SpError::SP_ERROR_TRACK_NOT_PLAYABLE),
            4 => Some(SpError::SP_ERROR_BAD_APPLICATION_KEY),
            5 => Some(SpError::SP_ERROR_BAD_USERNAME_OR_PASSWORD),
            6 => Some(SpError::SP_ERROR_USER_BANNED),
            7 => Some(SpError::SP_ERROR_UNABLE_TO_CONTACT_SERVER),
            8 => Some(SpError::SP_ERROR_CLIENT_TOO_OLD),
            9 => Some(SpError::SP_ERROR_OTHER_PERMANENT),
            10 => Some(SpError::SP_ERROR_BAD_USER_AGENT),
            11 => Some(SpError::SP_ERROR_MISSING_CALLBACK),
            12 => Some(SpError::SP_ERROR_INVALID_INDATA),
            13 => Some(SpError::SP_ERROR_INDEX_OUT_OF_RANGE),
            14 => Some(SpError::SP_ERROR_USER_NEEDS_PREMIUM),
            15 => Some(SpError::SP_ERROR_OTHER_TRANSIENT),
            16 => Some(SpError::SP_ERROR_IS_LOADING),
            17 => Some(SpError::SP_ERROR_NO_STREAM_AVAILABLE),
            18 => Some(SpError::SP_ERROR_PERMISSION_DENIED),
            19 => Some(SpError::SP_ERROR_INBOX_IS_FULL),
            20 => Some(SpError::SP_ERROR_NO_CACHE),
            21 => Some(SpError::SP_ERROR_NO_SUCH_USER),
            22 => Some(SpError::SP_ERROR_NO_CREDENTIALS),
            23 => Some(SpError::SP_ERROR_NETWORK_DISABLED),
            24 => Some(SpError::SP_ERROR_INVALID_DEVICE_ID),
            25 => Some(SpError::SP_ERROR_CANT_OPEN_TRACE_FILE),
            26 => Some(SpError::SP_ERROR_APPLICATION_BANNED),
            27 => Some(SpError::SP_ERROR_OFFLINE_TOO_MANY_TRACKS),
            28 => Some(SpError::SP_ERROR_OFFLINE_DISK_CACHE),
            29 => Some(SpError::SP_ERROR_OFFLINE_EXPIRED),
            30 => Some(SpError::SP_ERROR_OFFLINE_NOT_ALLOWED),
            31 => Some(SpError::SP_ERROR_OFFLINE_LICENSE_LOST),
            32 => Some(SpError::SP_ERROR_OFFLINE_LICENSE_ERROR),
            33 => Some(SpError::SP_ERROR_LASTFM_AUTH_ERROR),
            34 => Some(SpError::SP_ERROR_INVALID_ARGUMENT),
            35 => Some(SpError::SP_ERROR_SYSTEM_FAILURE),
            _ => None,
        }
    }

    /// The numeric value the native library uses for this value.
    pub fn to_raw(&self) -> (code: i32)
        ensures
            code as int == error_code(*self),
    {
        match self {
            SpError::SP_ERROR_OK => 0,
            SpError::SP_ERROR_BAD_API_VERSION => 1,
            SpError::SP_ERROR_API_INITIALIZATION_FAILED => 2,
            SpError::SP_ERROR_TRACK_NOT_PLAYABLE => 3,
            SpError::SP_ERROR_BAD_APPLICATION_KEY => 4,
            SpError::SP_ERROR_BAD_USERNAME_OR_PASSWORD => 5,
            SpError::SP_ERROR_USER_BANNED => 6,
            SpError::SP_ERROR_UNABLE_TO_CONTACT_SERVER => 7,
            SpError::SP_ERROR_CLIENT_TOO_OLD => 8,
            SpError::SP_ERROR_OTHER_PERMANENT => 9,
            SpError::SP_ERROR_BAD_USER_AGENT => 10,
            SpError::SP_ERROR_MISSING_CALLBACK => 11,
            SpError::SP_ERROR_INVALID_INDATA => 12,
            SpError::SP_ERROR_INDEX_OUT_OF_RANGE => 13,
            SpError::SP_ERROR_USER_NEEDS_PREMIUM => 14,
            SpError::SP_ERROR_OTHER_TRANSIENT => 15,
            SpError::SP_ERROR_IS_LOADING => 16,
            SpError::SP_ERROR_NO_STREAM_AVAILABLE => 17,
            SpError::SP_ERROR_PERMISSION_DENIED => 18,
            SpError::SP_ERROR_INBOX_IS_FULL => 19,
            SpError::SP_ERROR_NO_CACHE => 20,
            SpError::SP_ERROR_NO_SUCH_USER => 21,
            SpError::SP_ERROR_NO_CREDENTIALS => 22,
            SpError::SP_ERROR_NETWORK_DISABLED => 23,
            SpError::SP_ERROR_INVALID_DEVICE_ID => 24,
            SpError::SP_ERROR_CANT_OPEN_TRACE_FILE => 25,
            SpError::SP_ERROR_APPLICATION_BANNED => 26,
            SpError::SP_ERROR_OFFLINE_TOO_MANY_TRACKS => 27,
            SpError::SP_ERROR_OFFLINE_DISK_CACHE => 28,
            SpError::SP_ERROR_OFFLINE_EXPIRED => 29,
            SpError::SP_ERROR_OFFLINE_NOT_ALLOWED => 30,
            SpError::SP_ERROR_OFFLINE_LICENSE_LOST => 31,
            SpError::SP_ERROR_OFFLINE_LICENSE_ERROR => 32,
            SpError::SP_ERROR_LASTFM_AUTH_ERROR => 33,
            SpError::SP_ERROR_INVALID_ARGUMENT => 34,
            SpError::SP_ERROR_SYSTEM_FAILURE => 35,
        }
    }
}

/// The numeric value of each outcome, as the native library numbers them:
/// the values in declaration order, counting from zero.
pub proof fn error_code_table()
    ensures
        error_code(SpError::SP_ERROR_OK) == 0,
        error_code(SpError::SP_ERROR_BAD_API_VERSION) == 1,
        error_code(SpError::SP_ERROR_API_INITIALIZATION_FAILED) == 2,
        error_code(SpError::SP_ERROR_TRACK_NOT_PLAYABLE) == 3,
        error_code(SpError::SP_ERROR_BAD_APPLICATION_KEY) == 4,
        error_code(SpError::SP_ERROR_BAD_USERNAME_OR_PASSWORD) == 5,
        error_code(SpError::SP_ERROR_USER_BANNED) == 6,
        error_code(SpError::SP_ERROR_UNABLE_TO_CONTACT_SERVER) == 7,
        error_code(SpError::SP_ERROR_CLIENT_TOO_OLD) == 8,
        error_code(SpError::SP_ERROR_OTHER_PERMANENT) == 9,
        error_code(SpError::SP_ERROR_BAD_USER_AGENT) == 10,
        error_code(SpError::SP_ERROR_MISSING_CALLBACK) == 11,
        error_code(SpError::SP_ERROR_INVALID_INDATA) == 12,
        error_code(SpError::SP_ERROR_INDEX_OUT_OF_RANGE) == 13,
        error_code(SpError::SP_ERROR_USER_NEEDS_PREMIUM) == 14,
        error_code(SpError::SP_ERROR_OTHER_TRANSIENT) == 15,
        error_code(SpError::SP_ERROR_IS_LOADING) == 16,
        error_code(SpError::SP_ERROR_NO_STREAM_AVAILABLE) == 17,
        error_code(SpError::SP_ERROR_PERMISSION_DENIED) == 18,
        error_code(SpError::SP_ERROR_INBOX_IS_FULL) == 19,
        error_code(SpError::SP_ERROR_NO_CACHE) == 20,
        error_code(SpError::SP_ERROR_NO_SUCH_USER) == 21,
        error_code(SpError::SP_ERROR_NO_CREDENTIALS) == 22,
        error_code(SpError::SP_ERROR_NETWORK_DISABLED) == 23,
        error_code(SpError::SP_ERROR_INVALID_DEVICE_ID) == 24,
        error_code(SpError::SP_ERROR_CANT_OPEN_TRACE_FILE) == 25,
        error_code(SpError::SP_ERROR_APPLICATION_BANNED) == 26,
        error_code(SpError::SP_ERROR_OFFLINE_TOO_MANY_TRACKS) == 27,
        error_code(SpError::SP_ERROR_OFFLINE_DISK_CACHE) == 28,
        error_code(SpError::SP_ERROR_OFFLINE_EXPIRED) == 29,
        error_code(SpError::SP_ERROR_OFFLINE_NOT_ALLOWED) == 30,
        error_code(SpError::SP_ERROR_OFFLINE_LICENSE_LOST) == 31,
        error_code(SpError::SP_ERROR_OFFLINE_LICENSE_ERROR) == 32,
        error_code(SpError::SP_ERROR_LASTFM_AUTH_ERROR) == 33,
        error_code(SpError::SP_ERROR_INVALID_ARGUMENT) == 34,
        error_code(SpError::SP_ERROR_SYSTEM_FAILURE) == 35,
{
}

/// No two values of a outcome share a numeric value, so decoding the value of
/// `to_raw` gives the same value back.
pub proof fn error_codes_distinct(a: SpError, b: SpError)
    requires
        error_code(a) == error_code(b),
    ensures
        a == b,
{
}

/// Exactly the codes from zero up to the number of values decode to a outcome.
pub proof fn error_codes_cover(code: int)
    ensures
        (exists|k: SpError| error_code(k) == code) <==> 0 <= code < 36,
{
    if 0 <= code < 36 {
        if code == 0 {
            assert(error_code(SpError::SP_ERROR_OK) == code);
        } else if code == 1 {
            assert(error_code(SpError::SP_ERROR_BAD_API_VERSION) == code);
        } else if code == 2 {
            assert(error_code(SpError::SP_ERROR_API_INITIALIZATION_FAILED) == code);
        } else if code == 3 {
            assert(error_code(SpError::SP_ERROR_TRACK_NOT_PLAYABLE) == code);
        } else if code == 4 {
            assert(error_code(SpError::SP_ERROR_BAD_APPLICATION_KEY) == code);
        } else if code == 5 {
            assert(error_code(SpError::SP_ERROR_BAD_USERNAME_OR_PASSWORD) == code);
        } else if code == 6 {
            assert(error_code(SpError::SP_ERROR_USER_BANNED) == code);
        } else if code == 7 {
            assert(error_code(SpError::SP_ERROR_UNABLE_TO_CONTACT_SERVER) == code);
        } else if code == 8 {
            assert(error_code(SpError::SP_ERROR_CLIENT_TOO_OLD) == code);
        } else if code == 9 {
            assert(error_code(SpError::SP_ERROR_OTHER_PERMANENT) == code);
        } else if code == 10 {
            assert(error_code(SpError::SP_ERROR_BAD_USER_AGENT) == code);
        } else if code == 11 {
            assert(error_code(SpError::SP_ERROR_MISSING_CALLBACK) == code);
        } else if code == 12 {
            assert(error_code(SpError::SP_ERROR_INVALID_INDATA) == code);
        } else if code == 13 {
            assert(error_code(SpError::SP_ERROR_INDEX_OUT_OF_RANGE) == code);
        } else if code == 14 {
            assert(error_code(SpError::SP_ERROR_USER_NEEDS_PREMIUM) == code);
        } else if code == 15 {
            assert(error_code(SpError::SP_ERROR_OTHER_TRANSIENT) == code);
        } else if code == 16 {
            assert(error_code(SpError::SP_ERROR_IS_LOADING) == code);
        } else if code == 17 {
            assert(error_code(SpError::SP_ERROR_NO_STREAM_AVAILABLE) == code);
        } else if code == 18 {
            assert(error_code(SpError::SP_ERROR_PERMISSION_DENIED) == code);
        } else if code == 19 {
            assert(error_code(SpError::SP_ERROR_INBOX_IS_FULL) == code);
        } else if code == 20 {
            assert(error_code(SpError::SP_ERROR_NO_CACHE) == code);
        } else if code == 21 {
            assert(error_code(SpError::SP_ERROR_NO_SUCH_USER) == code);
        } else if code == 22 {
            assert(error_code(SpError::SP_ERROR_NO_CREDENTIALS) == code);
        } else if code == 23 {
            assert(error_code(SpError::SP_ERROR_NETWORK_DISABLED) == code);
        } else if code == 24 {
            assert(error_code(SpError::SP_ERROR_INVALID_DEVICE_ID) == code);
        } else if code == 25 {
            assert(error_code(SpError::SP_ERROR_CANT_OPEN_TRACE_FILE) == code);
        } else if code == 26 {
            assert(error_code(SpError::SP_ERROR_APPLICATION_BANNED) == code);
        } else if code == 27 {
            assert(error_code(SpError::SP_ERROR_OFFLINE_TOO_MANY_TRACKS) == code);
        } else if code == 28 {
            assert(error_code(SpError::SP_ERROR_OFFLINE_DISK_CACHE) == code);
        } else if code == 29 {
            assert(error_code(SpError::SP_ERROR_OFFLINE_EXPIRED) == code);
        } else if code == 30 {
            assert(error_code(SpError::SP_ERROR_OFFLINE_NOT_ALLOWED) == code);
        } else if code == 31 {
            assert(error_code(SpError::SP_ERROR_OFFLINE_LICENSE_LOST) == code);
        } else if code == 32 {
            assert(error_code(SpError::SP_ERROR_OFFLINE_LICENSE_ERROR) == code);
        } else if code == 33 {
            assert(error_code(SpError::SP_ERROR_LASTFM_AUTH_ERROR) == code);
        } else if code == 34 {
            assert(error_code(SpError::SP_ERROR_INVALID_ARGUMENT) == code);
        } else if code == 35 {
            assert(error_code(SpError::SP_ERROR_SYSTEM_FAILURE) == code);
        }
    }
}

/// What a link names.
#[derive(Debug, Clone, Copy, PartialEq, Eq, Structural)]
pub enum SpLinkType {
    SpLinktypeInvalid,
    SpLinktypeTrack,
    SpLinktypeAlbum,
    SpLinktypeArtist,
    SpLinktypeSearch,
    SpLinktypePlaylist,
    SpLinktypeProfile,
    SpLinktypeStarred,
    SpLinktypeLocaltrack,
    SpLinktypeImage,
}

/// The numeric value that the native library uses for `kind`: its position in the
/// declaration, counting from zero.
pub open spec fn link_type_code(kind: SpLinkType) -> int {
    match kind {
        SpLinkType::SpLinktypeInvalid => 0,
        SpLinkType::SpLinktypeTrack => 1,
        SpLinkType::SpLinktypeAlbum => 2,
        SpLinkType::SpLinktypeArtist => 3,
        SpLinkType::SpLinktypeSearch => 4,
        SpLinkType::SpLinktypePlaylist => 5,
        SpLinkType::SpLinktypeProfile => 6,
        SpLinkType::SpLinktypeStarred => 7,
        SpLinkType::SpLinktypeLocaltrack => 8,
        SpLinkType::SpLinktypeImage => 9,
    }
}

impl SpLinkType {
    /// Decodes a numeric value received from the native library: the value whose
    /// code it is, or `None` where no value has that code.
    pub fn from_raw(code: i32) -> (kind: Option<SpLinkType>)
        ensures
            match kind {
                Some(k) => link_type_code(k) == code as int,
                None => forall|k: SpLinkType| link_type_code(k) != code as int,
            },
    {
        match code {
            0 => Some(SpLinkType::SpLinktypeInvalid),
            1 => Some(SpLinkType::SpLinktypeTrack),
            2 => Some(SpLinkType::SpLinktypeAlbum),
            3 => Some(SpLinkType::SpLinktypeArtist),
            4 => Some(SpLinkType::SpLinktypeSearch),
            5 => Some(SpLinkType::SpLinktypePlaylist),
            6 => Some(SpLinkType::SpLinktypeProfile),
            7 => Some(SpLinkType::SpLinktypeStarred),
            8 => Some(SpLinkType::SpLinktypeLocaltrack),
            9 => Some(SpLinkType::SpLinktypeImage),
            _ => None,
        }
    }

    /// The numeric value the native library uses for this value.
    pub fn to_raw(&self) -> (code: i32)
        ensures
            code as int == link_type_code(*self),
    {
        match self {
            SpLinkType::SpLinktypeInvalid => 0,
            SpLinkType::SpLinktypeTrack => 1,
            SpLinkType::SpLinktypeAlbum => 2,
            SpLinkType::SpLinktypeArtist => 3,
            SpLinkType::SpLinktypeSearch => 4,
            SpLinkType::SpLinktypePlaylist => 5,
            SpLinkType::SpLinktypeProfile => 6,
            SpLinkType::SpLinktypeStarred => 7,
            SpLinkType::SpLinktypeLocaltrack => 8,
            SpLinkType::SpLinktypeImage => 9,
        }
    }
}

/// The numeric value of each link kind, as the native library numbers them:
/// the values in declaration order, counting from zero.
pub proof fn link_type_code_table()
    ensures
        link_type_code(SpLinkType::SpLinktypeInvalid) == 0,
        link_type_code(SpLinkType::SpLinktypeTrack) == 1,
        link_type_code(SpLinkType::SpLinktypeAlbum) == 2,
        link_type_code(SpLinkType::SpLinktypeArtist) == 3,
        link_type_code(SpLinkType::SpLinktypeSearch) == 4,
        link_type_code(SpLinkType::SpLinktypePlaylist) == 5,
        link_type_code(SpLinkType::SpLinktypeProfile) == 6,
        link_type_code(SpLinkType::SpLinktypeStarred) == 7,
        link_type_code(SpLinkType::SpLinktypeLocaltrack) == 8,
        link_type_code(SpLinkType::SpLinktypeImage) == 9,
{
}

/// No two values of a link kind share a numeric value, so decoding the value of
/// `to_raw` gives the same value back.
pub proof fn link_type_codes_distinct(a: SpLinkType, b: SpLinkType)
    requires
        link_type_code(a) == link_type_code(b),
    ensures
        a == b,
{
}

/// Exactly the codes from zero up to the number of values decode to a link kind.
pub proof fn link_type_codes_cover(code: int)
    ensures
        (exists|k: SpLinkType| link_type_code(k) == code) <==> 0 <= code < 10,
{
    if 0 <= code < 10 {
        if code == 0 {
            assert(link_type_code(SpLinkType::SpLinktypeInvalid) == code);
        } else if code == 1 {
            assert(link_type_code(SpLinkType::SpLinktypeTrack) == code);
        } else if code == 2 {
            assert(link_type_code(SpLinkType::SpLinktypeAlbum) == code);
        } else if code == 3 {
            assert(link_type_code(SpLinkType::SpLinktypeArtist) == code);
        } else if code == 4 {
            assert(link_type_code(SpLinkType::SpLinktypeSearch) == code);
        } else if code == 5 {
            assert(link_type_code(SpLinkType::SpLinktypePlaylist) == code);
        } else if code == 6 {
            assert(link_type_code(SpLinkType::SpLinktypeProfile) == code);
        } else if code == 7 {
            assert(link_type_code(SpLinkType::SpLinktypeStarred) == code);
        } else if code == 8 {
            assert(link_type_code(SpLinkType::SpLinktypeLocaltrack) == code);
        } else if code == 9 {
            assert(link_type_code(SpLinkType::SpLinktypeImage) == code);
        }
    }
}

/// What an entry of a playlist container is.
#[derive(Debug, Clone, Copy, PartialEq, Eq, Structural)]
pub enum SpPlaylistType {
    SpPlaylistTypePlaylist,
    SpPlaylistTypeStartFolder,
    SpPlaylistTypeEndFolder,
    SpPlaylistTypePlaceholder,
}

/// The numeric value that the native library uses for `kind`: its position in the
/// declaration, counting from zero.
pub open spec fn playlist_type_code(kind: SpPlaylistType) -> int {
    match kind {
        SpPlaylistType::SpPlaylistTypePlaylist => 0,
        SpPlaylistType::SpPlaylistTypeStartFolder => 1,
        SpPlaylistType::SpPlaylistTypeEndFolder => 2,
        SpPlaylistType::SpPlaylistTypePlaceholder => 3,
    }
}

impl SpPlaylistType {
    /// Decodes a numeric value received from the native library: the value whose
    /// code it is, or `None` where no value has that code.
    pub fn from_raw(code: i32) -> (kind: Option<SpPlaylistType>)
        ensures
            match kind {
                Some(k) => playlist_type_code(k) == code as int,
                None => forall|k: SpPlaylistType| playlist_type_code(k) != code as int,
            },
    {
        match code {
            0 => Some(SpPlaylistType::SpPlaylistTypePlaylist),
            1 => Some(SpPlaylistType::SpPlaylistTypeStartFolder),
            2 => Some(SpPlaylistType::SpPlaylistTypeEndFolder),
            3 => Some(SpPlaylistType::SpPlaylistTypePlaceholder),
            _ => None,
        }
    }

    /// The numeric value the native library uses for this value.
    pub fn to_raw(&self) -> (code: i32)
        ensures
            code as int == playlist_type_code(*self),
    {
        match self {
            SpPlaylistType::SpPlaylistTypePlaylist => 0,
            SpPlaylistType::SpPlaylistTypeStartFolder => 1,
            SpPlaylistType::SpPlaylistTypeEndFolder => 2,
            SpPlaylistType::SpPlaylistTypePlaceholder => 3,
        }
    }
}

/// The numeric value of each container entry kind, as the native library numbers them:
/// the values in declaration order, counting from zero.
pub proof fn playlist_type_code_table()
    ensures
        playlist_type_code(SpPlaylistType::SpPlaylistTypePlaylist) == 0,
        playlist_type_code(SpPlaylistType::SpPlaylistTypeStartFolder) == 1,
        playlist_type_code(SpPlaylistType::SpPlaylistTypeEndFolder) == 2,
        playlist_type_code(SpPlaylistType::SpPlaylistTypePlaceholder) == 3,
{
}

/// No two values of a container entry kind share a numeric value, so decoding the value of
/// `to_raw` gives the same value back.
pub proof fn playlist_type_codes_distinct(a: SpPlaylistType, b: SpPlaylistType)
    requires
        playlist_type_code(a) == playlist_type_code(b),
    ensures
        a == b,
{
}

/// Exactly the codes from zero up to the number of values decode to a container entry kind.
pub proof fn playlist_type_codes_cover(code: int)
    ensures
        (exists|k: SpPlaylistType| playlist_type_code(k) == code) <==> 0 <= code < 4,
{
    if 0 <= code < 4 {
        if code == 0 {
            assert(playlist_type_code(SpPlaylistType::SpPlaylistTypePlaylist) == code);
        } else if code == 1 {
            assert(playlist_type_code(SpPlaylistType::SpPlaylistTypeStartFolder) == code);
        } else if code == 2 {
            assert(playlist_type_code(SpPlaylistType::SpPlaylistTypeEndFolder) == code);
        } else if code == 3 {
            assert(playlist_type_code(SpPlaylistType::SpPlaylistTypePlaceholder) == code);
        }
    }
}

/// The state of a session's connection.
#[derive(Debug, Clone, Copy, PartialEq, Eq, Structural)]
pub enum SpConnectionState {
    SpConnectionStateLoggedOut,
    SpConnectionStateLoggedIn,
    SpConnectionStateDisconnected,
    SpConnectionStateUndefined,
    SpConnectionStateOffline,
}

/// The numeric value that the native library uses for `kind`: its position in the
/// declaration, counting from zero.
pub open spec fn connection_state_code(kind: SpConnectionState) -> int {
    match kind {
        SpConnectionState::SpConnectionStateLoggedOut => 0,
        SpConnectionState::SpConnectionStateLoggedIn => 1,
        SpConnectionState::SpConnectionStateDisconnected => 2,
        SpConnectionState::SpConnectionStateUndefined => 3,
        SpConnectionState::SpConnectionStateOffline => 4,
    }
}

impl SpConnectionState {
    /// Decodes a numeric value received from the native library: the value whose
    /// code it is, or `None` where no value has that code.
    pub fn from_raw(code: i32) -> (kind: Option<SpConnectionState>)
        ensures
            match kind {
                Some(k) => connection_state_code(k) == code as int,
                None => forall|k: SpConnectionState| connection_state_code(k) != code as int,
            },
    {
        match code {
            0 => Some(SpConnectionState::SpConnectionStateLoggedOut),
            1 => Some(SpConnectionState::SpConnectionStateLoggedIn),
            2 => Some(SpConnectionState::SpConnectionStateDisconnected),
            3 => Some(SpConnectionState::SpConnectionStateUndefined),
            4 => Some(SpConnectionState::SpConnectionStateOffline),
            _ => None,
        }
    }

    /// The numeric value the native library uses for this value.
    pub fn to_raw(&self) -> (code: i32)
        ensures
            code as int == connection_state_code(*self),
    {
        match self {
            SpConnectionState::SpConnectionStateLoggedOut => 0,
            SpConnectionState::SpConnectionStateLoggedIn => 1,
            SpConnectionState::SpConnectionStateDisconnected => 2,
            SpConnectionState::SpConnectionStateUndefined => 3,
            SpConnectionState::SpConnectionStateOffline => 4,
        }
    }
}

/// The numeric value of each connection state, as the native library numbers them:
/// the values in declaration order, counting from zero.
pub proof fn connection_state_code_table()
    ensures
        connection_state_code(SpConnectionState::SpConnectionStateLoggedOut) == 0,
        connection_state_code(SpConnectionState::SpConnectionStateLoggedIn) == 1,
        connection_state_code(SpConnectionState::SpConnectionStateDisconnected) == 2,
        connection_state_code(SpConnectionState::SpConnectionStateUndefined) == 3,
        connection_state_code(SpConnectionState::SpConnectionStateOffline) == 4,
{
}

/// No two values of a connection state share a numeric value, so decoding the value of
/// `to_raw` gives the same value back.
pub proof fn connection_state_codes_distinct(a: SpConnectionState, b: SpConnectionState)
    requires
        connection_state_code(a) == connection_state_code(b),
    ensures
        a == b,
{
}

/// Exactly the codes from zero up to the number of values decode to a connection state.
pub proof fn connection_state_codes_cover(code: int)
    ensures
        (exists|k: SpConnectionState| connection_state_code(k) == code) <==> 0 <= code < 5,
{
    if 0 <= code < 5 {
        if code == 0 {
            assert(connection_state_code(SpConnectionState::SpConnectionStateLoggedOut) == code);
        } else if code == 1 {
            assert(connection_state_code(SpConnectionState::SpConnectionStateLoggedIn) == code);
        } else if code == 2 {
            assert(connection_state_code(SpConnectionState::SpConnectionStateDisconnected) == code);
        } else if code == 3 {
            assert(connection_state_code(SpConnectionState::SpConnectionStateUndefined) == code);
        } else if code == 4 {
            assert(connection_state_code(SpConnectionState::SpConnectionStateOffline) == code);
        }
    }
}

/// The kind of search the native library is asked to make.
#[derive(Debug, Clone, Copy, PartialEq, Eq, Structural)]
pub enum SpSearchType {
    SpSearchStandard,
    SpSearchSuggest,
}

impl SpSearchType {
    /// The numeric value the native library uses for this kind of search.
    pub fn to_raw(&self) -> (code: i32)
        ensures
            code == (match *self {
                SpSearchType::SpSearchStandard => 0i32,
                SpSearchType::SpSearchSuggest => 1i32,
            }),
    {
        match self {
            SpSearchType::SpSearchStandard => 0,
            SpSearchType::SpSearchSuggest => 1,
        }
    }
}

/// The positions `0, 1, ..., count - 1` of the items of a native list that reports
/// `count` items, in order; none where `count` is not positive.
pub open spec fn index_range(count: i32) -> Seq<i32> {
    Seq::new(if count > 0 { count as nat } else { 0 }, |i: int| i as i32)
}

/// The positions of a list of `count` items are `0, 1, ...` one each, as many as
/// the count says and none for a count that is not positive.
pub proof fn index_range_counts_up(count: i32)
    ensures
        index_range(count).len() == (if count > 0 { count as int } else { 0 }),
        forall|i: int| 0 <= i < index_range(count).len() ==> index_range(count)[i] == i,
{
}

/// The positions of the items of a native list that reports `count` items.
pub fn item_indices(count: i32) -> (indices: Vec<i32>)
    ensures
        indices@ == index_range(count),
        indices@.len() == (if count > 0 { count as int } else { 0 }),
        forall|i: int| 0 <= i < indices@.len() ==> indices@[i] == i,
{
    let mut indices: Vec<i32> = Vec::new();
    let mut i: i32 = 0;
    while i < count
        invariant
            0 <= i,
            count > 0 ==> i <= count,
            count <= 0 ==> i == 0,
            indices@.len() == i,
            forall|j: int| 0 <= j < indices@.len() ==> indices@[j] == j,
        decreases count - i,
    {
        indices.push(i);
        i = i + 1;
    }
    assert(indices@ == index_range(count));
    indices
}

} // verus!
