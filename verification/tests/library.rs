use rustify::events::route_callback;
use rustify::native::{item_indices, SpConnectionState, SpError, SpLinkType, SpPlaylistType, SpSearchType};
use rustify::player::{accepts_delivery, consumed_frames, stereo_samples, DeliveryPlan};
use rustify::text::{join, name_from_bytes, nul_terminated};
use rustify::{
    Artist, ChannelAction, Event, Link, LinkProgress, LinkStep, Playlist, Search, SearchRequest,
    Session, SessionSettings, SpSessionCallback, Track,
};

#[test]
fn handles_keep_their_native_pointer() {
    assert_eq!(Artist::new(0x1000).ptr(), 0x1000);
    assert_eq!(Track::new(0x2000).ptr(), 0x2000);
    assert_eq!(Playlist::new(0x3000).ptr(), 0x3000);
    assert_eq!(Search::new(0x4000).ptr(), 0x4000);
    let session = Session::from_handles(0x5000, 0x6000);
    assert_eq!(session.session_handle(), 0x5000);
    assert_eq!(session.callback_helper_handle(), 0x6000);
}

#[test]
fn error_codes_follow_declaration_order() {
    assert_eq!(SpError::from_raw(0), Some(SpError::SP_ERROR_OK));
    assert_eq!(SpError::from_raw(5), Some(SpError::SP_ERROR_BAD_USERNAME_OR_PASSWORD));
    assert_eq!(SpError::from_raw(35), Some(SpError::SP_ERROR_SYSTEM_FAILURE));
    assert_eq!(SpError::from_raw(36), None);
    assert_eq!(SpError::from_raw(-1), None);
    assert_eq!(SpError::SP_ERROR_IS_LOADING.to_raw(), 16);
}

#[test]
fn every_error_code_round_trips() {
    for code in 0..36 {
        let error = SpError::from_raw(code).unwrap();
        assert_eq!(error.to_raw(), code);
    }
}

#[test]
fn link_and_playlist_kinds_decode() {
    assert_eq!(SpLinkType::from_raw(1), Some(SpLinkType::SpLinktypeTrack));
    assert_eq!(SpLinkType::from_raw(9), Some(SpLinkType::SpLinktypeImage));
    assert_eq!(SpLinkType::from_raw(10), None);
    assert_eq!(SpLinkType::SpLinktypePlaylist.to_raw(), 5);
    assert_eq!(SpPlaylistType::from_raw(0), Some(SpPlaylistType::SpPlaylistTypePlaylist));
    assert_eq!(SpPlaylistType::from_raw(3), Some(SpPlaylistType::SpPlaylistTypePlaceholder));
    assert_eq!(SpPlaylistType::from_raw(4), None);
    assert_eq!(SpConnectionState::from_raw(4), Some(SpConnectionState::SpConnectionStateOffline));
    assert_eq!(SpConnectionState::SpConnectionStateLoggedIn.to_raw(), 1);
    assert_eq!(SpSearchType::SpSearchStandard.to_raw(), 0);
    assert_eq!(SpSearchType::SpSearchSuggest.to_raw(), 1);
}

#[test]
fn worker_forwards_logins_and_track_ends() {
    assert_eq!(route_callback(&SpSessionCallback::LoggedIn), ChannelAction::Forward(Event::LoggedIn));
    assert_eq!(route_callback(&SpSessionCallback::EndOfTrack), ChannelAction::Forward(Event::EndOfTrack));
    assert_eq!(route_callback(&SpSessionCallback::NotifyMainThread), ChannelAction::ProcessEvents);
}

#[test]
fn worker_ignores_other_notifications() {
    let ignored = [
        SpSessionCallback::LoggedOut,
        SpSessionCallback::MetadataUpdated,
        SpSessionCallback::ConnectionError(SpError::SP_ERROR_NETWORK_DISABLED),
        SpSessionCallback::PlayTokenLost,
        SpSessionCallback::StreamingError(SpError::SP_ERROR_NO_STREAM_AVAILABLE),
        SpSessionCallback::UserinfoUpdated,
        SpSessionCallback::StartPlayback,
        SpSessionCallback::StopPlayback,
        SpSessionCallback::OfflineStatusUpdated,
        SpSessionCallback::OfflineError(SpError::SP_ERROR_OFFLINE_EXPIRED),
        SpSessionCallback::ConnectionstateUpdated,
        SpSessionCallback::ScrobbleError(SpError::SP_ERROR_LASTFM_AUTH_ERROR),
        SpSessionCallback::PrivateSessionModeChanged(true),
    ];
    for callback in ignored.iter() {
        assert_eq!(route_callback(callback), ChannelAction::Ignore);
    }
}

#[test]
fn c_strings_get_a_terminator() {
    assert_eq!(nul_terminated(b"tmp/"), Some(b"tmp/\0".to_vec()));
    assert_eq!(nul_terminated(b""), Some(vec![0u8]));
}

#[test]
fn c_strings_refuse_inner_zero_bytes() {
    assert_eq!(nul_terminated(b"user\0name"), None);
    assert_eq!(nul_terminated(b"\0"), None);
    assert_eq!(nul_terminated(b"name\0"), None);
}

#[test]
fn names_decode_utf8() {
    assert_eq!(name_from_bytes(b"1900"), "1900");
    assert_eq!(name_from_bytes("Den modernitet som aldrig kom".as_bytes()), "Den modernitet som aldrig kom");
    assert_eq!(name_from_bytes("Björk".as_bytes()), "Björk");
    assert_eq!(name_from_bytes(b""), "");
}

#[test]
fn names_that_are_not_utf8_show_loading() {
    assert_eq!(name_from_bytes(&[0xff, 0xfe]), "Loading...");
    assert_eq!(name_from_bytes(&[b'a', 0xc3]), "Loading...");
}

#[test]
fn join_puts_separator_between_items() {
    let items = vec!["a".to_string(), "b".to_string(), "c".to_string()];
    assert_eq!(join(&items, ", "), "a, b, c");
    assert_eq!(join(&vec!["solo".to_string()], ", "), "solo");
    assert_eq!(join(&Vec::new(), ", "), "");
}

#[test]
fn track_label_shows_name_and_artists() {
    let artists = vec!["1900".to_string(), "Guest".to_string()];
    assert_eq!(Track::label("Den modernitet som aldrig kom", &artists), "Den modernitet som aldrig kom - 1900, Guest");
    assert_eq!(Track::label("Alone", &Vec::new()), "Alone - ");
}

#[test]
fn durations_are_milliseconds() {
    assert_eq!(Track::duration_millis(0), 0);
    assert_eq!(Track::duration_millis(215_000), 215_000);
    assert_eq!(Track::duration_millis(-1), u64::MAX);
}

#[test]
fn item_indices_count_up_from_zero() {
    assert_eq!(item_indices(4), vec![0, 1, 2, 3]);
    assert_eq!(item_indices(0), Vec::<i32>::new());
    assert_eq!(item_indices(-3), Vec::<i32>::new());
}

#[test]
fn playlist_tracks_are_below_the_count() {
    assert!(Playlist::has_track(0, 3));
    assert!(Playlist::has_track(2, 3));
    assert!(!Playlist::has_track(3, 3));
    assert!(!Playlist::has_track(0, 0));
    for index in item_indices(5) {
        assert!(Playlist::has_track(index, 5));
    }
}

#[test]
fn only_real_playlists_are_handed_out() {
    assert!(Session::playlist_entry(0, 2, 0));
    assert!(!Session::playlist_entry(1, 2, 1));
    assert!(!Session::playlist_entry(1, 2, 2));
    assert!(!Session::playlist_entry(1, 2, 3));
    assert!(!Session::playlist_entry(2, 2, 0));
    assert!(!Session::playlist_entry(0, 2, 17));
}

#[test]
fn playlist_indices_skip_folders() {
    // playlist, folder start, playlist, folder end, placeholder, playlist
    let kinds = vec![0, 1, 0, 2, 3, 0];
    assert_eq!(Session::playlist_indices(&kinds), vec![0, 2, 5]);
    assert_eq!(Session::playlist_indices(&Vec::new()), Vec::<i32>::new());
    assert_eq!(Session::playlist_indices(&vec![1, 2]), Vec::<i32>::new());
}

#[test]
fn session_settings_carry_key_size() {
    let settings = SessionSettings::new(321);
    assert_eq!(settings.api_version, 12);
    assert_eq!(settings.application_key_size, 321);
    assert!(!settings.compress_playlists);
    assert!(!settings.dont_save_metadata_for_playlists);
    assert!(!settings.initially_unload_playlists);
}

#[test]
fn search_asks_for_a_hundred_tracks() {
    let request = SearchRequest::tracks_only();
    assert_eq!(request.track_offset, 0);
    assert_eq!(request.track_count, 100);
    assert_eq!(request.album_count, 0);
    assert_eq!(request.artist_count, 0);
    assert_eq!(request.playlist_count, 0);
    assert_eq!(request.search_type, SpSearchType::SpSearchStandard);
}

#[test]
fn link_resolution_of_a_track() {
    assert_eq!(Link::next_step(LinkProgress::Parsed(0x10)), LinkStep::AskKind(0x10));
    assert_eq!(Link::next_step(LinkProgress::Typed(0x10, 1)), LinkStep::AskTrack(0x10));
    assert_eq!(
        Link::next_step(LinkProgress::TrackFound(0x20)),
        LinkStep::Resolved(Link::TrackLink(Track::new(0x20)))
    );
}

#[test]
fn link_resolution_of_other_links() {
    assert_eq!(Link::next_step(LinkProgress::Parsed(0)), LinkStep::Resolved(Link::Invalid));
    assert_eq!(Link::next_step(LinkProgress::Typed(0x10, 2)), LinkStep::Resolved(Link::Invalid));
    assert_eq!(Link::next_step(LinkProgress::Typed(0x10, 0)), LinkStep::Resolved(Link::Invalid));
    assert_eq!(Link::next_step(LinkProgress::Typed(0x10, 99)), LinkStep::Resolved(Link::Invalid));
}

#[test]
fn deliveries_are_turned_away_when_the_queue_is_full() {
    assert!(accepts_delivery(10, 0));
    assert!(!accepts_delivery(11, 0));
    assert!(accepts_delivery(15, 5));
    assert!(!accepts_delivery(16, 5));
    assert_eq!(DeliveryPlan::new(20, 0, 2048), DeliveryPlan::TurnAway);
    assert_eq!(DeliveryPlan::new(20, 0, 2048).reported(), 0);
}

#[test]
fn accepted_deliveries_report_twice_the_frames() {
    assert_eq!(consumed_frames(2048), 4096);
    assert_eq!(DeliveryPlan::new(3, 1, 2048), DeliveryPlan::Take { consumed: 4096 });
    assert_eq!(DeliveryPlan::new(3, 1, 2048).reported(), 4096);
    assert_eq!(DeliveryPlan::new(0, 0, 0).reported(), 0);
}

#[test]
fn stereo_frames_split_low_half_first() {
    assert_eq!(stereo_samples(&vec![0x0002_0001]), vec![1i16, 2]);
    assert_eq!(stereo_samples(&vec![-1, 0x0000_ffff]), vec![-1i16, -1, -1, 0]);
    assert_eq!(stereo_samples(&Vec::new()), Vec::<i16>::new());
}
