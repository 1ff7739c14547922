use vstd::prelude::*;

use crate::native::SpError;

verus! {

/// A notification the native library raises through one of the session callbacks.
#[derive(Debug, Clone, Copy, PartialEq, Eq, Structural)]
pub enum SpSessionCallback {
    LoggedIn,
    LoggedOut,
    MetadataUpdated,
    ConnectionError(SpError),
    NotifyMainThread,
    PlayTokenLost,
    EndOfTrack,
    StreamingError(SpError),
    UserinfoUpdated,
    StartPlayback,
    StopPlayback,
    OfflineStatusUpdated,
    OfflineError(SpError),
    ConnectionstateUpdated,
    ScrobbleError(SpError),
    PrivateSessionModeChanged(bool),
}

/// An event that a session reports to its user.
#[derive(Debug, Clone, Copy, PartialEq, Eq, Structural)]
pub enum Event {
    LoggedIn,
    EndOfTrack,
}

/// What the session's event worker does with one notification.
#[derive(Debug, Clone, Copy, PartialEq, Eq, Structural)]
pub enum ChannelAction {
    /// Hand the event on to the session's user.
    Forward(Event),
    /// Let the native library process its pending events.
    ProcessEvents,
    /// Nothing.
    Ignore,
}

/// The action the event worker takes for `callback`.
pub open spec fn action_for(callback: SpSessionCallback) -> ChannelAction {
    match callback {
        SpSessionCallback::LoggedIn => ChannelAction::Forward(Event::LoggedIn),
        SpSessionCallback::EndOfTrack => ChannelAction::Forward(Event::EndOfTrack),
        SpSessionCallback::NotifyMainThread => ChannelAction::ProcessEvents,
        _ => ChannelAction::Ignore,
    }
}

/// Decides what the session's event worker does with a notification from the
/// native library: a login or the end of a track is passed on to the user, a
/// request from the library to be serviced makes it process its events, and
/// every other notification is dropped.
pub fn route_callback(callback: &SpSessionCallback) -> (action: ChannelAction)
    ensures
        action == action_for(*callback),
        action == ChannelAction::Forward(Event::LoggedIn) <==> *callback == SpSessionCallback::LoggedIn,
        action == ChannelAction::Forward(Event::EndOfTrack) <==> *callback == SpSessionCallback::EndOfTrack,
        action == ChannelAction::ProcessEvents <==> *callback == SpSessionCallback::NotifyMainThread,
        action == ChannelAction::Ignore <==> !(*callback == SpSessionCallback::LoggedIn
            || *callback == SpSessionCallback::EndOfTrack
            || *callback == SpSessionCallback::NotifyMainThread),
{
    match callback {
        SpSessionCallback::LoggedIn => ChannelAction::Forward(Event::LoggedIn),
        SpSessionCallback::EndOfTrack => ChannelAction::Forward(Event::EndOfTrack),
        SpSessionCallback::NotifyMainThread => ChannelAction::ProcessEvents,
        _ => ChannelAction::Ignore,
    }
}

/// Only a login or the end of a track ever reaches the session's user, and each
/// reaches it as the event of the same name.
pub proof fn forwarded_events_match(callback: SpSessionCallback, event: Event)
    requires
        action_for(callback) == ChannelAction::Forward(event),
    ensures
        event == Event::LoggedIn <==> callback == SpSessionCallback::LoggedIn,
        event == Event::EndOfTrack <==> callback == SpSessionCallback::EndOfTrack,
{
}

/// The worker passes on a login and the end of a track as the events of the same
/// name, services the native library exactly when the library asks for it, and
/// drops every other notification, whatever error or flag it carries.
pub proof fn worker_routing(callback: SpSessionCallback)
    ensures
        action_for(callback) == ChannelAction::Forward(Event::LoggedIn) <==> callback
            == SpSessionCallback::LoggedIn,
        action_for(callback) == ChannelAction::Forward(Event::EndOfTrack) <==> callback
            == SpSessionCallback::EndOfTrack,
        action_for(callback) == ChannelAction::ProcessEvents <==> callback
            == SpSessionCallback::NotifyMainThread,
        action_for(callback) == ChannelAction::Ignore <==> !(callback == SpSessionCallback::LoggedIn
            || callback == SpSessionCallback::EndOfTrack || callback
            == SpSessionCallback::NotifyMainThread),
{
}

} // verus!
