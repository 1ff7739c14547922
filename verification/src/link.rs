use vstd::prelude::*;

use crate::native::{link_type_code, SpLinkType};
use crate::track::Track;

verus! {

/// What a link string turned out to name.
#[derive(Debug, Clone, Copy, PartialEq, Eq, Structural)]
pub enum Link {
    TrackLink(Track),
    Invalid,
}

/// What is known so far while the native library resolves a link string.
#[derive(Debug, Clone, Copy, PartialEq, Eq, Structural)]
pub enum LinkProgress {
    /// The library parsed the string into this link handle; zero when it could not.
    Parsed(usize),
    /// The link handle, and the numeric kind the library reports for it.
    Typed(usize, i32),
    /// The handle of the track that a track link names.
    TrackFound(usize),
}

/// What to do next while resolving a link string.
#[derive(Debug, Clone, Copy, PartialEq, Eq, Structural)]
pub enum LinkStep {
    /// Ask the library what kind of link this handle is.
    AskKind(usize),
    /// Ask the library for the track this link handle names.
    AskTrack(usize),
    /// The link is resolved.
    Resolved(Link),
}

/// The next step of resolving a link, given what is known so far.
pub open spec fn next_link_step(progress: LinkProgress) -> LinkStep {
    match progress {
        LinkProgress::Parsed(link) => if link == 0 {
            LinkStep::Resolved(Link::Invalid)
        } else {
            LinkStep::AskKind(link)
        },
        LinkProgress::Typed(link, raw_kind) => if raw_kind as int == link_type_code(
            SpLinkType::SpLinktypeTrack,
        ) {
            LinkStep::AskTrack(link)
        } else {
            LinkStep::Resolved(Link::Invalid)
        },
        LinkProgress::TrackFound(track) => LinkStep::Resolved(Link::TrackLink(Track::new_spec(track))),
    }
}

/// The link that a string resolves to when the library parses it into the handle
/// `link`, reports the numeric kind `raw_kind` for that handle if it is asked, and
/// gives the track handle `track` if it is asked for the track: each answer is only
/// used where the steps before ask for it.
pub open spec fn resolved_link(link: usize, raw_kind: i32, track: usize) -> Link {
    match next_link_step(LinkProgress::Parsed(link)) {
        LinkStep::Resolved(l) => l,
        LinkStep::AskKind(h) => match next_link_step(LinkProgress::Typed(h, raw_kind)) {
            LinkStep::Resolved(l) => l,
            _ => match next_link_step(LinkProgress::TrackFound(track)) {
                LinkStep::Resolved(l) => l,
                _ => Link::Invalid,
            },
        },
        LinkStep::AskTrack(_) => Link::Invalid,
    }
}

impl Link {
    /// Decides the next step of resolving a link string: a string the library could
    /// not parse is invalid; a parsed link is asked for its kind; a track link is
    /// asked for its track, any other kind of link is invalid; and a found track
    /// makes the link a track link.
    pub fn next_step(progress: LinkProgress) -> (step: LinkStep)
        ensures
            step == next_link_step(progress),
            forall|h: usize| progress == LinkProgress::Parsed(h) ==> (if h == 0 {
                step == LinkStep::Resolved(Link::Invalid)
            } else {
                step == LinkStep::AskKind(h)
            }),
            forall|h: usize, k: i32| progress == LinkProgress::Typed(h, k) ==> (if k == 1 {
                step == LinkStep::AskTrack(h)
            } else {
                step == LinkStep::Resolved(Link::Invalid)
            }),
            forall|t: usize| progress == LinkProgress::TrackFound(t) ==> (step matches LinkStep::Resolved(
                Link::TrackLink(track),
            ) && track@ == t),
    {
        match progress {
            LinkProgress::Parsed(link) => {
                if link == 0 {
                    LinkStep::Resolved(Link::Invalid)
                } else {
                    LinkStep::AskKind(link)
                }
            },
            LinkProgress::Typed(link, raw_kind) => {
                match SpLinkType::from_raw(raw_kind) {
                    Some(SpLinkType::SpLinktypeTrack) => LinkStep::AskTrack(link),
                    _ => LinkStep::Resolved(Link::Invalid),
                }
            },
            LinkProgress::TrackFound(track) => LinkStep::Resolved(Link::TrackLink(Track::new(track))),
        }
    }
}

/// Resolving a link passes each native handle on unchanged: a parsed, non-null
/// link handle is the one asked for its kind, a link reported as a track (kind
/// code one) is the one asked for its track, and a found track handle is the one
/// the track link holds; a null handle or any other kind gives an invalid link.
pub proof fn link_steps_keep_handles(h: usize, k: i32, t: usize)
    ensures
        h == 0 ==> next_link_step(LinkProgress::Parsed(h)) == LinkStep::Resolved(Link::Invalid),
        h != 0 ==> next_link_step(LinkProgress::Parsed(h)) == LinkStep::AskKind(h),
        k == 1 ==> next_link_step(LinkProgress::Typed(h, k)) == LinkStep::AskTrack(h),
        k != 1 ==> next_link_step(LinkProgress::Typed(h, k)) == LinkStep::Resolved(Link::Invalid),
        next_link_step(LinkProgress::TrackFound(t)) matches LinkStep::Resolved(Link::TrackLink(track))
            && track@ == t,
{
    Track::new_spec_handle(t);
}

/// A link string resolves to a track link exactly when the library parses it and
/// reports a track kind for it, and the track link then holds the track the
/// library gives for it.
pub proof fn resolves_to_track_iff(link: usize, raw_kind: i32, track: usize)
    ensures
        resolved_link(link, raw_kind, track) is TrackLink <==> (link != 0 && raw_kind as int
            == link_type_code(SpLinkType::SpLinktypeTrack)),
        resolved_link(link, raw_kind, track) is TrackLink ==> resolved_link(link, raw_kind, track)
            == Link::TrackLink(Track::new_spec(track)),
{
}

} // verus!
