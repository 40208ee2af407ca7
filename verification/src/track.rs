use vstd::prelude::*;

verus! {

/// A playable track: the remote node's opaque token plus display metadata.
/// Immutable once obtained; it lives inside a queue entry until dequeued and
/// is then handed to the play directive.
#[derive(Debug, PartialEq, Eq)]
pub struct TrackDescriptor {
    /// Opaque token the remote node issued; the only thing a play directive
    /// needs.
    pub token: String,
    /// Display title, when the node reported one.
    pub title: Option<String>,
    /// Display author, when the node reported one.
    pub author: Option<String>,
}

/// The title as shown to users: the reported title, or empty when the node
/// reported none.
pub open spec fn spec_title(t: TrackDescriptor) -> Seq<char> {
    match t.title {
        Some(s) => s@,
        None => Seq::empty(),
    }
}

/// The author as shown to users: the reported author, or empty when the node
/// reported none.
pub open spec fn spec_author(t: TrackDescriptor) -> Seq<char> {
    match t.author {
        Some(s) => s@,
        None => Seq::empty(),
    }
}

/// How a track is rendered in status messages.
pub open spec fn spec_format_track(t: TrackDescriptor) -> Seq<char> {
    "**"@ + spec_title(t) + "** by **"@ + spec_author(t) + "**"@
}

/// Renders a track for a status message: `**title** by **author**`, with an
/// empty title or author where the node reported none.
pub fn format_track(track: &TrackDescriptor) -> (r: String)
    ensures
        r@ == spec_format_track(*track),
{
    let mut s = String::from_str("**");
    match &track.title {
        Some(t) => s.append(t.as_str()),
        None => {},
    }
    s.append("** by **");
    match &track.author {
        Some(a) => s.append(a.as_str()),
        None => {},
    }
    s.append("**");
    proof {
        assert(s@ =~= spec_format_track(*track));
    }
    s
}

} // verus!
