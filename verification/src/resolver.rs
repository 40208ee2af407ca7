use vstd::prelude::*;

use crate::action::NoTracksFound;
use crate::track::TrackDescriptor;

verus! {

/// Why a resolution yielded no track. The two causes are kept apart because
/// callers render them differently: a miss is reported to the user, a broken
/// search is not conflated with one.
#[derive(Debug, PartialEq, Eq)]
pub enum ResolveError {
    /// The search went through but its result set was empty.
    NotFound,
    /// The search request failed in transport or parsing.
    ResolutionFailed,
}

/// Picks the track a search result stands for: the first entry, discarding
/// alternates. An empty result set means none was found.
pub fn select_track(tracks: Vec<TrackDescriptor>) -> (r: Result<TrackDescriptor, NoTracksFound>)
    ensures
        tracks@.len() == 0 ==> r == Err::<TrackDescriptor, NoTracksFound>(NoTracksFound),
        tracks@.len() > 0 ==> r == Ok::<TrackDescriptor, NoTracksFound>(tracks@[0]),
{
    let mut tracks = tracks;
    if tracks.len() == 0 {
        Err(NoTracksFound)
    } else {
        Ok(tracks.remove(0))
    }
}

/// Classifies the outcome of a search against the remote node: `fetched` is
/// the parsed result set when the request went through, `None` when
/// transport or parsing failed. Exactly an empty result set is a miss.
pub fn resolve(fetched: Option<Vec<TrackDescriptor>>) -> (r: Result<TrackDescriptor, ResolveError>)
    ensures
        match fetched {
            None => r == Err::<TrackDescriptor, ResolveError>(ResolveError::ResolutionFailed),
            Some(ts) => if ts@.len() == 0 {
                r == Err::<TrackDescriptor, ResolveError>(ResolveError::NotFound)
            } else {
                r == Ok::<TrackDescriptor, ResolveError>(ts@[0])
            },
        },
{
    match fetched {
        None => Err(ResolveError::ResolutionFailed),
        Some(tracks) => match select_track(tracks) {
            Ok(track) => Ok(track),
            Err(NoTracksFound) => Err(ResolveError::NotFound),
        },
    }
}

} // verus!
