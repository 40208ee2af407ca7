use vstd::prelude::*;

use crate::directive::Directive;
use crate::ids::GuildId;
use crate::per_guild_data::{queues_unchanged_except, replies_unchanged_except, Store};
use crate::text::{i64_to_string, spec_i64_dec};
use crate::track::TrackDescriptor;

verus! {

/// The lowest volume the remote node accepts.
pub const VOLUME_LOWER_BOUND: i64 = 0;

/// The highest volume the remote node accepts.
pub const VOLUME_UPPER_BOUND: i64 = 1000;

/// Resolution returned an empty result set: a user-facing, non-fatal
/// condition, distinct from a transport failure.
#[derive(Debug, PartialEq, Eq)]
pub struct NoTracksFound;

/// A volume value outside the accepted bounds; detected before any remote
/// call, so a rejected value has no observable side effect.
#[derive(Debug, PartialEq, Eq)]
pub struct VolumeValueOutOfBounds {
    pub value: i64,
}

impl VolumeValueOutOfBounds {
    /// How this condition reads to a user.
    pub open spec fn spec_message(self) -> Seq<char> {
        "volume value is out of bounds: "@ + spec_i64_dec(self.value as int)
            + ", must be in 0..=1000"@
    }

    pub fn message(&self) -> (r: String)
        ensures
            r@ == self.spec_message(),
    {
        let r = String::from_str("volume value is out of bounds: ").concat(
            i64_to_string(self.value).as_str(),
        ).concat(", must be in 0..=1000");
        proof {
            assert(r@ =~= self.spec_message());
        }
        r
    }
}

/// The play directive for a resolved track. The voice join for the guild
/// must already have been issued; the caller sequences that.
pub fn play(guild_id: GuildId, track: TrackDescriptor) -> (d: Directive)
    ensures
        d == (Directive::PlayTrack { guild: guild_id, track }),
{
    Directive::PlayTrack { guild: guild_id, track }
}

/// Appends a resolved track to the guild's queue. Enqueueing never starts
/// playback: no play directive exists here.
pub fn enqueue(store: &mut Store, guild_id: GuildId, track: TrackDescriptor)
    ensures
        final(store).spec_queue(guild_id) == old(store).spec_queue(guild_id).push(track),
        final(store).spec_reply(guild_id) == old(store).spec_reply(guild_id),
        queues_unchanged_except(*old(store), *final(store), guild_id),
        replies_unchanged_except(*old(store), *final(store), guild_id),
{
    let ghost t = track;
    let mut tracks: Vec<TrackDescriptor> = Vec::new();
    tracks.push(track);
    store.enqueue_tracks(guild_id, tracks);
    proof {
        assert(old(store).spec_queue(guild_id) + seq![t] =~= old(store).spec_queue(
            guild_id,
        ).push(t));
    }
}

/// Dequeues the guild's next track and, when one is there, turns it into a
/// play directive. An empty queue yields `None` and no directive at all.
pub fn play_from_queue(store: &mut Store, guild_id: GuildId) -> (r: Option<Directive>)
    ensures
        old(store).spec_queue(guild_id).len() == 0 ==> r is None && final(store).spec_queue(
            guild_id,
        ) == old(store).spec_queue(guild_id),
        old(store).spec_queue(guild_id).len() > 0 ==> r == Some(
            (Directive::PlayTrack { guild: guild_id, track: old(store).spec_queue(guild_id)[0] }),
        ) && final(store).spec_queue(guild_id) == old(store).spec_queue(guild_id).drop_first(),
        final(store).spec_reply(guild_id) == old(store).spec_reply(guild_id),
        queues_unchanged_except(*old(store), *final(store), guild_id),
        replies_unchanged_except(*old(store), *final(store), guild_id),
{
    match store.next_track(guild_id) {
        None => None,
        Some(track) => Some(play(guild_id, track)),
    }
}

/// The directives that stop playback for a guild: destroy the node-side
/// player first, leave the voice channel second — audio stop strictly before
/// voice leave, to avoid orphaned playback state on the node.
pub fn stop(guild_id: GuildId) -> (ds: Vec<Directive>)
    ensures
        ds@ == seq![
            (Directive::DestroyPlayer { guild: guild_id }),
            (Directive::LeaveVoice { guild: guild_id }),
        ],
{
    let mut ds: Vec<Directive> = Vec::new();
    ds.push(Directive::DestroyPlayer { guild: guild_id });
    ds.push(Directive::LeaveVoice { guild: guild_id });
    proof {
        assert(ds@ =~= seq![
            (Directive::DestroyPlayer { guild: guild_id }),
            (Directive::LeaveVoice { guild: guild_id }),
        ]);
    }
    ds
}

/// Validates a volume value and, only when it lies within the bounds, yields
/// the volume directive; an out-of-bounds value yields the error and no
/// directive, so nothing reaches the node.
pub fn volume(guild_id: GuildId, value: i64) -> (r: Result<Directive, VolumeValueOutOfBounds>)
    ensures
        r is Ok <==> VOLUME_LOWER_BOUND <= value <= VOLUME_UPPER_BOUND,
        r matches Ok(d) ==> d == (Directive::SetVolume { guild: guild_id, value }),
        r matches Err(e) ==> e == (VolumeValueOutOfBounds { value }),
{
    if value < VOLUME_LOWER_BOUND || value > VOLUME_UPPER_BOUND {
        Err(VolumeValueOutOfBounds { value })
    } else {
        Ok(Directive::SetVolume { guild: guild_id, value })
    }
}

/// The seek directive for a position in milliseconds.
pub fn seek(guild_id: GuildId, position_in_millis: i64) -> (d: Directive)
    ensures
        d == (Directive::SeekTo { guild: guild_id, position_in_millis }),
{
    Directive::SeekTo { guild: guild_id, position_in_millis }
}

/// Negates the last known paused state: paused becomes playing and playing
/// becomes paused. Yields the pause directive carrying the new state, and
/// that state as the result to report.
pub fn pause_toggle(guild_id: GuildId, was_paused: bool) -> (r: (Directive, bool))
    ensures
        r.0 == (Directive::SetPaused { guild: guild_id, paused: !was_paused }),
        r.1 == !was_paused,
{
    let should_be_paused = !was_paused;
    (Directive::SetPaused { guild: guild_id, paused: should_be_paused }, should_be_paused)
}

} // verus!
