use vstd::prelude::*;

use crate::text::{i64_to_string, int_error_text, spec_i64_dec, spec_int_error_text, IntParseError};
use crate::track::{format_track, spec_format_track, TrackDescriptor};

verus! {

/// Reply to a successful immediate play.
pub open spec fn spec_msg_playing(t: TrackDescriptor) -> Seq<char> {
    "Playing "@ + spec_format_track(t)
}

pub fn msg_playing(track: &TrackDescriptor) -> (r: String)
    ensures
        r@ == spec_msg_playing(*track),
{
    String::from_str("Playing ").concat(format_track(track).as_str())
}

/// Reply to a successful enqueue.
pub open spec fn spec_msg_enqueued(t: TrackDescriptor) -> Seq<char> {
    "Enqueued "@ + spec_format_track(t)
}

pub fn msg_enqueued(track: &TrackDescriptor) -> (r: String)
    ensures
        r@ == spec_msg_enqueued(*track),
{
    String::from_str("Enqueued ").concat(format_track(track).as_str())
}

/// Status posted when a track ended and the queue yielded the next one.
pub open spec fn spec_msg_playing_from_queue(t: TrackDescriptor) -> Seq<char> {
    "Playing "@ + spec_format_track(t) + " from queue"@
}

pub fn msg_playing_from_queue(track: &TrackDescriptor) -> (r: String)
    ensures
        r@ == spec_msg_playing_from_queue(*track),
{
    let r = String::from_str("Playing ").concat(format_track(track).as_str()).concat(
        " from queue",
    );
    proof {
        assert(r@ =~= spec_msg_playing_from_queue(*track));
    }
    r
}

/// Status posted when a track ended and the queue was empty.
pub fn msg_queue_empty() -> (r: String)
    ensures
        r@ == "Queue empty"@,
{
    String::from_str("Queue empty")
}

/// Status posted when the node reports a track has started.
pub fn msg_now_playing() -> (r: String)
    ensures
        r@ == "Playing the track"@,
{
    String::from_str("Playing the track")
}

/// Reply when resolution found nothing.
pub fn msg_no_tracks() -> (r: String)
    ensures
        r@ == "No tracks found"@,
{
    String::from_str("No tracks found")
}

/// Reply when the author is in no voice channel.
pub fn msg_need_voice_channel() -> (r: String)
    ensures
        r@ == "You need to join a voice channel first"@,
{
    String::from_str("You need to join a voice channel first")
}

/// Reply when a play or enqueue command came without a track argument.
pub fn msg_pass_track() -> (r: String)
    ensures
        r@ == "Pass track as an argument"@,
{
    String::from_str("Pass track as an argument")
}

/// Reply when a volume command came without a value.
pub fn msg_pass_volume() -> (r: String)
    ensures
        r@ == "Pass volume value as an argument"@,
{
    String::from_str("Pass volume value as an argument")
}

/// Reply when a seek command came without a position.
pub fn msg_pass_seek() -> (r: String)
    ensures
        r@ == "Pass seek position in milliseconds as an argument"@,
{
    String::from_str("Pass seek position in milliseconds as an argument")
}

/// Reply when a volume argument does not parse as an integer, naming the
/// reason.
pub open spec fn spec_msg_volume_invalid(e: IntParseError) -> Seq<char> {
    "Volume value is invalid: "@ + spec_int_error_text(e)
}

pub fn msg_volume_invalid(e: &IntParseError) -> (r: String)
    ensures
        r@ == spec_msg_volume_invalid(*e),
{
    String::from_str("Volume value is invalid: ").concat(int_error_text(e))
}

/// Reply when a seek argument does not parse as an integer, naming the
/// reason.
pub open spec fn spec_msg_position_invalid(e: IntParseError) -> Seq<char> {
    "Position is invalid: "@ + spec_int_error_text(e)
}

pub fn msg_position_invalid(e: &IntParseError) -> (r: String)
    ensures
        r@ == spec_msg_position_invalid(*e),
{
    String::from_str("Position is invalid: ").concat(int_error_text(e))
}

/// Reply after the node accepted a volume change.
pub open spec fn spec_msg_volume_set(v: int) -> Seq<char> {
    "Volume was set to "@ + spec_i64_dec(v)
}

pub fn msg_volume_set(value: i64) -> (r: String)
    ensures
        r@ == spec_msg_volume_set(value as int),
{
    String::from_str("Volume was set to ").concat(i64_to_string(value).as_str())
}

/// Reply after the node accepted a seek.
pub open spec fn spec_msg_position_set(v: int) -> Seq<char> {
    "Position was set to "@ + spec_i64_dec(v) + "ms"@
}

pub fn msg_position_set(position_in_millis: i64) -> (r: String)
    ensures
        r@ == spec_msg_position_set(position_in_millis as int),
{
    let r = String::from_str("Position was set to ").concat(
        i64_to_string(position_in_millis).as_str(),
    ).concat("ms");
    proof {
        assert(r@ =~= spec_msg_position_set(position_in_millis as int));
    }
    r
}

/// Reply after a pause toggle, for the new paused state.
pub fn msg_pause_state(paused: bool) -> (r: String)
    ensures
        paused ==> r@ == "Paused"@,
        !paused ==> r@ == "Unpaused"@,
{
    if paused {
        String::from_str("Paused")
    } else {
        String::from_str("Unpaused")
    }
}

/// Reply to a ping.
pub fn msg_pong() -> (r: String)
    ensures
        r@ == "pong"@,
{
    String::from_str("pong")
}

} // verus!
