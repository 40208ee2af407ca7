use vstd::prelude::*;

use crate::ids::{ChannelId, GuildId};
use crate::track::TrackDescriptor;

verus! {

/// One outbound operation against an external collaborator: the gateway
/// (voice membership), the remote audio-rendering node (playback), or the
/// text adapter (status replies). The core decides on directives; an
/// unverified driver executes them, in the order given.
#[derive(Debug, PartialEq, Eq)]
pub enum Directive {
    /// Join the guild's voice channel; must precede any audio command for
    /// that guild.
    JoinVoice { guild: GuildId, channel: ChannelId },
    /// Leave the guild's voice channel; must follow the audio stop.
    LeaveVoice { guild: GuildId },
    /// Start rendering the given track.
    PlayTrack { guild: GuildId, track: TrackDescriptor },
    /// Pause or resume rendering.
    SetPaused { guild: GuildId, paused: bool },
    /// Move the play position, in milliseconds.
    SeekTo { guild: GuildId, position_in_millis: i64 },
    /// Set the rendering volume; the core validates the bounds first.
    SetVolume { guild: GuildId, value: i64 },
    /// Drop the guild's playback state on the node.
    DestroyPlayer { guild: GuildId },
    /// Post status text to a text channel.
    SendMessage { channel: ChannelId, text: String },
}

} // verus!
