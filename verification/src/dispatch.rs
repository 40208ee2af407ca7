use vstd::prelude::*;

use crate::action::{
    enqueue, play, seek, stop, volume, VolumeValueOutOfBounds, VOLUME_LOWER_BOUND,
    VOLUME_UPPER_BOUND,
};
use crate::commands::ParsedCommand;
use crate::directive::Directive;
use crate::ids::{ChannelId, GuildId};
use crate::messages::{
    msg_enqueued, msg_no_tracks, msg_need_voice_channel, msg_pass_seek, msg_pass_track,
    msg_pass_volume, msg_playing, msg_pong, msg_position_invalid, msg_position_set,
    msg_volume_invalid, msg_volume_set, spec_msg_enqueued, spec_msg_playing,
    spec_msg_position_invalid, spec_msg_position_set, spec_msg_volume_invalid,
    spec_msg_volume_set,
};
use crate::per_guild_data::{queues_unchanged_except, replies_unchanged_except, Store};
use crate::resolver::ResolveError;
use crate::text::{parse_i64, spec_parse_i64, str_eq};
use crate::track::TrackDescriptor;

verus! {

/// What a track request will do with the track once it is resolved: start it
/// at once, or append it to the queue.
#[derive(Clone, Copy, Debug, PartialEq, Eq, Structural)]
pub enum Mode {
    Play,
    Enqueue,
}

/// A track request that has issued its voice join and now awaits resolution.
#[derive(Debug, PartialEq, Eq)]
pub struct PendingLoad {
    pub guild: GuildId,
    pub mode: Mode,
    pub identifier: String,
}

/// What the driver must do next for a parsed command.
#[derive(Debug, PartialEq, Eq)]
pub enum Plan {
    /// Not a recognized command; silently ignored, no error reply.
    Ignore,
    /// Answer with this text and do nothing else.
    Reply { text: String },
    /// Issue the directives in order; when all of them went through, send
    /// the reply, if any, to the channel the command came from.
    Execute { directives: Vec<Directive>, reply: Option<String> },
    /// Look up the voice channel of the command's author, then continue with
    /// `start_track_request`.
    NeedVoice { mode: Mode, identifier: String },
    /// Read the player's last known paused state, then continue with
    /// `pause_toggle`.
    TogglePause,
}

/// The first half of a track request, before any remote call.
#[derive(Debug, PartialEq, Eq)]
pub enum StartPlan {
    /// The request cannot proceed; answer with this text. Nothing was
    /// joined, resolved or played.
    Reply { text: String },
    /// Issue the voice join, then resolve the identifier and continue with
    /// `finish_track_request`.
    Join { directive: Directive, pending: PendingLoad },
}

/// The second half of a track request, after resolution.
#[derive(Debug, PartialEq, Eq)]
pub enum FinishPlan {
    /// Resolution failed in transport; there is nothing to tell the user,
    /// the driver logs it.
    Failed,
    /// Answer with this text and do nothing else.
    Reply { text: String },
    /// Issue the directives in order, then send the reply.
    Execute { directives: Vec<Directive>, reply: String },
}

/// The command words the controller reacts to.
pub open spec fn spec_known_command(name: Seq<char>) -> bool {
    ||| name == "play"@
    ||| name == "add"@
    ||| name == "enqueue"@
    ||| name == "stop"@
    ||| name == "volume"@
    ||| name == "seek"@
    ||| name == "pause"@
    ||| name == "ping"@
}

/// Turns a parsed command into the next step for the driver. Always records
/// the channel the command came from as the guild's reply channel, exactly
/// as the original message flow observed it; queues are never touched here.
/// Bounds validation for `volume` happens here, before any remote call.
pub fn plan_command(
    store: &mut Store,
    guild_id: GuildId,
    channel_id: ChannelId,
    cmd: &ParsedCommand,
) -> (r: Plan)
    ensures
        final(store).spec_reply(guild_id) == Some(channel_id),
        final(store).spec_queue(guild_id) == old(store).spec_queue(guild_id),
        queues_unchanged_except(*old(store), *final(store), guild_id),
        replies_unchanged_except(*old(store), *final(store), guild_id),
        (cmd.name@ == "play"@ || cmd.name@ == "add"@ || cmd.name@ == "enqueue"@) ==> ({
            if cmd.args@.len() == 0 {
                r matches (Plan::Reply { text }) && text@ == "Pass track as an argument"@
            } else {
                &&& r matches (Plan::NeedVoice { mode, identifier })
                &&& mode == (if cmd.name@ == "play"@ {
                    Mode::Play
                } else {
                    Mode::Enqueue
                })
                &&& identifier@ == cmd.args@[0]@
            }
        }),
        cmd.name@ == "stop"@ ==> ({
            &&& r matches (Plan::Execute { directives, reply })
            &&& directives@ == seq![
                (Directive::DestroyPlayer { guild: guild_id }),
                (Directive::LeaveVoice { guild: guild_id }),
            ]
            &&& reply is None
        }),
        cmd.name@ == "volume"@ ==> ({
            if cmd.args@.len() == 0 {
                r matches (Plan::Reply { text }) && text@ == "Pass volume value as an argument"@
            } else {
                match spec_parse_i64(cmd.args@[0]@) {
                    Ok(v) => if VOLUME_LOWER_BOUND <= v <= VOLUME_UPPER_BOUND {
                        &&& r matches (Plan::Execute { directives, reply })
                        &&& directives@ == seq![
                            (Directive::SetVolume { guild: guild_id, value: v as i64 }),
                        ]
                        &&& reply matches Some(t) && t@ == spec_msg_volume_set(v)
                    } else {
                        r matches (Plan::Reply { text }) && text@ == "Invalid volume value: "@
                            + (VolumeValueOutOfBounds { value: v as i64 }).spec_message()
                    },
                    Err(e) => r matches (Plan::Reply { text }) && text@
                        == spec_msg_volume_invalid(e),
                }
            }
        }),
        cmd.name@ == "seek"@ ==> ({
            if cmd.args@.len() == 0 {
                r matches (Plan::Reply { text }) && text@
                    == "Pass seek position in milliseconds as an argument"@
            } else {
                match spec_parse_i64(cmd.args@[0]@) {
                    Ok(v) => ({
                        &&& r matches (Plan::Execute { directives, reply })
                        &&& directives@ == seq![
                            (Directive::SeekTo { guild: guild_id, position_in_millis: v as i64 }),
                        ]
                        &&& reply matches Some(t) && t@ == spec_msg_position_set(v)
                    }),
                    Err(e) => r matches (Plan::Reply { text }) && text@
                        == spec_msg_position_invalid(e),
                }
            }
        }),
        cmd.name@ == "pause"@ ==> r is TogglePause,
        cmd.name@ == "ping"@ ==> ({
            r matches (Plan::Reply { text }) && text@ == "pong"@
        }),
        !spec_known_command(cmd.name@) ==> r is Ignore,
{
    store.associate_text_channel(guild_id, channel_id);
    proof {
        reveal_strlit("play");
        reveal_strlit("add");
        reveal_strlit("enqueue");
        reveal_strlit("stop");
        reveal_strlit("volume");
        reveal_strlit("seek");
        reveal_strlit("pause");
        reveal_strlit("ping");
        assert("play"@.len() == 4 && "add"@.len() == 3 && "enqueue"@.len() == 7);
        assert("stop"@.len() == 4 && "volume"@.len() == 6 && "seek"@.len() == 4);
        assert("pause"@.len() == 5 && "ping"@.len() == 4);
        assert("play"@[0] == 'p' && "play"@[1] == 'l');
        assert("stop"@[0] == 's' && "stop"@[1] == 't');
        assert("seek"@[0] == 's' && "seek"@[1] == 'e');
        assert("ping"@[0] == 'p' && "ping"@[1] == 'i');
    }
    let name = cmd.name.as_str();
    if str_eq(name, "play") || str_eq(name, "add") || str_eq(name, "enqueue") {
        let mode = if str_eq(name, "play") {
            Mode::Play
        } else {
            Mode::Enqueue
        };
        if cmd.args.len() == 0 {
            Plan::Reply { text: msg_pass_track() }
        } else {
            Plan::NeedVoice { mode, identifier: cmd.args[0].clone() }
        }
    } else if str_eq(name, "stop") {
        Plan::Execute { directives: stop(guild_id), reply: None }
    } else if str_eq(name, "volume") {
        if cmd.args.len() == 0 {
            Plan::Reply { text: msg_pass_volume() }
        } else {
            match parse_i64(cmd.args[0].as_str()) {
                Err(e) => Plan::Reply { text: msg_volume_invalid(&e) },
                Ok(value) => match volume(guild_id, value) {
                    Ok(directive) => {
                        let mut directives: Vec<Directive> = Vec::new();
                        directives.push(directive);
                        proof {
                            assert(directives@ =~= seq![
                                (Directive::SetVolume { guild: guild_id, value }),
                            ]);
                        }
                        Plan::Execute { directives, reply: Some(msg_volume_set(value)) }
                    },
                    Err(e) => {
                        let text = String::from_str("Invalid volume value: ").concat(
                            e.message().as_str(),
                        );
                        Plan::Reply { text }
                    },
                },
            }
        }
    } else if str_eq(name, "seek") {
        if cmd.args.len() == 0 {
            Plan::Reply { text: msg_pass_seek() }
        } else {
            match parse_i64(cmd.args[0].as_str()) {
                Err(e) => Plan::Reply { text: msg_position_invalid(&e) },
                Ok(position) => {
                    let mut directives: Vec<Directive> = Vec::new();
                    directives.push(seek(guild_id, position));
                    proof {
                        assert(directives@ =~= seq![
                            (Directive::SeekTo {
                                guild: guild_id,
                                position_in_millis: position,
                            }),
                        ]);
                    }
                    Plan::Execute { directives, reply: Some(msg_position_set(position)) }
                },
            }
        }
    } else if str_eq(name, "pause") {
        Plan::TogglePause
    } else if str_eq(name, "ping") {
        Plan::Reply { text: msg_pong() }
    } else {
        Plan::Ignore
    }
}

/// The first half of a track request: nothing may reach the node for a user
/// who is in no voice channel — in that case only a reply comes back, with
/// no join, no resolution and no play. Otherwise the voice join must be
/// issued before the audio command, so it comes first, with the rest of the
/// request held pending.
pub fn start_track_request(
    guild_id: GuildId,
    mode: Mode,
    identifier: String,
    voice_channel: Option<ChannelId>,
) -> (r: StartPlan)
    ensures
        voice_channel is None ==> ({
            r matches (StartPlan::Reply { text }) && text@
                == "You need to join a voice channel first"@
        }),
        voice_channel matches Some(ch) ==> ({
            &&& r matches (StartPlan::Join { directive, pending })
            &&& directive == (Directive::JoinVoice { guild: guild_id, channel: ch })
            &&& pending == (PendingLoad { guild: guild_id, mode, identifier })
        }),
{
    match voice_channel {
        None => StartPlan::Reply { text: msg_need_voice_channel() },
        Some(channel) => StartPlan::Join {
            directive: Directive::JoinVoice { guild: guild_id, channel },
            pending: PendingLoad { guild: guild_id, mode, identifier },
        },
    }
}

/// The second half of a track request, given what resolution produced. A
/// play request issues exactly one play directive and touches no queue; an
/// enqueue request appends exactly the resolved track to its guild's queue
/// and issues no directive at all — enqueueing never starts playback. A miss
/// is reported to the user; a transport failure is not.
pub fn finish_track_request(
    store: &mut Store,
    pending: PendingLoad,
    resolved: Result<TrackDescriptor, ResolveError>,
) -> (r: FinishPlan)
    ensures
        match resolved {
            Ok(t) => if pending.mode == Mode::Play {
                &&& *final(store) == *old(store)
                &&& r matches (FinishPlan::Execute { directives, reply })
                &&& directives@ == seq![(Directive::PlayTrack { guild: pending.guild, track: t })]
                &&& reply@ == spec_msg_playing(t)
            } else {
                &&& final(store).spec_queue(pending.guild) == old(store).spec_queue(
                    pending.guild,
                ).push(t)
                &&& final(store).spec_reply(pending.guild) == old(store).spec_reply(pending.guild)
                &&& queues_unchanged_except(*old(store), *final(store), pending.guild)
                &&& replies_unchanged_except(*old(store), *final(store), pending.guild)
                &&& r matches (FinishPlan::Execute { directives, reply })
                &&& directives@.len() == 0
                &&& reply@ == spec_msg_enqueued(t)
            },
            Err(e) => ({
                &&& *final(store) == *old(store)
                &&& if e == ResolveError::NotFound {
                    r matches (FinishPlan::Reply { text }) && text@ == "No tracks found"@
                } else {
                    r is Failed
                }
            }),
        },
{
    match resolved {
        Ok(track) => match pending.mode {
            Mode::Play => {
                let reply = msg_playing(&track);
                let mut directives: Vec<Directive> = Vec::new();
                let ghost t = track;
                directives.push(play(pending.guild, track));
                proof {
                    assert(directives@ =~= seq![
                        (Directive::PlayTrack { guild: pending.guild, track: t }),
                    ]);
                }
                FinishPlan::Execute { directives, reply }
            },
            Mode::Enqueue => {
                let reply = msg_enqueued(&track);
                enqueue(store, pending.guild, track);
                FinishPlan::Execute { directives: Vec::new(), reply }
            },
        },
        Err(ResolveError::NotFound) => FinishPlan::Reply { text: msg_no_tracks() },
        Err(ResolveError::ResolutionFailed) => FinishPlan::Failed,
    }
}

} // verus!
