use vstd::prelude::*;

use crate::action::play;
use crate::directive::Directive;
use crate::ids::GuildId;
use crate::messages::{msg_now_playing, msg_playing_from_queue, msg_queue_empty};
use crate::messages::spec_msg_playing_from_queue;
use crate::per_guild_data::{queues_unchanged_except, replies_unchanged_except, Store};

verus! {

/// Reaction to the node's "track started" notification: post a generic
/// status to the guild's reply channel, or nothing when no channel is known
/// — the notification is not re-deliverable, so it is dropped, not retried.
pub fn on_track_start(store: &Store, guild_id: GuildId) -> (r: Option<Directive>)
    ensures
        store.spec_reply(guild_id) is None ==> r is None,
        store.spec_reply(guild_id) matches Some(ch) ==> r matches Some(d) && d matches (
        Directive::SendMessage { channel, text }) && channel == ch && text@
            == "Playing the track"@,
{
    match store.get_associated_text_channel(guild_id) {
        None => None,
        Some(channel) => Some(Directive::SendMessage { channel, text: msg_now_playing() }),
    }
}

/// Reaction to the node's "track ended" notification: advance the guild's
/// queue, and report what happened to the reply channel when one is known.
/// A dequeued track yields exactly one play directive, issued before the
/// status post; an empty queue yields no play directive at all.
pub fn on_track_end(store: &mut Store, guild_id: GuildId) -> (ds: Vec<Directive>)
    ensures
        old(store).spec_queue(guild_id).len() == 0 ==> final(store).spec_queue(guild_id) == old(
            store,
        ).spec_queue(guild_id),
        old(store).spec_queue(guild_id).len() > 0 ==> final(store).spec_queue(guild_id) == old(
            store,
        ).spec_queue(guild_id).drop_first(),
        final(store).spec_reply(guild_id) == old(store).spec_reply(guild_id),
        queues_unchanged_except(*old(store), *final(store), guild_id),
        replies_unchanged_except(*old(store), *final(store), guild_id),
        ({
            let q = old(store).spec_queue(guild_id);
            let rep = old(store).spec_reply(guild_id);
            match rep {
                None => if q.len() == 0 {
                    ds@.len() == 0
                } else {
                    ds@ == seq![(Directive::PlayTrack { guild: guild_id, track: q[0] })]
                },
                Some(ch) => if q.len() == 0 {
                    &&& ds@.len() == 1
                    &&& ds@[0] matches (Directive::SendMessage { channel, text }) && channel == ch
                        && text@ == "Queue empty"@
                } else {
                    &&& ds@.len() == 2
                    &&& ds@[0] == (Directive::PlayTrack { guild: guild_id, track: q[0] })
                    &&& ds@[1] matches (Directive::SendMessage { channel, text }) && channel == ch
                        && text@ == spec_msg_playing_from_queue(q[0])
                },
            }
        }),
{
    let next = store.next_track(guild_id);
    let reply = store.get_associated_text_channel(guild_id);
    let mut ds: Vec<Directive> = Vec::new();
    match next {
        Some(track) => {
            let text = msg_playing_from_queue(&track);
            ds.push(play(guild_id, track));
            match reply {
                Some(channel) => {
                    ds.push(Directive::SendMessage { channel, text });
                },
                None => {},
            }
        },
        None => {
            match reply {
                Some(channel) => {
                    ds.push(Directive::SendMessage { channel, text: msg_queue_empty() });
                },
                None => {},
            }
        },
    }
    ds
}

} // verus!
