use vstd::prelude::*;

use std::collections::HashMap;

use crate::ids::{ChannelId, GuildId};
use crate::player::TrackManager;
use crate::track::TrackDescriptor;

verus! {

broadcast use vstd::std_specs::hash::group_hash_axioms;

/// The state kept for one guild: the last known destination for status
/// messages, and the play queue.
#[derive(Debug)]
pub struct PerGuildData {
    pub associated_text_channel: Option<ChannelId>,
    pub track_manager: TrackManager,
}

/// The session directory: the sole owner of all per-guild state. A session is
/// created implicitly on first reference, with an empty queue and no reply
/// channel, and persists for the life of the process. Observably, an absent
/// session and a fresh one are the same, so the directory is specified by two
/// total functions: each guild's queue and each guild's reply channel.
#[derive(Debug)]
pub struct Store {
    map: HashMap<u64, PerGuildData>,
}

impl Store {
    /// The queue the given guild observes; an absent session reads as empty.
    pub closed spec fn spec_queue(self, g: GuildId) -> Seq<TrackDescriptor> {
        if self.map@.contains_key(g.0) {
            self.map@[g.0].track_manager@
        } else {
            Seq::empty()
        }
    }

    /// The reply channel last associated with the given guild, if any.
    pub closed spec fn spec_reply(self, g: GuildId) -> Option<ChannelId> {
        if self.map@.contains_key(g.0) {
            self.map@[g.0].associated_text_channel
        } else {
            None
        }
    }

    /// A directory with no sessions at all.
    pub fn new() -> (s: Store)
        ensures
            forall|g: GuildId| (#[trigger] s.spec_queue(g)) == Seq::<TrackDescriptor>::empty(),
            forall|g: GuildId| (#[trigger] s.spec_reply(g)) is None,
    {
        Store { map: HashMap::new() }
    }

    /// Sets or overwrites the guild's reply channel, creating the session if
    /// it did not exist. The queue, and every other guild's session, are
    /// untouched.
    pub fn associate_text_channel(&mut self, guild_id: GuildId, channel_id: ChannelId)
        ensures
            final(self).spec_reply(guild_id) == Some(channel_id),
            final(self).spec_queue(guild_id) == old(self).spec_queue(guild_id),
            queues_unchanged_except(*old(self), *final(self), guild_id),
            replies_unchanged_except(*old(self), *final(self), guild_id),
    {
        let data = match self.map.remove(&guild_id.0) {
            Some(mut data) => {
                data.associated_text_channel = Some(channel_id);
                data
            },
            None => PerGuildData {
                associated_text_channel: Some(channel_id),
                track_manager: TrackManager::new(),
            },
        };
        self.map.insert(guild_id.0, data);
    }

    /// The guild's reply channel, or `None` when none was ever associated.
    pub fn get_associated_text_channel(&self, guild_id: GuildId) -> (r: Option<ChannelId>)
        ensures
            r == self.spec_reply(guild_id),
    {
        match self.map.get(&guild_id.0) {
            Some(data) => data.associated_text_channel,
            None => None,
        }
    }

    /// Appends the given tracks, in order, at the tail of the guild's queue,
    /// creating the session if it did not exist. No other guild's session,
    /// and no reply channel, is touched.
    pub fn enqueue_tracks(&mut self, guild_id: GuildId, tracks: Vec<TrackDescriptor>)
        ensures
            enqueue_transition(*old(self), *final(self), guild_id, tracks@),
    {
        let mut data = match self.map.remove(&guild_id.0) {
            Some(data) => data,
            None => PerGuildData {
                associated_text_channel: None,
                track_manager: TrackManager::new(),
            },
        };
        data.track_manager.enqueue(tracks);
        self.map.insert(guild_id.0, data);
    }

    /// Removes and returns the track the guild enqueued earliest, or `None`
    /// when its queue is empty. No other guild's session, and no reply
    /// channel, is touched.
    pub fn next_track(&mut self, guild_id: GuildId) -> (r: Option<TrackDescriptor>)
        ensures
            dequeue_transition(*old(self), *final(self), guild_id, r),
    {
        match self.map.remove(&guild_id.0) {
            Some(mut data) => {
                let r = data.track_manager.next_track();
                self.map.insert(guild_id.0, data);
                r
            },
            None => None,
        }
    }
}

/// Every guild but `g` observes the same queue in `post` as in `pre`.
pub open spec fn queues_unchanged_except(pre: Store, post: Store, g: GuildId) -> bool {
    forall|h: GuildId| h != g ==> (#[trigger] post.spec_queue(h)) == pre.spec_queue(h)
}

/// Every guild but `g` observes the same reply channel in `post` as in `pre`.
pub open spec fn replies_unchanged_except(pre: Store, post: Store, g: GuildId) -> bool {
    forall|h: GuildId| h != g ==> (#[trigger] post.spec_reply(h)) == pre.spec_reply(h)
}

/// How `Store::enqueue_tracks` changes the directory: the tracks land at the
/// tail of `g`'s queue and nothing else moves.
pub open spec fn enqueue_transition(
    pre: Store,
    post: Store,
    g: GuildId,
    ts: Seq<TrackDescriptor>,
) -> bool {
    &&& post.spec_queue(g) == pre.spec_queue(g) + ts
    &&& post.spec_reply(g) == pre.spec_reply(g)
    &&& queues_unchanged_except(pre, post, g)
    &&& replies_unchanged_except(pre, post, g)
}

/// How `Store::next_track` changes the directory: the head of `g`'s queue, if
/// any, comes off and is returned, and nothing else moves.
pub open spec fn dequeue_transition(
    pre: Store,
    post: Store,
    g: GuildId,
    r: Option<TrackDescriptor>,
) -> bool {
    &&& if pre.spec_queue(g).len() == 0 {
        r is None && post.spec_queue(g) == pre.spec_queue(g)
    } else {
        r == Some(pre.spec_queue(g)[0]) && post.spec_queue(g) == pre.spec_queue(g).drop_first()
    }
    &&& post.spec_reply(g) == pre.spec_reply(g)
    &&& queues_unchanged_except(pre, post, g)
    &&& replies_unchanged_except(pre, post, g)
}

} // verus!
