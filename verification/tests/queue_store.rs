use jukebot::ids::{ChannelId, GuildId};
use jukebot::per_guild_data::Store;
use jukebot::player::TrackManager;
use jukebot::track::TrackDescriptor;

fn track(token: &str, title: &str, author: &str) -> TrackDescriptor {
    TrackDescriptor {
        token: token.to_string(),
        title: Some(title.to_string()),
        author: Some(author.to_string()),
    }
}

#[test]
fn track_manager_is_fifo() {
    let mut tm = TrackManager::new();
    tm.enqueue(vec![track("a", "A", "X"), track("b", "B", "Y")]);
    tm.enqueue(vec![track("c", "C", "Z")]);
    assert_eq!(tm.next_track().unwrap().token, "a");
    assert_eq!(tm.next_track().unwrap().token, "b");
    assert_eq!(tm.next_track().unwrap().token, "c");
    assert!(tm.next_track().is_none());
}

#[test]
fn store_fifo_across_enqueues() {
    let mut store = Store::new();
    let g = GuildId(7);
    store.enqueue_tracks(g, vec![track("t1", "One", "A")]);
    store.enqueue_tracks(g, vec![track("t2", "Two", "B")]);
    store.enqueue_tracks(g, vec![track("t3", "Three", "C")]);
    assert_eq!(store.next_track(g).unwrap().token, "t1");
    assert_eq!(store.next_track(g).unwrap().token, "t2");
    assert_eq!(store.next_track(g).unwrap().token, "t3");
    assert!(store.next_track(g).is_none());
}

#[test]
fn store_isolates_guilds() {
    let mut store = Store::new();
    let g = GuildId(1);
    let h = GuildId(2);
    store.enqueue_tracks(g, vec![track("g1", "G1", "A"), track("g2", "G2", "A")]);
    store.enqueue_tracks(h, vec![track("h1", "H1", "B")]);
    store.enqueue_tracks(g, vec![track("g3", "G3", "A")]);
    assert_eq!(store.next_track(h).unwrap().token, "h1");
    assert!(store.next_track(h).is_none());
    assert_eq!(store.next_track(g).unwrap().token, "g1");
    assert_eq!(store.next_track(g).unwrap().token, "g2");
    assert_eq!(store.next_track(g).unwrap().token, "g3");
    assert!(store.next_track(g).is_none());
}

#[test]
fn reply_channel_is_per_guild_and_overwritten() {
    let mut store = Store::new();
    let g = GuildId(1);
    let h = GuildId(2);
    assert_eq!(store.get_associated_text_channel(g), None);
    store.associate_text_channel(g, ChannelId(10));
    store.associate_text_channel(h, ChannelId(20));
    assert_eq!(store.get_associated_text_channel(g), Some(ChannelId(10)));
    assert_eq!(store.get_associated_text_channel(h), Some(ChannelId(20)));
    store.associate_text_channel(g, ChannelId(11));
    assert_eq!(store.get_associated_text_channel(g), Some(ChannelId(11)));
    assert_eq!(store.get_associated_text_channel(h), Some(ChannelId(20)));
}

#[test]
fn associate_keeps_queue_and_enqueue_keeps_channel() {
    let mut store = Store::new();
    let g = GuildId(3);
    store.enqueue_tracks(g, vec![track("t", "T", "A")]);
    store.associate_text_channel(g, ChannelId(30));
    assert_eq!(store.get_associated_text_channel(g), Some(ChannelId(30)));
    assert_eq!(store.next_track(g).unwrap().token, "t");
    store.enqueue_tracks(g, vec![track("u", "U", "B")]);
    assert_eq!(store.get_associated_text_channel(g), Some(ChannelId(30)));
}
