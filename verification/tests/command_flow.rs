use jukebot::commands::parse_command;
use jukebot::directive::Directive;
use jukebot::dispatch::{
    finish_track_request, plan_command, start_track_request, FinishPlan, Mode, PendingLoad, Plan,
    StartPlan,
};
use jukebot::events::{on_track_end, on_track_start};
use jukebot::ids::{ChannelId, GuildId};
use jukebot::per_guild_data::Store;
use jukebot::resolver::ResolveError;
use jukebot::track::TrackDescriptor;

fn track(token: &str, title: &str, author: &str) -> TrackDescriptor {
    TrackDescriptor {
        token: token.to_string(),
        title: Some(title.to_string()),
        author: Some(author.to_string()),
    }
}

#[test]
fn parse_strips_prefix_and_splits_words() {
    let pc = parse_command("!play lofi beats", "!").unwrap();
    assert_eq!(pc.name, "play");
    assert_eq!(pc.args, vec!["lofi".to_string(), "beats".to_string()]);
}

#[test]
fn parse_rejects_messages_without_the_prefix() {
    assert!(parse_command("play lofi", "!").is_none());
    assert!(parse_command("?play lofi", "!").is_none());
    assert!(parse_command("", "!").is_none());
}

#[test]
fn parse_handles_bare_prefix_and_extra_spaces() {
    let pc = parse_command("!", "!").unwrap();
    assert_eq!(pc.name, "");
    assert!(pc.args.is_empty());
    let pc = parse_command("!seek  5", "!").unwrap();
    assert_eq!(pc.name, "seek");
    assert_eq!(pc.args, vec!["".to_string(), "5".to_string()]);
    let pc = parse_command("--stop", "--").unwrap();
    assert_eq!(pc.name, "stop");
}

#[test]
fn unknown_commands_are_silently_ignored() {
    let mut store = Store::new();
    let g = GuildId(1);
    let ch = ChannelId(100);
    let pc = parse_command("!dance", "!").unwrap();
    assert_eq!(plan_command(&mut store, g, ch, &pc), Plan::Ignore);
    let pc = parse_command("!", "!").unwrap();
    assert_eq!(plan_command(&mut store, g, ch, &pc), Plan::Ignore);
}

#[test]
fn every_command_records_the_reply_channel() {
    let mut store = Store::new();
    let g = GuildId(1);
    let pc = parse_command("!dance", "!").unwrap();
    plan_command(&mut store, g, ChannelId(100), &pc);
    assert_eq!(store.get_associated_text_channel(g), Some(ChannelId(100)));
    plan_command(&mut store, g, ChannelId(101), &pc);
    assert_eq!(store.get_associated_text_channel(g), Some(ChannelId(101)));
}

#[test]
fn ping_answers_pong() {
    let mut store = Store::new();
    let pc = parse_command("!ping", "!").unwrap();
    let plan = plan_command(&mut store, GuildId(1), ChannelId(2), &pc);
    assert_eq!(plan, Plan::Reply { text: "pong".to_string() });
}

#[test]
fn play_without_argument_asks_for_one() {
    let mut store = Store::new();
    let pc = parse_command("!play", "!").unwrap();
    let plan = plan_command(&mut store, GuildId(1), ChannelId(2), &pc);
    assert_eq!(plan, Plan::Reply { text: "Pass track as an argument".to_string() });
}

#[test]
fn play_without_voice_channel_only_replies() {
    // A `play` command from an author in no voice channel: the reply says
    // so, and there is no join directive, no pending resolution and no play.
    let mut store = Store::new();
    let g = GuildId(1);
    let pc = parse_command("!play lofi beats", "!").unwrap();
    let plan = plan_command(&mut store, g, ChannelId(2), &pc);
    let (mode, identifier) = match plan {
        Plan::NeedVoice { mode, identifier } => (mode, identifier),
        other => panic!("expected NeedVoice, got {:?}", other),
    };
    assert_eq!(mode, Mode::Play);
    assert_eq!(identifier, "lofi");
    let start = start_track_request(g, mode, identifier, None);
    assert_eq!(
        start,
        StartPlan::Reply { text: "You need to join a voice channel first".to_string() }
    );
}

#[test]
fn play_with_voice_channel_joins_first() {
    let g = GuildId(1);
    let start = start_track_request(g, Mode::Play, "lofi".to_string(), Some(ChannelId(77)));
    match start {
        StartPlan::Join { directive, pending } => {
            assert_eq!(directive, Directive::JoinVoice { guild: g, channel: ChannelId(77) });
            assert_eq!(
                pending,
                PendingLoad { guild: g, mode: Mode::Play, identifier: "lofi".to_string() }
            );
        },
        other => panic!("expected Join, got {:?}", other),
    }
}

#[test]
fn finished_play_issues_exactly_one_play_directive() {
    let mut store = Store::new();
    let g = GuildId(1);
    let pending = PendingLoad { guild: g, mode: Mode::Play, identifier: "q".to_string() };
    let plan = finish_track_request(&mut store, pending, Ok(track("tok", "Song", "Band")));
    assert_eq!(
        plan,
        FinishPlan::Execute {
            directives: vec![Directive::PlayTrack { guild: g, track: track("tok", "Song", "Band") }],
            reply: "Playing **Song** by **Band**".to_string(),
        }
    );
    // An immediate play leaves the queue alone.
    assert!(store.next_track(g).is_none());
}

#[test]
fn finished_enqueue_queues_one_track_and_plays_nothing() {
    // A resolved `add` puts exactly one new entry in that guild's queue and
    // issues no play directive: enqueueing never starts playback.
    let mut store = Store::new();
    let g = GuildId(1);
    let pending = PendingLoad { guild: g, mode: Mode::Enqueue, identifier: "q".to_string() };
    let plan = finish_track_request(&mut store, pending, Ok(track("tok", "Song", "Band")));
    assert_eq!(
        plan,
        FinishPlan::Execute {
            directives: Vec::new(),
            reply: "Enqueued **Song** by **Band**".to_string(),
        }
    );
    assert_eq!(store.next_track(g), Some(track("tok", "Song", "Band")));
    assert_eq!(store.next_track(g), None);
}

#[test]
fn resolution_miss_and_failure_are_reported_apart() {
    let mut store = Store::new();
    let g = GuildId(1);
    let pending = PendingLoad { guild: g, mode: Mode::Play, identifier: "zzz".to_string() };
    let plan = finish_track_request(&mut store, pending, Err(ResolveError::NotFound));
    assert_eq!(plan, FinishPlan::Reply { text: "No tracks found".to_string() });
    let pending = PendingLoad { guild: g, mode: Mode::Enqueue, identifier: "zzz".to_string() };
    let plan = finish_track_request(&mut store, pending, Err(ResolveError::ResolutionFailed));
    assert_eq!(plan, FinishPlan::Failed);
    assert!(store.next_track(g).is_none());
}

#[test]
fn volume_command_validates_before_any_directive() {
    let mut store = Store::new();
    let g = GuildId(1);
    let ch = ChannelId(2);
    let pc = parse_command("!volume 432", "!").unwrap();
    assert_eq!(
        plan_command(&mut store, g, ch, &pc),
        Plan::Execute {
            directives: vec![Directive::SetVolume { guild: g, value: 432 }],
            reply: Some("Volume was set to 432".to_string()),
        }
    );
    let pc = parse_command("!volume 1001", "!").unwrap();
    assert_eq!(
        plan_command(&mut store, g, ch, &pc),
        Plan::Reply {
            text: "Invalid volume value: volume value is out of bounds: 1001, must be in 0..=1000"
                .to_string(),
        }
    );
    let pc = parse_command("!volume -3", "!").unwrap();
    assert_eq!(
        plan_command(&mut store, g, ch, &pc),
        Plan::Reply {
            text: "Invalid volume value: volume value is out of bounds: -3, must be in 0..=1000"
                .to_string(),
        }
    );
}

#[test]
fn volume_command_rejects_non_numbers_with_the_reason() {
    let mut store = Store::new();
    let g = GuildId(1);
    let ch = ChannelId(2);
    let cases = [
        ("loud", "invalid digit found in string"),
        ("", "cannot parse integer from empty string"),
        ("1e3", "invalid digit found in string"),
        ("--4", "invalid digit found in string"),
        ("+", "invalid digit found in string"),
        ("99999999999999999999999", "number too large to fit in target type"),
        ("-99999999999999999999999", "number too small to fit in target type"),
    ];
    for (bad, reason) in cases {
        let pc = parse_command(&format!("!volume {}", bad), "!").unwrap();
        assert_eq!(
            plan_command(&mut store, g, ch, &pc),
            Plan::Reply { text: format!("Volume value is invalid: {}", reason) },
            "argument {:?}",
            bad
        );
        // The reason is exactly what std's parser would give.
        assert_eq!(reason, bad.parse::<i64>().unwrap_err().to_string(), "argument {:?}", bad);
    }
    let pc = parse_command("!volume", "!").unwrap();
    assert_eq!(
        plan_command(&mut store, g, ch, &pc),
        Plan::Reply { text: "Pass volume value as an argument".to_string() }
    );
}

#[test]
fn seek_command_parses_signed_positions() {
    let mut store = Store::new();
    let g = GuildId(1);
    let ch = ChannelId(2);
    let pc = parse_command("!seek 90000", "!").unwrap();
    assert_eq!(
        plan_command(&mut store, g, ch, &pc),
        Plan::Execute {
            directives: vec![Directive::SeekTo { guild: g, position_in_millis: 90000 }],
            reply: Some("Position was set to 90000ms".to_string()),
        }
    );
    let pc = parse_command("!seek -9223372036854775808", "!").unwrap();
    assert_eq!(
        plan_command(&mut store, g, ch, &pc),
        Plan::Execute {
            directives: vec![
                Directive::SeekTo { guild: g, position_in_millis: i64::MIN },
            ],
            reply: Some(format!("Position was set to {}ms", i64::MIN)),
        }
    );
    let pc = parse_command("!seek -9223372036854775809", "!").unwrap();
    assert_eq!(
        plan_command(&mut store, g, ch, &pc),
        Plan::Reply { text: "Position is invalid: number too small to fit in target type".to_string() }
    );
    let pc = parse_command("!seek 9223372036854775808", "!").unwrap();
    assert_eq!(
        plan_command(&mut store, g, ch, &pc),
        Plan::Reply { text: "Position is invalid: number too large to fit in target type".to_string() }
    );
    let pc = parse_command("!seek later", "!").unwrap();
    assert_eq!(
        plan_command(&mut store, g, ch, &pc),
        Plan::Reply { text: "Position is invalid: invalid digit found in string".to_string() }
    );
    let pc = parse_command("!seek +007", "!").unwrap();
    assert_eq!(
        plan_command(&mut store, g, ch, &pc),
        Plan::Execute {
            directives: vec![Directive::SeekTo { guild: g, position_in_millis: 7 }],
            reply: Some("Position was set to 7ms".to_string()),
        }
    );
}

#[test]
fn stop_command_stops_audio_then_leaves() {
    let mut store = Store::new();
    let g = GuildId(1);
    let pc = parse_command("!stop", "!").unwrap();
    assert_eq!(
        plan_command(&mut store, g, ChannelId(2), &pc),
        Plan::Execute {
            directives: vec![
                Directive::DestroyPlayer { guild: g },
                Directive::LeaveVoice { guild: g },
            ],
            reply: None,
        }
    );
}

#[test]
fn pause_command_defers_to_the_player_state() {
    let mut store = Store::new();
    let pc = parse_command("!pause", "!").unwrap();
    assert_eq!(plan_command(&mut store, GuildId(1), ChannelId(2), &pc), Plan::TogglePause);
}

#[test]
fn track_start_posts_to_the_reply_channel() {
    let mut store = Store::new();
    let g = GuildId(1);
    assert_eq!(on_track_start(&store, g), None);
    store.associate_text_channel(g, ChannelId(42));
    assert_eq!(
        on_track_start(&store, g),
        Some(Directive::SendMessage {
            channel: ChannelId(42),
            text: "Playing the track".to_string(),
        })
    );
}

#[test]
fn track_end_with_queued_track_plays_it_and_reports() {
    // A track-end notification with one queued track: exactly one play
    // directive for that track, then a status naming its title on the
    // guild's last-known reply channel.
    let mut store = Store::new();
    let g = GuildId(1);
    store.associate_text_channel(g, ChannelId(42));
    store.enqueue_tracks(g, vec![track("tok", "Next One", "Band")]);
    let ds = on_track_end(&mut store, g);
    assert_eq!(
        ds,
        vec![
            Directive::PlayTrack { guild: g, track: track("tok", "Next One", "Band") },
            Directive::SendMessage {
                channel: ChannelId(42),
                text: "Playing **Next One** by **Band** from queue".to_string(),
            },
        ]
    );
    let plays = ds
        .iter()
        .filter(|d| matches!(d, Directive::PlayTrack { .. }))
        .count();
    assert_eq!(plays, 1);
}

#[test]
fn track_end_with_empty_queue_reports_it_and_plays_nothing() {
    let mut store = Store::new();
    let g = GuildId(1);
    store.associate_text_channel(g, ChannelId(42));
    let ds = on_track_end(&mut store, g);
    assert_eq!(
        ds,
        vec![Directive::SendMessage { channel: ChannelId(42), text: "Queue empty".to_string() }]
    );
}

#[test]
fn track_end_without_reply_channel_still_advances() {
    let mut store = Store::new();
    let g = GuildId(1);
    store.enqueue_tracks(g, vec![track("tok", "T", "A")]);
    let ds = on_track_end(&mut store, g);
    assert_eq!(
        ds,
        vec![Directive::PlayTrack { guild: g, track: track("tok", "T", "A") }]
    );
    assert!(store.next_track(g).is_none());
    let ds = on_track_end(&mut store, g);
    assert!(ds.is_empty());
}
