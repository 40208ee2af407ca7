//! Core of a chat-command-driven audio playback controller.
//!
//! Commands arrive scoped to a guild (an isolated multi-user space) and are
//! turned into directives against a remote audio-rendering node; asynchronous
//! track-lifecycle notifications advance a per-guild play queue. This crate
//! holds the per-guild session coordination layer — the queue, the session
//! directory, the command dispatch and the event reaction — as verified code.
//! The network adapters around it (gateway, node client, HTTP replies) are
//! unverified callers that execute the directives this crate decides on.

pub mod action;
pub mod commands;
pub mod directive;
pub mod dispatch;
pub mod events;
pub mod resolver;
pub mod ids;
pub mod laws;
pub mod messages;
pub mod per_guild_data;
pub mod player;
pub mod text;
pub mod track;
