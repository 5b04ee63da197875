//! Playback orchestration and audio acquisition for a voice-channel media bot.
//!
//! The crate holds the decisions of the bot: which source a URL names, how a
//! playback window is clamped, how transcoder output is repackaged into
//! length-prefixed frames, what a guild's queue does on each command, and
//! when the bot may join a voice channel. Talking to the chat platform, to
//! the disk and to child processes is left to the caller.

pub mod command_data;
pub mod commands;
pub mod connection_handler;
pub mod database_handler;
pub mod dca;
pub mod demux;
pub mod event_handler;
pub mod guild_queue;
pub mod metadata;
pub mod play_info_notifier;
pub mod playback_window;
pub mod text;
pub mod url_checker;
pub mod youtube_dl;
