//! The text of the message that shows how far the playing track has come.

use crate::text::{padded, padded_text};
use vstd::prelude::*;
use vstd::string::StringExecFns;

verus! {

/// The heading of the message.
pub const PLAY_INFO_TITLE: &'static str = "현재 재생중인 곡";

/// Milliseconds of playback after which the message is written anew.
pub const REFRESH_MILLIS: u64 = 900;

/// A message about the playing track: a heading and a body.
#[derive(Clone, Debug, PartialEq, Eq)]
pub struct PlayInfoEmbed {
    pub title: String,
    pub description: String,
}

/// What to do with the message at one look at the playing track.
#[derive(Clone, Copy, Debug, PartialEq, Eq, Structural)]
pub struct ProgressStep {
    /// The second to show as reached, where the message is due to be written
    /// anew.
    pub refresh: Option<u64>,
    /// Whether the track has played for as long as it was meant to. The
    /// message then shows the full length, and is not touched again.
    pub finished: bool,
}

/// `seconds` as minutes and seconds, with hours in front from one hour on.
pub open spec fn duration_text(seconds: nat) -> Seq<char> {
    let hours = seconds / 3600;
    let minutes = (seconds / 60) % 60;
    let rest = padded_text(minutes) + seq![':'] + padded_text(seconds % 60);
    if hours == 0 {
        rest
    } else {
        padded_text(hours) + seq![':'] + rest
    }
}

/// The body of the message: the track's title, and under it the time played
/// and the time to play.
pub open spec fn description_text(title: Seq<char>, current: nat, total: nat) -> Seq<char> {
    title + seq!['\n'] + duration_text(current) + seq!['/'] + duration_text(total)
}

/// When a track that is `position` milliseconds in, and whose message was
/// last written at `last_edit` milliseconds, is due for a new message, and
/// when it is over.
pub open spec fn progress_of(position: u64, last_edit: u64, duration: u64) -> ProgressStep {
    ProgressStep {
        refresh: if position - last_edit >= REFRESH_MILLIS {
            Some((position / 1000 + 1) as u64)
        } else {
            None
        },
        finished: position >= duration * 1000,
    }
}

/// Writes a number of seconds as `MM:SS`, or as `HH:MM:SS` from one hour on.
pub fn duration_format(duration: u64) -> (text: String)
    ensures
        text@ == duration_text(duration as nat),
{
    let minutes = duration / 60;
    let hours = minutes / 60;
    let seconds = duration % 60;
    let minutes = minutes % 60;
    proof {
        reveal_strlit(":");
    }
    let rest = padded(minutes).concat(":").concat(padded(seconds).as_str());
    if hours == 0 {
        rest
    } else {
        let text = padded(hours).concat(":").concat(rest.as_str());
        text
    }
}

/// Writes the body of the message.
pub fn play_info_description(title: &str, current: u64, total: u64) -> (text: String)
    ensures
        text@ == description_text(title@, current as nat, total as nat),
{
    proof {
        reveal_strlit("\n");
        reveal_strlit("/");
    }
    title.to_owned().concat("\n").concat(duration_format(current).as_str()).concat("/").concat(
        duration_format(total).as_str(),
    )
}

/// Makes the message for a track that starts to play. A new message shows
/// that nothing has been played yet, whatever `current` says.
pub fn create_play_info_embed(title: &str, current: u64, total: u64) -> (embed: PlayInfoEmbed)
    ensures
        embed.title@ == PLAY_INFO_TITLE@,
        embed.description@ == description_text(title@, 0, total as nat),
{
    PlayInfoEmbed {
        title: PLAY_INFO_TITLE.to_owned(),
        description: play_info_description(title, 0, total),
    }
}

/// Rewrites the body of the message for a track that has reached second
/// `current`. The heading stays.
pub fn update_play_info_embed(embed: PlayInfoEmbed, title: &str, current: u64, total: u64) -> (updated:
    PlayInfoEmbed)
    ensures
        updated.title@ == embed.title@,
        updated.description@ == description_text(title@, current as nat, total as nat),
{
    PlayInfoEmbed { title: embed.title, description: play_info_description(title, current, total) }
}

/// Looks at a playing track: `position` and `last_edit` are in milliseconds
/// from the start of playback, `duration` is the number of seconds to play.
pub fn progress_step(position: u64, last_edit: u64, duration: u64) -> (step: ProgressStep)
    ensures
        step == progress_of(position, last_edit, duration),
{
    let refresh = if position >= last_edit && position - last_edit >= REFRESH_MILLIS {
        Some(position / 1000 + 1)
    } else {
        None
    };
    ProgressStep { refresh, finished: position / 1000 >= duration }
}

} // verus!
