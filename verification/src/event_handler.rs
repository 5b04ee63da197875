//! What the bot makes of what happens in a guild: the commands that reach
//! it, and the messages that are written.

use crate::guild_queue::{GuildQueue, GuildQueueView};
use crate::text::{contains_text, lowercase, lowercase_text};
use vstd::prelude::*;
use vstd::string::StrSliceExecFns;

verus! {

/// The character that commands start with.
pub const COMMAND_PREFIX: char = '/';

/// The command that registers all the others in a guild.
pub const LAUNCH_COMMAND: &'static str = "launch";

/// What reached the bot.
#[derive(Clone, Copy, Debug, PartialEq, Eq, Structural)]
pub enum InteractionKind {
    /// A command.
    ApplicationCommand,
    /// A click on a part of a message.
    MessageComponent,
    /// Something else.
    Other,
}

/// Who deals with what reached the bot.
#[derive(Clone, Copy, Debug, PartialEq, Eq, Structural)]
pub enum InteractionRoute {
    /// The registration of the commands.
    Launch,
    /// The command of that name.
    Execute,
    /// Nobody.
    Ignore,
}

/// Reacts to what happens in the guilds that the bot is in.
#[derive(Clone, Copy, Debug, Default)]
pub struct DiscordEventHandler;

/// Whether a message with the text `content`, written in `channel`, skips
/// the track that plays in the guild: the message is no command, it was
/// written in the channel that the guild listens in, a track is playing, and
/// the text in lower case is one of the guild's skip words.
pub open spec fn skips_track<H>(q: GuildQueueView<H>, channel: u64, content: Seq<char>) -> bool {
    &&& !(content.len() > 0 && content[0] == COMMAND_PREFIX)
    &&& q.chat_channel == Some(channel)
    &&& q.now_playing is Some
    &&& q.skip_keyword matches Some(words) && words.contains(lowercase_text(content))
}

impl DiscordEventHandler {
    /// Looks at the commands that are registered for the bot when it comes
    /// up, and says whether the launch command has to be registered: it has
    /// to be where it is not among them.
    pub fn ready(&self, commands: &Vec<String>) -> (register: bool)
        ensures
            register == !commands.deep_view().contains(LAUNCH_COMMAND@),
    {
        !contains_text(commands, LAUNCH_COMMAND)
    }

    /// Says who deals with an interaction of the kind `kind` that carries
    /// the command name `name`.
    pub fn interaction_create(&self, kind: InteractionKind, name: &str) -> (route: InteractionRoute)
        ensures
            route == match kind {
                InteractionKind::ApplicationCommand => if name@ == LAUNCH_COMMAND@ {
                    InteractionRoute::Launch
                } else {
                    InteractionRoute::Execute
                },
                _ => InteractionRoute::Ignore,
            },
    {
        match kind {
            InteractionKind::ApplicationCommand => {
                if name.to_owned() == LAUNCH_COMMAND.to_owned() {
                    InteractionRoute::Launch
                } else {
                    InteractionRoute::Execute
                }
            },
            _ => InteractionRoute::Ignore,
        }
    }

    /// Reads a message that was written in `channel`. Where it skips the
    /// playing track the handle of that track is returned, for the caller to
    /// stop.
    pub fn message<'a, H>(&self, queue: &'a GuildQueue<H>, channel: u64, content: &str) -> (stop:
        Option<&'a H>)
        ensures
            stop.is_some() == skips_track(queue@, channel, content@),
            stop matches Some(handle) ==> queue@.now_playing == Some(*handle),
    {
        if content.unicode_len() > 0 && content.get_char(0) == COMMAND_PREFIX {
            return None;
        }
        match queue.chat_channel() {
            Some(listening) if listening == channel => {
                let playing = queue.now_playing();
                if playing.is_some() && queue.skips_on(lowercase(content).as_str()) {
                    playing
                } else {
                    None
                }
            },
            _ => None,
        }
    }
}

} // verus!
