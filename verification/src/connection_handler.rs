//! Decides whether the bot joins the voice channel of the user who spoke to
//! it, and clears a guild's state when the bot leaves.
//!
//! The caller looks up in which channel the bot and the user are, asks
//! [`establish_connection`], joins where it is told to, and reports how the
//! join went to [`finish_connection`].

use crate::guild_queue::{GuildQueue, GuildQueueView};
use vstd::prelude::*;

verus! {

/// Why the voice platform did not let the bot into a channel.
#[derive(Clone, Copy, Debug, PartialEq, Eq, Structural)]
pub enum JoinFailure {
    /// The request was dropped, cancelled or replaced.
    Dropped,
    /// There was no gateway connection to send the request over.
    NoSender,
    /// The call that was to be left does not exist.
    NoCall,
    /// The platform did not answer in time.
    TimedOut,
    /// The guild's number was zero.
    IllegalGuild,
    /// The channel's number was zero.
    IllegalChannel,
    /// The voice driver could not connect.
    Driver,
    /// The request could not be sent over the gateway.
    Gateway,
}

/// Why the bot is not in the user's voice channel.
#[derive(Clone, Copy, Debug, PartialEq, Eq, Structural)]
pub enum ConnectionErrorCode {
    /// The bot is playing in another channel of the guild.
    AlreadyInUse,
    /// The user is in no voice channel.
    JoinVoiceChannelFirst,
    /// The bot tried to join and was not let in.
    JoinError(JoinFailure),
}

/// How the bot came to be in the user's voice channel.
#[derive(Clone, Copy, Debug, PartialEq, Eq, Structural)]
pub enum ConnectionSuccessCode {
    /// It was there already.
    AlreadyConnected,
    /// It has just joined.
    NewConnection,
}

/// What has to happen for the bot to be in the user's voice channel.
#[derive(Clone, Copy, Debug, PartialEq, Eq)]
pub enum ConnectionStep {
    /// Nothing: the matter is settled, one way or the other.
    Settled(Result<ConnectionSuccessCode, ConnectionErrorCode>),
    /// The bot has to join `channel`.
    Join { channel: u64 },
}

/// What the bot has to do to leave a guild.
#[derive(Debug, PartialEq, Eq)]
pub struct Termination<H> {
    /// Whether there is a voice session to leave.
    pub leave: bool,
    /// The track to stop, if one was playing.
    pub stop: Option<H>,
}

/// The outcome of an attempt to connect. `bot` is the voice channel that the
/// bot is in, `user` the one that the user is in, and `joined` says how the
/// join goes where one is made.
pub open spec fn connection_outcome(
    bot: Option<u64>,
    user: Option<u64>,
    joined: Result<(), JoinFailure>,
) -> Result<ConnectionSuccessCode, ConnectionErrorCode> {
    match (bot, user) {
        (_, None) => Err(ConnectionErrorCode::JoinVoiceChannelFirst),
        (None, Some(_)) => match joined {
            Ok(()) => Ok(ConnectionSuccessCode::NewConnection),
            Err(failure) => Err(ConnectionErrorCode::JoinError(failure)),
        },
        (Some(b), Some(u)) => if b == u {
            Ok(ConnectionSuccessCode::AlreadyConnected)
        } else {
            Err(ConnectionErrorCode::AlreadyInUse)
        },
    }
}

/// The first half of an attempt to connect: what can be said before any
/// join.
pub open spec fn connection_step(bot: Option<u64>, user: Option<u64>) -> ConnectionStep {
    match (bot, user) {
        (None, Some(u)) => ConnectionStep::Join { channel: u },
        _ => ConnectionStep::Settled(connection_outcome(bot, user, Ok(()))),
    }
}

/// Decides what the bot does when a user in voice channel `user` asks for
/// it while it is in voice channel `bot`.
pub fn establish_connection(bot: Option<u64>, user: Option<u64>) -> (step: ConnectionStep)
    ensures
        step == connection_step(bot, user),
{
    match user {
        None => ConnectionStep::Settled(Err(ConnectionErrorCode::JoinVoiceChannelFirst)),
        Some(u) => match bot {
            None => ConnectionStep::Join { channel: u },
            Some(b) => {
                if b == u {
                    ConnectionStep::Settled(Ok(ConnectionSuccessCode::AlreadyConnected))
                } else {
                    ConnectionStep::Settled(Err(ConnectionErrorCode::AlreadyInUse))
                }
            },
        },
    }
}

/// Records how the join into `voice` went. After a join that succeeded the
/// guild is bound to `voice` and to `text`, the channel that the request came
/// from; after one that failed the guild is as it was.
pub fn finish_connection<H>(
    queue: &mut GuildQueue<H>,
    voice: u64,
    text: u64,
    joined: Result<(), JoinFailure>,
) -> (outcome: Result<ConnectionSuccessCode, ConnectionErrorCode>)
    ensures
        outcome == connection_outcome(None, Some(voice), joined),
        final(queue)@ == if joined is Ok {
            GuildQueueView { voice_channel: Some(voice), chat_channel: Some(text), ..old(queue)@ }
        } else {
            old(queue)@
        },
{
    match joined {
        Ok(()) => {
            queue.set_channels(Some(voice), Some(text));
            Ok(ConnectionSuccessCode::NewConnection)
        },
        Err(failure) => Err(ConnectionErrorCode::JoinError(failure)),
    }
}

/// Takes the bot out of a guild. `bot` is the voice channel that the bot is
/// in. The guild loses its channels and its track, and is idle afterwards;
/// its waiting sources stay unless `clear_pending` is set.
pub fn terminate_connection<H>(queue: &mut GuildQueue<H>, bot: Option<u64>, clear_pending: bool) -> (todo:
    Termination<H>)
    ensures
        todo.leave == bot.is_some(),
        todo.stop == old(queue)@.now_playing,
        final(queue)@ == old(queue)@.disconnect(clear_pending),
{
    let stop = queue.disconnect(clear_pending);
    Termination { leave: bot.is_some(), stop }
}

/// The table of outcomes, row by row.
pub proof fn lemma_connection_table(b: u64, u: u64, joined: Result<(), JoinFailure>)
    ensures
        connection_outcome(None, None, joined) == Err::<ConnectionSuccessCode, _>(
            ConnectionErrorCode::JoinVoiceChannelFirst,
        ),
        connection_step(None, Some(u)) == (ConnectionStep::Join { channel: u }),
        connection_outcome(None, Some(u), Ok(())) == Ok::<_, ConnectionErrorCode>(
            ConnectionSuccessCode::NewConnection,
        ),
        connection_outcome(Some(u), Some(u), joined) == Ok::<_, ConnectionErrorCode>(
            ConnectionSuccessCode::AlreadyConnected,
        ),
        b != u ==> connection_outcome(Some(b), Some(u), joined) == Err::<ConnectionSuccessCode, _>(
            ConnectionErrorCode::AlreadyInUse,
        ),
        connection_outcome(Some(b), None, joined) == Err::<ConnectionSuccessCode, _>(
            ConnectionErrorCode::JoinVoiceChannelFirst,
        ),
{
}

/// Only a bot that is in no channel joins one, and then the user's.
pub proof fn lemma_join_only_when_absent(bot: Option<u64>, user: Option<u64>)
    ensures
        connection_step(bot, user) is Join <==> bot is None && user is Some,
        connection_step(bot, user) matches ConnectionStep::Join { channel } ==> user == Some(
            channel,
        ),
        forall|joined: Result<(), JoinFailure>|
            connection_step(bot, user) matches ConnectionStep::Settled(outcome)
                ==> #[trigger] connection_outcome(bot, user, joined) == outcome,
{
}

/// Leaving a guild that has been left changes nothing.
pub proof fn lemma_terminate_idempotent<H>(q: GuildQueueView<H>, clear_pending: bool)
    ensures
        q.disconnect(clear_pending).disconnect(clear_pending) == q.disconnect(clear_pending),
        q.disconnect(clear_pending).now_playing is None,
{
}

} // verus!
