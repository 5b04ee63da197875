use guild_music::connection_handler::{
    establish_connection, finish_connection, terminate_connection, ConnectionErrorCode,
    ConnectionStep, ConnectionSuccessCode, JoinFailure, Termination,
};
use guild_music::guild_queue::{GuildQueue, Phase};
use guild_music::playback_window::PlaybackWindow;

#[test]
fn nobody_in_voice_asks_the_user_to_join_first() {
    assert_eq!(
        establish_connection(None, None),
        ConnectionStep::Settled(Err(ConnectionErrorCode::JoinVoiceChannelFirst))
    );
}

#[test]
fn bot_joins_the_channel_of_the_user() {
    assert_eq!(establish_connection(None, Some(42)), ConnectionStep::Join { channel: 42 });
}

#[test]
fn bot_in_the_channel_of_the_user_is_connected() {
    assert_eq!(
        establish_connection(Some(42), Some(42)),
        ConnectionStep::Settled(Ok(ConnectionSuccessCode::AlreadyConnected))
    );
}

#[test]
fn bot_in_another_channel_is_in_use() {
    assert_eq!(
        establish_connection(Some(41), Some(42)),
        ConnectionStep::Settled(Err(ConnectionErrorCode::AlreadyInUse))
    );
}

#[test]
fn bot_without_the_user_asks_the_user_to_join_first() {
    assert_eq!(
        establish_connection(Some(41), None),
        ConnectionStep::Settled(Err(ConnectionErrorCode::JoinVoiceChannelFirst))
    );
}

#[test]
fn join_that_succeeds_binds_the_channels() {
    let mut queue: GuildQueue<u32> = GuildQueue::new(1);
    queue.enqueue("a".to_string());
    let outcome = finish_connection(&mut queue, 42, 77, Ok(()));
    assert_eq!(outcome, Ok(ConnectionSuccessCode::NewConnection));
    assert_eq!(queue.voice_channel(), Some(42));
    assert_eq!(queue.chat_channel(), Some(77));
    assert_eq!(queue.pending_len(), 1);
}

#[test]
fn join_that_fails_changes_nothing() {
    let mut queue: GuildQueue<u32> = GuildQueue::new(1);
    queue.set_channels(Some(5), Some(6));
    for failure in [
        JoinFailure::Dropped,
        JoinFailure::NoSender,
        JoinFailure::NoCall,
        JoinFailure::TimedOut,
        JoinFailure::IllegalGuild,
        JoinFailure::IllegalChannel,
        JoinFailure::Driver,
        JoinFailure::Gateway,
    ] {
        let outcome = finish_connection(&mut queue, 42, 77, Err(failure));
        assert_eq!(outcome, Err(ConnectionErrorCode::JoinError(failure)));
        assert_eq!(queue.voice_channel(), Some(5));
        assert_eq!(queue.chat_channel(), Some(6));
    }
}

#[test]
fn terminating_clears_the_channels_and_stops_the_track() {
    let mut queue: GuildQueue<u32> = GuildQueue::new(1);
    queue.set_channels(Some(42), Some(77));
    queue.enqueue("later".to_string());
    queue.play("now".to_string(), PlaybackWindow { start: 0, length: 0 }, None);
    // "later" was waiting, so it is taken first and "now" waits behind it
    assert_eq!(queue.acquired(9), None);
    let todo = terminate_connection(&mut queue, Some(42), false);
    assert_eq!(todo, Termination { leave: true, stop: Some(9) });
    assert_eq!(queue.voice_channel(), None);
    assert_eq!(queue.chat_channel(), None);
    assert_eq!(queue.phase(), Phase::Idle);
    assert_eq!(queue.now_playing(), None);
    assert_eq!(queue.pending_len(), 1);
}

#[test]
fn terminating_can_clear_the_queue() {
    let mut queue: GuildQueue<u32> = GuildQueue::new(1);
    queue.enqueue("a".to_string());
    queue.enqueue("b".to_string());
    let todo = terminate_connection(&mut queue, Some(42), true);
    assert_eq!(todo, Termination { leave: true, stop: None });
    assert_eq!(queue.pending_len(), 0);
}

#[test]
fn terminating_twice_is_no_error() {
    let mut queue: GuildQueue<u32> = GuildQueue::new(1);
    queue.set_channels(Some(42), Some(77));
    queue.enqueue("a".to_string());
    let first = terminate_connection(&mut queue, Some(42), false);
    assert_eq!(first, Termination { leave: true, stop: None });
    let second = terminate_connection(&mut queue, None, false);
    assert_eq!(second, Termination { leave: false, stop: None });
    assert_eq!(queue.voice_channel(), None);
    assert_eq!(queue.chat_channel(), None);
    assert_eq!(queue.pending_len(), 1);
    assert_eq!(queue.phase(), Phase::Idle);
}

#[test]
fn terminating_while_loading_refuses_the_late_track() {
    let mut queue: GuildQueue<u32> = GuildQueue::new(1);
    queue.play("a".to_string(), PlaybackWindow { start: 0, length: 0 }, None);
    assert_eq!(queue.phase(), Phase::Loading);
    let todo = terminate_connection(&mut queue, Some(3), false);
    assert_eq!(todo.stop, None);
    assert_eq!(queue.phase(), Phase::Idle);
    assert_eq!(queue.acquired(5), Some(5));
    assert_eq!(queue.now_playing(), None);
}
