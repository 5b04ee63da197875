//! What the commands ask for: reading a request out of a command's
//! options.

use crate::command_data::{integer_at, integer_option, text_at, text_option, CommandDataOption};
use crate::playback_window::PlaybackWindow;
use crate::text::{split_text, split_trimmed, trimmed_text};
use crate::url_checker::{source_id_of, url_checker};
use vstd::prelude::*;

verus! {

/// The character between two skip words.
pub const KEYWORD_SEPARATOR: char = ',';

/// Why a command cannot be carried out as the user wrote it.
#[derive(Clone, Copy, Debug, PartialEq, Eq, Structural)]
pub enum UserInputError {
    /// There is no URL.
    MissingUrl,
    /// The URL names no source.
    InvalidUrl,
    /// There is no title.
    MissingTitle,
}

/// A request to play a source.
#[derive(Clone, Debug, PartialEq, Eq)]
pub struct PlayRequest {
    /// The source to play.
    pub id: String,
    /// The part of it to play.
    pub window: PlaybackWindow,
    /// The words that skip it, where the user gave any.
    pub skip_keyword: Option<Vec<String>>,
}

/// [`PlayRequest`] as a mathematical value.
pub struct PlayRequestView {
    pub id: Seq<char>,
    pub window: PlaybackWindow,
    pub skip_keyword: Option<Seq<Seq<char>>>,
}

impl View for PlayRequest {
    type V = PlayRequestView;

    open spec fn view(&self) -> PlayRequestView {
        PlayRequestView {
            id: self.id@,
            window: self.window,
            skip_keyword: self.skip_keyword.deep_view(),
        }
    }
}

/// A number without its sign.
pub open spec fn magnitude_of(n: i64) -> u64 {
    if n < 0 {
        (-n) as u64
    } else {
        n as u64
    }
}

/// The number of seconds that an option holds, and zero without the option.
pub open spec fn seconds_at(options: Seq<CommandDataOption>, idx: int) -> u64 {
    match integer_at(options, idx) {
        Some(n) => magnitude_of(n),
        None => 0,
    }
}

/// The skip words that `text` lists: its pieces between commas, without the
/// white space around them.
pub open spec fn skip_keywords_of(text: Seq<char>) -> Seq<Seq<char>> {
    split_text(text, KEYWORD_SEPARATOR).map_values(|piece: Seq<char>| trimmed_text(piece))
}

/// The source that the option at position `idx` names.
pub open spec fn source_at(options: Seq<CommandDataOption>, idx: int) -> Result<
    Seq<char>,
    UserInputError,
> {
    match text_at(options, idx) {
        None => Err(UserInputError::MissingUrl),
        Some(url) => match source_id_of(url) {
            None => Err(UserInputError::InvalidUrl),
            Some(id) => Ok(id),
        },
    }
}

/// The request that the options of a play command make: the URL comes
/// first, then the seconds to play, the second to start at, and the skip
/// words.
pub open spec fn play_request_of(options: Seq<CommandDataOption>) -> Result<
    PlayRequestView,
    UserInputError,
> {
    match source_at(options, 0) {
        Err(error) => Err(error),
        Ok(id) => Ok(
            PlayRequestView {
                id,
                window: PlaybackWindow { start: seconds_at(options, 2), length: seconds_at(options, 1) },
                skip_keyword: match text_at(options, 3) {
                    Some(text) => Some(skip_keywords_of(text)),
                    None => None,
                },
            },
        ),
    }
}

/// The request that the options of a command to store a song make: the URL
/// comes first, then the title. A missing option is reported before a URL
/// that names no source.
pub open spec fn add_song_request_of(options: Seq<CommandDataOption>) -> Result<
    (Seq<char>, Seq<char>),
    UserInputError,
> {
    match (text_at(options, 0), text_at(options, 1)) {
        (None, _) => Err(UserInputError::MissingUrl),
        (Some(_), None) => Err(UserInputError::MissingTitle),
        (Some(url), Some(title)) => match source_id_of(url) {
            None => Err(UserInputError::InvalidUrl),
            Some(id) => Ok((id, title)),
        },
    }
}

/// Drops the sign of a number.
pub fn magnitude(n: i64) -> (m: u64)
    ensures
        m == magnitude_of(n),
{
    if n >= 0 {
        n as u64
    } else if n == i64::MIN {
        9223372036854775808u64
    } else {
        (-n) as u64
    }
}

/// Reads a number of seconds from the option at position `idx`.
fn seconds_option(options: &[CommandDataOption], idx: usize) -> (seconds: u64)
    ensures
        seconds == seconds_at(options@, idx as int),
{
    match integer_option(options, idx) {
        Some(n) => magnitude(n),
        None => 0,
    }
}

/// Reads the source that the option at position `idx` names.
fn source_option(options: &[CommandDataOption], idx: usize) -> (id: Result<String, UserInputError>)
    ensures
        match id {
            Ok(id) => source_at(options@, idx as int) == Ok::<_, UserInputError>(id@),
            Err(error) => source_at(options@, idx as int) == Err::<Seq<char>, _>(error),
        },
{
    match text_option(options, idx) {
        None => Err(UserInputError::MissingUrl),
        Some(url) => match url_checker(url.as_str()) {
            None => Err(UserInputError::InvalidUrl),
            Some(id) => Ok(id),
        },
    }
}

/// Reads the skip words out of a list with commas.
pub fn parse_skip_keyword(text: &str) -> (words: Vec<String>)
    ensures
        words.deep_view() == skip_keywords_of(text@),
{
    split_trimmed(text, KEYWORD_SEPARATOR)
}

/// Reads the request of a play command out of its options.
pub fn play_request(options: &[CommandDataOption]) -> (request: Result<PlayRequest, UserInputError>)
    ensures
        match request {
            Ok(r) => play_request_of(options@) == Ok::<_, UserInputError>(r@),
            Err(error) => play_request_of(options@) == Err::<PlayRequestView, _>(error),
        },
{
    let id = match source_option(options, 0) {
        Ok(id) => id,
        Err(error) => {
            return Err(error);
        },
    };
    let length = seconds_option(options, 1);
    let start = seconds_option(options, 2);
    let skip_keyword = match text_option(options, 3) {
        Some(text) => Some(parse_skip_keyword(text.as_str())),
        None => None,
    };
    Ok(PlayRequest { id, window: PlaybackWindow { start, length }, skip_keyword })
}

/// Reads the source that a command to queue a song names in its first
/// option.
pub fn insert_request(options: &[CommandDataOption]) -> (id: Result<String, UserInputError>)
    ensures
        match id {
            Ok(id) => source_at(options@, 0) == Ok::<_, UserInputError>(id@),
            Err(error) => source_at(options@, 0) == Err::<Seq<char>, _>(error),
        },
{
    source_option(options, 0)
}

/// Reads the source and the title that a command to store a song names.
pub fn add_song_request(options: &[CommandDataOption]) -> (request: Result<
    (String, String),
    UserInputError,
>)
    ensures
        match request {
            Ok((id, title)) => add_song_request_of(options@) == Ok::<_, UserInputError>(
                (id@, title@),
            ),
            Err(error) => add_song_request_of(options@) == Err::<(Seq<char>, Seq<char>), _>(error),
        },
{
    let url = match text_option(options, 0) {
        Some(url) => url,
        None => {
            return Err(UserInputError::MissingUrl);
        },
    };
    let title = match text_option(options, 1) {
        Some(title) => title,
        None => {
            return Err(UserInputError::MissingTitle);
        },
    };
    match url_checker(url.as_str()) {
        Some(id) => Ok((id, title)),
        None => Err(UserInputError::InvalidUrl),
    }
}

/// The number of seconds to show as the length of what plays: the length
/// that was asked for, and the length of the track where none was.
pub fn shown_duration(window: PlaybackWindow, total: u64) -> (seconds: u64)
    ensures
        seconds == if window.length != 0 {
            window.length
        } else {
            total
        },
{
    if window.length != 0 {
        window.length
    } else {
        total
    }
}

} // verus!
