use guild_music::command_data::{
    integer_option, text_option, CommandDataOption, CommandDataOptionValue, DataWrapper,
};
use guild_music::commands::{
    add_song_request, insert_request, magnitude, parse_skip_keyword, play_request,
    shown_duration, PlayRequest, UserInputError,
};
use guild_music::playback_window::PlaybackWindow;

fn option(name: &str, value: Option<CommandDataOptionValue>) -> CommandDataOption {
    CommandDataOption { name: name.to_string(), resolved: value }
}

fn text_value(text: &str) -> Option<CommandDataOptionValue> {
    Some(CommandDataOptionValue::String(text.to_string()))
}

fn play_options(url: &str, length: Option<i64>, start: Option<i64>, skip: Option<&str>) -> Vec<CommandDataOption> {
    vec![
        option("url", text_value(url)),
        option("length", length.map(CommandDataOptionValue::Integer)),
        option("start", start.map(CommandDataOptionValue::Integer)),
        option("skip", skip.map(|s| CommandDataOptionValue::String(s.to_string()))),
    ]
}

#[test]
fn wrapper_picks_the_value_at_a_position() {
    let options = vec![
        option("a", text_value("x")),
        option("b", Some(CommandDataOptionValue::Integer(-3))),
        option("c", None),
        option("d", Some(CommandDataOptionValue::Boolean(true))),
    ];
    assert_eq!(DataWrapper::from(&options, 0), DataWrapper { data: text_value("x") });
    assert_eq!(
        DataWrapper::from(&options, 1),
        DataWrapper { data: Some(CommandDataOptionValue::Integer(-3)) }
    );
    assert_eq!(DataWrapper::from(&options, 2), DataWrapper { data: None });
    assert_eq!(DataWrapper::from(&options, 4), DataWrapper { data: None });
    assert_eq!(DataWrapper::from(&[], 0), DataWrapper { data: None });
}

#[test]
fn wrapper_converts_to_the_kind_that_is_asked_for() {
    let options = vec![
        option("a", text_value("x")),
        option("b", Some(CommandDataOptionValue::Integer(-3))),
        option("c", Some(CommandDataOptionValue::Boolean(true))),
        option("d", Some(CommandDataOptionValue::User(5))),
    ];
    assert_eq!(Option::<String>::from(DataWrapper::from(&options, 0)), Some("x".to_string()));
    assert_eq!(Option::<String>::from(DataWrapper::from(&options, 1)), None);
    assert_eq!(Option::<i64>::from(DataWrapper::from(&options, 1)), Some(-3));
    assert_eq!(Option::<i64>::from(DataWrapper::from(&options, 0)), None);
    assert_eq!(Option::<bool>::from(DataWrapper::from(&options, 2)), Some(true));
    assert_eq!(Option::<bool>::from(DataWrapper::from(&options, 3)), None);
    assert_eq!(Option::<String>::from(DataWrapper::from(&options, 9)), None);
    assert_eq!(text_option(&options, 0), Some("x".to_string()));
    assert_eq!(text_option(&options, 1), None);
    assert_eq!(integer_option(&options, 1), Some(-3));
    assert_eq!(integer_option(&options, 3), None);
}

#[test]
fn duplicate_is_equal() {
    for value in [
        CommandDataOptionValue::String("x".to_string()),
        CommandDataOptionValue::Integer(4),
        CommandDataOptionValue::Boolean(false),
        CommandDataOptionValue::User(1),
        CommandDataOptionValue::Channel(2),
        CommandDataOptionValue::Role(3),
        CommandDataOptionValue::Number,
        CommandDataOptionValue::Attachment(4),
    ] {
        assert_eq!(value.duplicate(), value);
    }
}

#[test]
fn magnitude_drops_the_sign() {
    assert_eq!(magnitude(0), 0);
    assert_eq!(magnitude(5), 5);
    assert_eq!(magnitude(-5), 5);
    assert_eq!(magnitude(i64::MAX), 9223372036854775807);
    assert_eq!(magnitude(i64::MIN + 1), 9223372036854775807);
    assert_eq!(magnitude(i64::MIN), 9223372036854775808);
}

#[test]
fn skip_words_are_split_at_commas_and_trimmed() {
    assert_eq!(parse_skip_keyword("next, skip it ,pass"), vec!["next", "skip it", "pass"]);
    assert_eq!(parse_skip_keyword("next"), vec!["next"]);
    assert_eq!(parse_skip_keyword(""), vec![""]);
    assert_eq!(parse_skip_keyword(" A , "), vec!["A", ""]);
}

#[test]
fn play_request_reads_all_four_options() {
    let options = play_options(
        "https://www.youtube.com/watch?v=dQw4w9WgXcQ",
        Some(30),
        Some(-15),
        Some("next, pass"),
    );
    assert_eq!(
        play_request(&options),
        Ok(PlayRequest {
            id: "dQw4w9WgXcQ".to_string(),
            window: PlaybackWindow { start: 15, length: 30 },
            skip_keyword: Some(vec!["next".to_string(), "pass".to_string()]),
        })
    );
}

#[test]
fn play_request_needs_the_url_only() {
    let options = vec![option("url", text_value("https://youtu.be/abc"))];
    assert_eq!(
        play_request(&options),
        Ok(PlayRequest {
            id: "abc".to_string(),
            window: PlaybackWindow { start: 0, length: 0 },
            skip_keyword: None,
        })
    );
}

#[test]
fn play_request_without_a_url_is_refused() {
    assert_eq!(play_request(&[]), Err(UserInputError::MissingUrl));
    let options = vec![option("url", None)];
    assert_eq!(play_request(&options), Err(UserInputError::MissingUrl));
    let options = vec![option("url", Some(CommandDataOptionValue::Integer(1)))];
    assert_eq!(play_request(&options), Err(UserInputError::MissingUrl));
}

#[test]
fn play_request_with_a_bad_url_is_refused() {
    let options = play_options("https://example.com/x", Some(30), None, None);
    assert_eq!(play_request(&options), Err(UserInputError::InvalidUrl));
}

#[test]
fn insert_request_resolves_the_url() {
    let options = vec![option("url", text_value("https://youtu.be/abc"))];
    assert_eq!(insert_request(&options), Ok("abc".to_string()));
    let options = vec![option("url", text_value("abc"))];
    assert_eq!(insert_request(&options), Err(UserInputError::InvalidUrl));
    assert_eq!(insert_request(&[]), Err(UserInputError::MissingUrl));
}

#[test]
fn add_song_request_reads_url_and_title() {
    let options = vec![
        option("url", text_value("https://youtu.be/abc")),
        option("title", text_value("A Song")),
    ];
    assert_eq!(add_song_request(&options), Ok(("abc".to_string(), "A Song".to_string())));
}

#[test]
fn add_song_request_reports_what_is_missing_first() {
    assert_eq!(add_song_request(&[]), Err(UserInputError::MissingUrl));
    let options = vec![option("url", text_value("nonsense"))];
    assert_eq!(add_song_request(&options), Err(UserInputError::MissingTitle));
    let options = vec![option("url", None), option("title", text_value("A Song"))];
    assert_eq!(add_song_request(&options), Err(UserInputError::MissingUrl));
    let options =
        vec![option("url", text_value("nonsense")), option("title", text_value("A Song"))];
    assert_eq!(add_song_request(&options), Err(UserInputError::InvalidUrl));
}

#[test]
fn shown_duration_is_the_length_asked_for() {
    assert_eq!(shown_duration(PlaybackWindow { start: 0, length: 30 }, 120), 30);
    assert_eq!(shown_duration(PlaybackWindow { start: 10, length: 500 }, 120), 500);
    assert_eq!(shown_duration(PlaybackWindow { start: 10, length: 0 }, 120), 120);
}
