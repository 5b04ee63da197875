use guild_music::metadata::{Metadata, CHANNELS, SAMPLE_RATE};

fn value_of(text: &str) -> serde_json::Value {
    serde_json::from_str(text).unwrap()
}

fn bare_metadata() -> Metadata {
    Metadata {
        track: None,
        artist: None,
        date: None,
        channels: Some(2),
        channel: None,
        duration: None,
        sample_rate: Some(48000),
        source_url: None,
        title: None,
        thumbnail: None,
    }
}

#[test]
fn encoding_is_stereo_at_48000() {
    assert_eq!(CHANNELS, 2);
    assert_eq!(SAMPLE_RATE, 48000);
}

#[test]
fn every_member_is_read() {
    let value = value_of(
        r#"{
            "track": "The Track",
            "artist": "The Artist",
            "uploader": "The Uploader",
            "release_date": "20200101",
            "upload_date": "20210202",
            "channel": "The Channel",
            "duration": 212,
            "webpage_url": "https://www.youtube.com/watch?v=abc",
            "title": "The Title",
            "thumbnail": "https://example.com/t.jpg",
            "view_count": 12
        }"#,
    );
    assert_eq!(
        Metadata::from_ytdl_output(&value),
        Metadata {
            track: Some("The Track".to_string()),
            artist: Some("The Artist".to_string()),
            date: Some("20200101".to_string()),
            channels: Some(2),
            channel: Some("The Channel".to_string()),
            duration: Some(212),
            sample_rate: Some(48000),
            source_url: Some("https://www.youtube.com/watch?v=abc".to_string()),
            title: Some("The Title".to_string()),
            thumbnail: Some("https://example.com/t.jpg".to_string()),
        }
    );
}

#[test]
fn uploader_stands_in_for_the_artist() {
    let value = value_of(r#"{"uploader": "U", "upload_date": "20210202"}"#);
    let metadata = Metadata::from_ytdl_output(&value);
    assert_eq!(metadata.artist, Some("U".to_string()));
    assert_eq!(metadata.date, Some("20210202".to_string()));
}

#[test]
fn empty_object_gives_the_bare_description() {
    assert_eq!(Metadata::from_ytdl_output(&value_of("{}")), bare_metadata());
}

#[test]
fn value_that_is_no_object_gives_the_bare_description() {
    for text in ["[1, 2]", "\"title\"", "3", "null", "true"] {
        assert_eq!(Metadata::from_ytdl_output(&value_of(text)), bare_metadata());
    }
}

#[test]
fn members_of_another_kind_are_left_out() {
    let value = value_of(r#"{"title": 5, "artist": null, "uploader": ["U"], "duration": "212"}"#);
    assert_eq!(Metadata::from_ytdl_output(&value), bare_metadata());
}

#[test]
fn duration_is_cut_to_whole_seconds() {
    for (text, seconds) in [
        (r#"{"duration": 0}"#, Some(0)),
        (r#"{"duration": 212.0}"#, Some(212)),
        (r#"{"duration": 212.999}"#, Some(212)),
        (r#"{"duration": 0.5}"#, Some(0)),
        (r#"{"duration": 1e3}"#, Some(1000)),
        (r#"{"duration": -1}"#, None),
        (r#"{"duration": -0.5}"#, None),
        (r#"{"duration": 1e300}"#, None),
        (r#"{"duration": null}"#, None),
    ] {
        assert_eq!(Metadata::from_ytdl_output(&value_of(text)).duration, seconds, "{}", text);
    }
}

#[test]
fn document_with_a_duration_describes_a_track() {
    let metadata = Metadata::from_json(br#"{"title": "T", "duration": 120}"#).unwrap();
    assert_eq!(metadata.title, Some("T".to_string()));
    assert_eq!(metadata.duration, Some(120));
    assert_eq!(metadata.channels, Some(2));
    assert_eq!(metadata.sample_rate, Some(48000));
}

#[test]
fn document_without_a_duration_describes_nothing() {
    assert_eq!(Metadata::from_json(br#"{"title": "T"}"#), None);
    assert_eq!(Metadata::from_json(br#"{"title": "T", "duration": "120"}"#), None);
    assert_eq!(Metadata::from_json(b"[]"), None);
}

#[test]
fn bytes_that_are_no_document_describe_nothing() {
    assert_eq!(Metadata::from_json(b""), None);
    assert_eq!(Metadata::from_json(b"ERROR: video unavailable"), None);
    assert_eq!(Metadata::from_json(br#"{"duration": 120"#), None);
    assert_eq!(Metadata::from_json(br#"{"duration": 120} trailing"#), None);
    assert_eq!(Metadata::from_json(&[0xff, 0xfe, 0x00]), None);
}
