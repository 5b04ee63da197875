//! What is known about a track, and how it is read from the document that
//! the downloader prints.

use vstd::prelude::*;

verus! {

/// Channels of the audio that the transcoder is asked for.
pub const CHANNELS: u8 = 2;

/// Samples per second of the audio that the transcoder is asked for.
pub const SAMPLE_RATE: u32 = 48000;

/// The description of a track.
#[derive(Clone, Debug, PartialEq, Eq)]
pub struct Metadata {
    /// The name of the piece.
    pub track: Option<String>,
    /// Who made it; where that is not known, who uploaded it.
    pub artist: Option<String>,
    /// The day of its release; where that is not known, of its upload.
    pub date: Option<String>,
    /// The number of audio channels.
    pub channels: Option<u8>,
    /// The channel of the hosting platform that it was published on.
    pub channel: Option<String>,
    /// Its length in whole seconds.
    pub duration: Option<u64>,
    /// Samples per second.
    pub sample_rate: Option<u32>,
    /// The page that it came from.
    pub source_url: Option<String>,
    /// Its title on the hosting platform.
    pub title: Option<String>,
    /// The address of a picture of it.
    pub thumbnail: Option<String>,
}

/// [`Metadata`] with its texts as sequences of characters.
pub struct MetadataView {
    pub track: Option<Seq<char>>,
    pub artist: Option<Seq<char>>,
    pub date: Option<Seq<char>>,
    pub channels: Option<u8>,
    pub channel: Option<Seq<char>>,
    pub duration: Option<u64>,
    pub sample_rate: Option<u32>,
    pub source_url: Option<Seq<char>>,
    pub title: Option<Seq<char>>,
    pub thumbnail: Option<Seq<char>>,
}

impl View for Metadata {
    type V = MetadataView;

    open spec fn view(&self) -> MetadataView {
        MetadataView {
            track: self.track.deep_view(),
            artist: self.artist.deep_view(),
            date: self.date.deep_view(),
            channels: self.channels,
            channel: self.channel.deep_view(),
            duration: self.duration,
            sample_rate: self.sample_rate,
            source_url: self.source_url.deep_view(),
            title: self.title.deep_view(),
            thumbnail: self.thumbnail.deep_view(),
        }
    }
}

/// A member of a JSON object, as far as a track's description needs it.
pub enum JsonMember {
    /// A string.
    Text(Seq<char>),
    /// A number that is not negative, cut down to whole seconds.
    Seconds(u64),
    /// Anything else.
    Other,
}

/// `serde_json::Value`, a JSON value of any kind. Nothing is known of it but
/// through the functions below.
#[verifier::external_type_specification]
#[verifier::external_body]
pub struct ExJsonValue(serde_json::Value);

/// `serde_json::Error`, the reason why bytes are no JSON document.
#[verifier::external_type_specification]
#[verifier::external_body]
pub struct ExJsonError(serde_json::Error);

/// The members of the JSON object `value`, each under its key. A value that
/// is no object has none.
pub uninterp spec fn json_members(value: serde_json::Value) -> Map<Seq<char>, JsonMember>;

/// The members of the JSON object that the bytes `data` spell out, and `None`
/// where they are no JSON document.
pub uninterp spec fn json_document(data: Seq<u8>) -> Option<Map<Seq<char>, JsonMember>>;

/// Parses a JSON document with `serde_json::from_slice`.
///
/// Trusted: the call succeeds on the bytes that are a JSON document, and
/// on no others, and the value that it returns holds the document's members.
#[verifier::external_body]
fn parse_json(data: &[u8]) -> (parsed: Result<serde_json::Value, serde_json::Error>)
    ensures
        match parsed {
            Ok(value) => json_document(data@) == Some(json_members(value)),
            Err(_) => json_document(data@) is None,
        },
{
    serde_json::from_slice::<serde_json::Value>(data)
}

/// Looks `key` up with `serde_json::Value::get` and reads the member as a
/// string with `Value::as_str`.
///
/// Trusted: the result is the member's text where `value` is an object
/// that has a string under `key`, and `None` in every other case.
#[verifier::external_body]
fn member_text(value: &serde_json::Value, key: &str) -> (text: Option<String>)
    ensures
        text.deep_view() == text_member(json_members(*value), key@),
{
    value.get(key).and_then(|member| member.as_str()).map(|text| text.to_string())
}

/// Looks `key` up with `serde_json::Value::get`, reads the member as a
/// number with `Value::as_f64`, and takes the whole seconds of it with
/// `Duration::try_from_secs_f64` and `Duration::as_secs`.
///
/// Trusted: the result is the member's whole seconds where `value` is an
/// object that has under `key` a number which is not negative and not too
/// large for a span of time, and `None` in every other case.
#[verifier::external_body]
fn member_seconds(value: &serde_json::Value, key: &str) -> (seconds: Option<u64>)
    ensures
        seconds == seconds_member(json_members(*value), key@),
{
    value.get(key).and_then(|member| member.as_f64()).and_then(
        |number| std::time::Duration::try_from_secs_f64(number).ok(),
    ).map(|span| span.as_secs())
}

/// The string under `key`, if there is one.
pub open spec fn text_member(members: Map<Seq<char>, JsonMember>, key: Seq<char>) -> Option<
    Seq<char>,
> {
    if members.contains_key(key) {
        match members[key] {
            JsonMember::Text(text) => Some(text),
            _ => None,
        }
    } else {
        None
    }
}

/// The whole seconds under `key`, if there is such a number.
pub open spec fn seconds_member(members: Map<Seq<char>, JsonMember>, key: Seq<char>) -> Option<
    u64,
> {
    if members.contains_key(key) {
        match members[key] {
            JsonMember::Seconds(seconds) => Some(seconds),
            _ => None,
        }
    } else {
        None
    }
}

/// The first of two texts that is there.
pub open spec fn first_text(a: Option<Seq<char>>, b: Option<Seq<char>>) -> Option<Seq<char>> {
    if a is Some {
        a
    } else {
        b
    }
}

/// The description that the downloader's document gives of a track.
pub open spec fn metadata_of(members: Map<Seq<char>, JsonMember>) -> MetadataView {
    MetadataView {
        track: text_member(members, "track"@),
        artist: first_text(text_member(members, "artist"@), text_member(members, "uploader"@)),
        date: first_text(
            text_member(members, "release_date"@),
            text_member(members, "upload_date"@),
        ),
        channels: Some(CHANNELS),
        channel: text_member(members, "channel"@),
        duration: seconds_member(members, "duration"@),
        sample_rate: Some(SAMPLE_RATE),
        source_url: text_member(members, "webpage_url"@),
        title: text_member(members, "title"@),
        thumbnail: text_member(members, "thumbnail"@),
    }
}

/// The description of a track that the bytes `data` hold, if they are a JSON
/// document that tells the track's length.
pub open spec fn described(data: Seq<u8>) -> Option<MetadataView> {
    match json_document(data) {
        Some(members) => if seconds_member(members, "duration"@) is Some {
            Some(metadata_of(members))
        } else {
            None
        },
        None => None,
    }
}

impl Metadata {
    /// Reads a track's description from the document that the downloader
    /// printed about it.
    pub fn from_ytdl_output(value: &serde_json::Value) -> (metadata: Metadata)
        ensures
            metadata@ == metadata_of(json_members(*value)),
    {
        let track = member_text(value, "track");
        let artist = match member_text(value, "artist") {
            Some(artist) => Some(artist),
            None => member_text(value, "uploader"),
        };
        let date = match member_text(value, "release_date") {
            Some(date) => Some(date),
            None => member_text(value, "upload_date"),
        };
        Metadata {
            track,
            artist,
            date,
            channels: Some(CHANNELS),
            channel: member_text(value, "channel"),
            duration: member_seconds(value, "duration"),
            sample_rate: Some(SAMPLE_RATE),
            source_url: member_text(value, "webpage_url"),
            title: member_text(value, "title"),
            thumbnail: member_text(value, "thumbnail"),
        }
    }

    /// Reads a track's description from the bytes that the downloader
    /// printed. Bytes that are no JSON document describe no track, and
    /// neither does a document that does not tell the track's length.
    pub fn from_json(data: &[u8]) -> (metadata: Option<Metadata>)
        ensures
            metadata.is_some() == described(data@).is_some(),
            metadata matches Some(m) ==> Some(m@) == described(data@),
    {
        match parse_json(data) {
            Ok(value) => {
                let metadata = Metadata::from_ytdl_output(&value);
                if metadata.duration.is_some() {
                    Some(metadata)
                } else {
                    None
                }
            },
            Err(_) => None,
        }
    }
}

} // verus!
