//! Fetching a track: where its files lie in the cache, what the downloader
//! and the transcoder are started with, and in which order all of this
//! happens.
//!
//! Nothing here touches the disk or starts a process. An [`Acquisition`]
//! tells its caller, [`Step`] by step, what to do, and the caller reports
//! what came of it.

use crate::demux::{demux, ogg_packets, repackaged};
use crate::metadata::{described, Metadata, MetadataView, CHANNELS, SAMPLE_RATE};
use crate::playback_window::PlaybackWindow;
use crate::text::{decimal, decimal_text};
use crate::url_checker::{canonical_url, to_canonical_url};
use vstd::prelude::*;
use vstd::string::StringExecFns;

verus! {

/// The program that downloads.
pub const YOUTUBE_DL_COMMAND: &'static str = "yt-dlp";

/// The program that transcodes.
pub const FFMPEG_DL_COMMAND: &'static str = "ffmpeg";

/// The directory of the cache, with the separator at its end.
pub const TMP_FOLDER: &'static str = "./tmp/";

/// What the downloader is started with, before the URL: print the
/// description as JSON, download all the same, prefer audio, retry without
/// end, one video only, no configuration file, no warnings, and write the
/// media to the standard output.
pub open spec fn ytdl_common_args() -> Seq<Seq<char>> {
    seq![
        "-j"@,
        "--no-simulate"@,
        "-f"@,
        "webm[abr>0]/bestaudio/best"@,
        "-R"@,
        "infinite"@,
        "--no-playlist"@,
        "--ignore-config"@,
        "--no-warnings"@,
        "-o"@,
        "-"@,
    ]
}

/// The encoding that the voice session expects: two channels, 48000 samples
/// per second, 64000 bits per second, Opus in an Ogg container.
pub open spec fn ffmpeg_args() -> Seq<Seq<char>> {
    seq![
        "-ac"@,
        "2"@,
        "-ar"@,
        "48000"@,
        "-ab"@,
        "64000"@,
        "-acodec"@,
        "libopus"@,
        "-f"@,
        "opus"@,
    ]
}

/// The transcoder is asked for the channels and the sample rate that a
/// track's description states.
pub proof fn lemma_encoding_agrees()
    ensures
        ffmpeg_args()[0] == "-ac"@,
        ffmpeg_args()[1] == decimal_text(CHANNELS as nat),
        ffmpeg_args()[2] == "-ar"@,
        ffmpeg_args()[3] == decimal_text(SAMPLE_RATE as nat),
{
    reveal_strlit("2");
    reveal_strlit("48000");
    reveal_with_fuel(decimal_text, 6);
}

/// Where the media of the source `id` lies in the cache.
pub open spec fn audio_path_text(id: Seq<char>) -> Seq<char> {
    TMP_FOLDER@ + id + ".ogg"@
}

/// Where the description of the source `id` lies in the cache.
pub open spec fn json_path_text(id: Seq<char>) -> Seq<char> {
    TMP_FOLDER@ + id + ".json"@
}

/// The arguments of the downloader for the source `id`.
pub open spec fn downloader_args_text(id: Seq<char>) -> Seq<Seq<char>> {
    ytdl_common_args().push(canonical_url(id))
}

/// The arguments of the transcoder that fills the cache: it reads what the
/// downloader writes and stores it at `audio_path`.
pub open spec fn cache_args_text(audio_path: Seq<char>) -> Seq<Seq<char>> {
    seq!["-i"@, "pipe:0"@] + ffmpeg_args() + seq![audio_path]
}

/// The arguments of the transcoder that cuts `window` out of the media at
/// `audio_path` and writes it to its standard output.
pub open spec fn transcoder_args_text(window: PlaybackWindow, audio_path: Seq<char>) -> Seq<
    Seq<char>,
> {
    seq![
        "-ss"@,
        decimal_text(window.start as nat),
        "-i"@,
        audio_path,
        "-t"@,
        decimal_text(window.length as nat),
    ] + ffmpeg_args() + seq!["pipe:1"@]
}

/// The path of the cached media of the source `id`.
pub fn audio_path(id: &str) -> (path: String)
    ensures
        path@ == audio_path_text(id@),
{
    TMP_FOLDER.to_owned().concat(id).concat(".ogg")
}

/// The path of the cached description of the source `id`.
pub fn json_path(id: &str) -> (path: String)
    ensures
        path@ == json_path_text(id@),
{
    TMP_FOLDER.to_owned().concat(id).concat(".json")
}

/// Where a cache file is written before it is complete. A file is moved to
/// its own path only when the download has ended well, so that a download
/// that broke off leaves nothing that looks like a cached source.
pub fn staging_path(path: &str) -> (staging: String)
    ensures
        staging@ == path@ + ".part"@,
{
    path.to_owned().concat(".part")
}

/// Whether the cache holds the source: its media and its description both
/// have to be there.
pub fn cache_hit(audio_exists: bool, json_exists: bool) -> (hit: bool)
    ensures
        hit == (audio_exists && json_exists),
{
    audio_exists && json_exists
}

/// Appends the encoding that the voice session expects to `args`.
fn push_ffmpeg_args(args: &mut Vec<String>)
    ensures
        final(args).deep_view() == old(args).deep_view() + ffmpeg_args(),
{
    args.push("-ac".to_owned());
    args.push("2".to_owned());
    args.push("-ar".to_owned());
    args.push("48000".to_owned());
    args.push("-ab".to_owned());
    args.push("64000".to_owned());
    args.push("-acodec".to_owned());
    args.push("libopus".to_owned());
    args.push("-f".to_owned());
    args.push("opus".to_owned());
}

/// The arguments to start the downloader with for the source `id`.
pub fn downloader_args(id: &str) -> (args: Vec<String>)
    ensures
        args.deep_view() == downloader_args_text(id@),
{
    let mut args: Vec<String> = Vec::new();
    args.push("-j".to_owned());
    args.push("--no-simulate".to_owned());
    args.push("-f".to_owned());
    args.push("webm[abr>0]/bestaudio/best".to_owned());
    args.push("-R".to_owned());
    args.push("infinite".to_owned());
    args.push("--no-playlist".to_owned());
    args.push("--ignore-config".to_owned());
    args.push("--no-warnings".to_owned());
    args.push("-o".to_owned());
    args.push("-".to_owned());
    args.push(to_canonical_url(id));
    args
}

/// The arguments to start the transcoder with that fills the cache.
pub fn cache_args(audio_path: &str) -> (args: Vec<String>)
    ensures
        args.deep_view() == cache_args_text(audio_path@),
{
    let mut args: Vec<String> = Vec::new();
    args.push("-i".to_owned());
    args.push("pipe:0".to_owned());
    assert(args.deep_view() =~= seq!["-i"@, "pipe:0"@]);
    push_ffmpeg_args(&mut args);
    args.push(audio_path.to_owned());
    args
}

/// The arguments to start the transcoder with that cuts `window` out of the
/// media at `audio_path`.
pub fn transcoder_args(window: PlaybackWindow, audio_path: &str) -> (args: Vec<String>)
    ensures
        args.deep_view() == transcoder_args_text(window, audio_path@),
{
    let mut args: Vec<String> = Vec::new();
    args.push("-ss".to_owned());
    args.push(decimal(window.start));
    args.push("-i".to_owned());
    args.push(audio_path.to_owned());
    args.push("-t".to_owned());
    args.push(decimal(window.length));
    assert(args.deep_view() =~= seq![
        "-ss"@,
        decimal_text(window.start as nat),
        "-i"@,
        audio_path@,
        "-t"@,
        decimal_text(window.length as nat),
    ]);
    push_ffmpeg_args(&mut args);
    args.push("pipe:1".to_owned());
    args
}

/// Why a track could not be fetched.
#[derive(Clone, Copy, Debug, PartialEq, Eq, Structural)]
pub enum AcquisitionError {
    /// The downloader failed, or what it printed does not describe a track.
    MetadataFailure,
    /// The transcoder failed, or what it wrote cannot be played.
    TranscodeFailure,
}

/// What the caller of an [`Acquisition`] has to do next.
#[derive(Clone, Copy, Debug, PartialEq, Eq, Structural)]
pub enum Step {
    /// Look whether the cache holds the source's media and its description,
    /// and report with `on_cache_probed`.
    ProbeCache,
    /// Read the cached description, and report with `on_cached_metadata`.
    LoadCached,
    /// Run the downloader and the transcoder that fills the cache, with the
    /// media going to its staging path; wait for both to exit, and report
    /// with `on_downloaded`.
    Download,
    /// Write the description to its staging path, move the media and the
    /// description from their staging paths to their own, and report with
    /// `on_published`.
    Publish,
    /// Run the transcoder on the cached media for `window`, wait for it to
    /// exit, and report with `on_transcoded`.
    Transcode { window: PlaybackWindow },
    /// Take the track with `finish`.
    Done,
    /// Give up: the track cannot be had.
    Failed(AcquisitionError),
    /// Nothing: the report did not answer the step that was asked for, and
    /// was put aside.
    Rejected,
}

/// How far the fetching of a track has come.
#[derive(Debug, PartialEq, Eq)]
enum Stage {
    /// The cache is being looked at.
    Probing,
    /// The cached description is being read.
    LoadingCached,
    /// The source is being downloaded.
    Downloading,
    /// The download has ended well, and its files are being moved into the
    /// cache.
    Publishing { metadata: Metadata, window: PlaybackWindow },
    /// The description is known, and `window` of the media is being
    /// transcoded.
    Transcoding { metadata: Metadata, window: PlaybackWindow },
    /// The track is there.
    Ready { metadata: Metadata, audio: Vec<u8> },
    /// The track cannot be had.
    Failed(AcquisitionError),
}

/// [`Stage`] as a mathematical value.
pub enum StageView {
    Probing,
    LoadingCached,
    Downloading,
    Publishing { metadata: MetadataView, window: PlaybackWindow },
    Transcoding { metadata: MetadataView, window: PlaybackWindow },
    Ready { metadata: MetadataView, audio: Seq<u8> },
    Failed(AcquisitionError),
}

impl View for Stage {
    type V = StageView;

    closed spec fn view(&self) -> StageView {
        match self {
            Stage::Probing => StageView::Probing,
            Stage::LoadingCached => StageView::LoadingCached,
            Stage::Downloading => StageView::Downloading,
            Stage::Publishing { metadata, window } => StageView::Publishing {
                metadata: metadata@,
                window: *window,
            },
            Stage::Transcoding { metadata, window } => StageView::Transcoding {
                metadata: metadata@,
                window: *window,
            },
            Stage::Ready { metadata, audio } => StageView::Ready {
                metadata: metadata@,
                audio: audio@,
            },
            Stage::Failed(error) => StageView::Failed(*error),
        }
    }
}

impl StageView {
    /// What the caller has to do at this stage.
    pub open spec fn step(self) -> Step {
        match self {
            StageView::Probing => Step::ProbeCache,
            StageView::LoadingCached => Step::LoadCached,
            StageView::Downloading => Step::Download,
            StageView::Publishing { metadata, window } => Step::Publish,
            StageView::Transcoding { metadata, window } => Step::Transcode { window },
            StageView::Ready { metadata, audio } => Step::Done,
            StageView::Failed(error) => Step::Failed(error),
        }
    }
}

/// The fetching of one track as a mathematical value.
pub struct AcquisitionView {
    /// The source that is fetched.
    pub id: Seq<char>,
    /// The window that was asked for.
    pub window: PlaybackWindow,
    pub stage: StageView,
}

impl AcquisitionView {
    /// The fetching of `window` of the source `id`, before anything was done.
    pub open spec fn start(id: Seq<char>, window: PlaybackWindow) -> Self {
        AcquisitionView { id, window, stage: StageView::Probing }
    }

    /// The same fetching at another stage, and what the caller has to do
    /// there.
    pub open spec fn at(self, stage: StageView) -> (Self, Step) {
        (AcquisitionView { stage, ..self }, stage.step())
    }

    /// The window to transcode of a track with the description `metadata`:
    /// the window that was asked for, clamped to the track's length.
    pub open spec fn clamped(self, metadata: MetadataView) -> PlaybackWindow {
        self.window.clamp_to(metadata.duration.unwrap())
    }

    /// The stage at which a track with the description `metadata` is
    /// transcoded.
    pub open spec fn transcoding(self, metadata: MetadataView) -> StageView {
        StageView::Transcoding { metadata, window: self.clamped(metadata) }
    }

    /// The stage at which the files of a track with the description
    /// `metadata` are moved into the cache.
    pub open spec fn publishing(self, metadata: MetadataView) -> StageView {
        StageView::Publishing { metadata, window: self.clamped(metadata) }
    }

    /// The cache was looked at. With both files there the cached description
    /// is read; with one of them missing the source is downloaded.
    pub open spec fn cache_probed(self, audio_exists: bool, json_exists: bool) -> (Self, Step) {
        match self.stage {
            StageView::Probing => if audio_exists && json_exists {
                self.at(StageView::LoadingCached)
            } else {
                self.at(StageView::Downloading)
            },
            _ => (self, Step::Rejected),
        }
    }

    /// The cached description was read. One that cannot be read, or that
    /// does not tell the track's length, counts as missing: the source is
    /// downloaded again.
    pub open spec fn cached_metadata(self, metadata: Option<MetadataView>) -> (Self, Step) {
        match self.stage {
            StageView::LoadingCached => match metadata {
                Some(m) if m.duration is Some => self.at(self.transcoding(m)),
                _ => self.at(StageView::Downloading),
            },
            _ => (self, Step::Rejected),
        }
    }

    /// The download has ended. `exit_ok` says whether the processes exited
    /// without an error, `document` is what the downloader printed.
    pub open spec fn downloaded(self, exit_ok: bool, document: Seq<u8>) -> (Self, Step) {
        match self.stage {
            StageView::Downloading => match described(document) {
                Some(m) if exit_ok => self.at(self.publishing(m)),
                _ => self.at(StageView::Failed(AcquisitionError::MetadataFailure)),
            },
            _ => (self, Step::Rejected),
        }
    }

    /// The files of the download were moved into the cache, or, where
    /// `stored` is false, could not be.
    pub open spec fn published(self, stored: bool) -> (Self, Step) {
        match self.stage {
            StageView::Publishing { metadata, window } => if stored {
                self.at(StageView::Transcoding { metadata, window })
            } else {
                self.at(StageView::Failed(AcquisitionError::MetadataFailure))
            },
            _ => (self, Step::Rejected),
        }
    }

    /// The transcoder has ended. `exit_ok` says whether it exited without
    /// an error, `output` is what it wrote.
    pub open spec fn transcoded(self, exit_ok: bool, output: Seq<u8>) -> (Self, Step) {
        match self.stage {
            StageView::Transcoding { metadata, window } => match repackaged(ogg_packets(output)) {
                Some(audio) if exit_ok && output.len() > 0 => self.at(
                    StageView::Ready { metadata, audio },
                ),
                _ => self.at(StageView::Failed(AcquisitionError::TranscodeFailure)),
            },
            _ => (self, Step::Rejected),
        }
    }

    /// The track, once it is there; the reason, once it cannot be had; and
    /// `None` as long as the fetching goes on.
    pub open spec fn outcome(self) -> Option<Result<(Seq<u8>, MetadataView), AcquisitionError>> {
        match self.stage {
            StageView::Ready { metadata, audio } => Some(Ok((audio, metadata))),
            StageView::Failed(error) => Some(Err(error)),
            _ => None,
        }
    }
}

/// The fetching of one track.
#[derive(Debug, PartialEq, Eq)]
pub struct Acquisition {
    id: String,
    window: PlaybackWindow,
    stage: Stage,
}

impl View for Acquisition {
    type V = AcquisitionView;

    closed spec fn view(&self) -> AcquisitionView {
        AcquisitionView { id: self.id@, window: self.window, stage: self.stage@ }
    }
}

/// Starts to fetch the whole of the source `id`.
pub fn ytdl(id: String) -> (acquisition: Acquisition)
    ensures
        acquisition@ == AcquisitionView::start(id@, PlaybackWindow::whole()),
{
    ytdl_optioned(id, 0, 0)
}

/// Starts to fetch the source `id`: `duration` seconds of it from second
/// `start` on, and all that follows `start` where `duration` is zero. The
/// first thing to do is to look at the cache.
pub fn ytdl_optioned(id: String, start: u64, duration: u64) -> (acquisition: Acquisition)
    ensures
        acquisition@ == AcquisitionView::start(id@, PlaybackWindow { start, length: duration }),
{
    Acquisition { id, window: PlaybackWindow { start, length: duration }, stage: Stage::Probing }
}

impl Acquisition {
    /// The source that is fetched.
    pub fn id(&self) -> (id: &str)
        ensures
            id@ == self@.id,
    {
        self.id.as_str()
    }

    /// What the caller has to do now.
    pub fn step(&self) -> (step: Step)
        ensures
            step == self@.stage.step(),
    {
        match &self.stage {
            Stage::Probing => Step::ProbeCache,
            Stage::LoadingCached => Step::LoadCached,
            Stage::Downloading => Step::Download,
            Stage::Publishing { metadata, window } => Step::Publish,
            Stage::Transcoding { metadata, window } => Step::Transcode { window: *window },
            Stage::Ready { metadata, audio } => Step::Done,
            Stage::Failed(error) => Step::Failed(*error),
        }
    }

    /// Moves on to `stage`.
    fn at(self, stage: Stage) -> (next: (Acquisition, Step))
        ensures
            (next.0@, next.1) == self@.at(stage@),
    {
        let next = Acquisition { id: self.id, window: self.window, stage };
        let step = next.step();
        (next, step)
    }

    /// The description of the track, from the moment at which it is known.
    pub fn metadata(&self) -> (metadata: Option<&Metadata>)
        ensures
            match self@.stage {
                StageView::Publishing { metadata: m, .. }
                | StageView::Transcoding { metadata: m, .. }
                | StageView::Ready { metadata: m, .. } => metadata matches Some(found) && found@
                    == m,
                _ => metadata is None,
            },
    {
        match &self.stage {
            Stage::Publishing { metadata, window } => Some(metadata),
            Stage::Transcoding { metadata, window } => Some(metadata),
            Stage::Ready { metadata, audio } => Some(metadata),
            _ => None,
        }
    }

    /// Moves on to the transcoding of a track whose description is known.
    fn to_transcoding(self, metadata: Metadata, duration: u64) -> (next: (Acquisition, Step))
        requires
            metadata.duration == Some(duration),
        ensures
            (next.0@, next.1) == self@.at(self@.transcoding(metadata@)),
    {
        let window = self.window.normalize(duration);
        self.at(Stage::Transcoding { metadata, window })
    }

    /// Moves on to the publishing of a track that was downloaded.
    fn to_publishing(self, metadata: Metadata, duration: u64) -> (next: (Acquisition, Step))
        requires
            metadata.duration == Some(duration),
        ensures
            (next.0@, next.1) == self@.at(self@.publishing(metadata@)),
    {
        let window = self.window.normalize(duration);
        self.at(Stage::Publishing { metadata, window })
    }

    /// Takes the report that the cache was looked at.
    pub fn on_cache_probed(self, audio_exists: bool, json_exists: bool) -> (next: (
        Acquisition,
        Step,
    ))
        ensures
            (next.0@, next.1) == self@.cache_probed(audio_exists, json_exists),
    {
        match &self.stage {
            Stage::Probing => {
                if cache_hit(audio_exists, json_exists) {
                    self.at(Stage::LoadingCached)
                } else {
                    self.at(Stage::Downloading)
                }
            },
            _ => (self, Step::Rejected),
        }
    }

    /// Takes the cached description, or `None` where it could not be read.
    pub fn on_cached_metadata(self, metadata: Option<Metadata>) -> (next: (Acquisition, Step))
        ensures
            (next.0@, next.1) == self@.cached_metadata(
                match metadata {
                    Some(m) => Some(m@),
                    None => None,
                },
            ),
    {
        match &self.stage {
            Stage::LoadingCached => match metadata {
                Some(m) => match m.duration {
                    Some(duration) => self.to_transcoding(m, duration),
                    None => self.at(Stage::Downloading),
                },
                None => self.at(Stage::Downloading),
            },
            _ => (self, Step::Rejected),
        }
    }

    /// Takes the report that the download has ended.
    pub fn on_downloaded(self, exit_ok: bool, document: &[u8]) -> (next: (Acquisition, Step))
        ensures
            (next.0@, next.1) == self@.downloaded(exit_ok, document@),
    {
        match &self.stage {
            Stage::Downloading => {
                if !exit_ok {
                    return self.at(Stage::Failed(AcquisitionError::MetadataFailure));
                }
                match Metadata::from_json(document) {
                    Some(m) => match m.duration {
                        Some(duration) => self.to_publishing(m, duration),
                        None => self.at(Stage::Failed(AcquisitionError::MetadataFailure)),
                    },
                    None => self.at(Stage::Failed(AcquisitionError::MetadataFailure)),
                }
            },
            _ => (self, Step::Rejected),
        }
    }

    /// Takes the report that the downloaded files were moved into the cache,
    /// or could not be.
    pub fn on_published(self, stored: bool) -> (next: (Acquisition, Step))
        ensures
            (next.0@, next.1) == self@.published(stored),
    {
        match self.stage {
            Stage::Publishing { metadata, window } => {
                let rest = Acquisition { id: self.id, window: self.window, stage: Stage::Probing };
                if stored {
                    rest.at(Stage::Transcoding { metadata, window })
                } else {
                    rest.at(Stage::Failed(AcquisitionError::MetadataFailure))
                }
            },
            stage => (Acquisition { id: self.id, window: self.window, stage }, Step::Rejected),
        }
    }

    /// Takes the report that the transcoder has ended.
    pub fn on_transcoded(self, exit_ok: bool, output: Vec<u8>) -> (next: (Acquisition, Step))
        ensures
            (next.0@, next.1) == self@.transcoded(exit_ok, output@),
    {
        match self.stage {
            Stage::Transcoding { metadata, window } => {
                let rest = Acquisition { id: self.id, window: self.window, stage: Stage::Probing };
                if !exit_ok || output.len() == 0 {
                    return rest.at(Stage::Failed(AcquisitionError::TranscodeFailure));
                }
                match demux(output) {
                    Some(audio) => rest.at(Stage::Ready { metadata, audio }),
                    None => rest.at(Stage::Failed(AcquisitionError::TranscodeFailure)),
                }
            },
            stage => (Acquisition { id: self.id, window: self.window, stage }, Step::Rejected),
        }
    }

    /// Hands out the track and its description, or the reason why there is
    /// none. A fetching that has not come to its end is handed back.
    pub fn finish(self) -> (outcome: Result<Result<(Vec<u8>, Metadata), AcquisitionError>, Acquisition>)
        ensures
            match outcome {
                Ok(Ok((audio, metadata))) => self@.outcome() == Some(
                    Ok::<_, AcquisitionError>((audio@, metadata@)),
                ),
                Ok(Err(error)) => self@.outcome() == Some(
                    Err::<(Seq<u8>, MetadataView), _>(error),
                ),
                Err(unfinished) => self@.outcome() is None && unfinished@ == self@,
            },
    {
        match self.stage {
            Stage::Ready { metadata, audio } => Ok(Ok((audio, metadata))),
            Stage::Failed(error) => Ok(Err(error)),
            stage => Err(Acquisition { id: self.id, window: self.window, stage }),
        }
    }
}

/// A source that the cache holds is not downloaded: after a look at the
/// cache that finds both files, and with a cached description that tells the
/// track's length, the caller is asked to transcode, and then the fetching is
/// over, one way or the other.
pub proof fn lemma_cache_hit_skips_download(
    a: AcquisitionView,
    metadata: MetadataView,
    exit_ok: bool,
    output: Seq<u8>,
)
    requires
        a.stage is Probing,
        metadata.duration is Some,
    ensures
        a.cache_probed(true, true).1 == Step::LoadCached,
        a.cache_probed(true, true).0.cached_metadata(Some(metadata)).1 is Transcode,
        ({
            let last = a.cache_probed(true, true).0.cached_metadata(Some(metadata)).0.transcoded(
                exit_ok,
                output,
            );
            (last.1 is Done || last.1 == Step::Failed(AcquisitionError::TranscodeFailure))
                && last.0.outcome() is Some
        }),
{
}

/// A download is asked for in two cases only: the cache lacks one of the
/// two files, or the cached description cannot be used.
pub proof fn lemma_download_only_on_miss(
    a: AcquisitionView,
    audio_exists: bool,
    json_exists: bool,
    metadata: Option<MetadataView>,
    exit_ok: bool,
    bytes: Seq<u8>,
)
    ensures
        a.cache_probed(audio_exists, json_exists).1 == Step::Download <==> a.stage is Probing && !(
        audio_exists && json_exists),
        a.cached_metadata(metadata).1 == Step::Download <==> a.stage is LoadingCached && !(
        metadata matches Some(m) && m.duration is Some),
        a.downloaded(exit_ok, bytes).1 != Step::Download,
        a.published(exit_ok).1 != Step::Download,
        a.transcoded(exit_ok, bytes).1 != Step::Download,
{
}

/// Nothing is moved into the cache but what a download that ended well has
/// brought, together with a description that tells the track's length; and
/// what was downloaded is transcoded only once it is in the cache.
pub proof fn lemma_publish_after_good_download(
    a: AcquisitionView,
    audio_exists: bool,
    json_exists: bool,
    metadata: Option<MetadataView>,
    exit_ok: bool,
    bytes: Seq<u8>,
)
    ensures
        a.downloaded(exit_ok, bytes).1 == Step::Publish <==> a.stage is Downloading && exit_ok
            && described(bytes) is Some,
        a.cache_probed(audio_exists, json_exists).1 != Step::Publish,
        a.cached_metadata(metadata).1 != Step::Publish,
        a.published(exit_ok).1 != Step::Publish,
        a.transcoded(exit_ok, bytes).1 != Step::Publish,
        !(a.downloaded(exit_ok, bytes).1 is Transcode),
        a.published(exit_ok).1 is Transcode <==> a.stage is Publishing && exit_ok,
{
}

/// The window that the transcoder is asked for lies inside the track.
pub proof fn lemma_transcode_window_fits(a: AcquisitionView, metadata: MetadataView)
    requires
        metadata.duration is Some,
    ensures
        a.clamped(metadata).fits(metadata.duration.unwrap()),
        a.transcoding(metadata).step() == (Step::Transcode { window: a.clamped(metadata) }),
        a.publishing(metadata).step() == Step::Publish,
        a.at(a.publishing(metadata)).0.published(true).1 == (Step::Transcode {
            window: a.clamped(metadata),
        }),
{
}

/// What makes a fetching fail: a downloader that exits with an error or
/// prints no usable description, and a transcoder that exits with an error,
/// writes nothing, or writes what cannot be framed.
pub proof fn lemma_failure_modes(a: AcquisitionView, exit_ok: bool, bytes: Seq<u8>)
    ensures
        a.stage is Downloading ==> (a.downloaded(exit_ok, bytes).1 == Step::Failed(
            AcquisitionError::MetadataFailure,
        ) <==> !exit_ok || described(bytes) is None),
        a.stage is Transcoding ==> (a.transcoded(exit_ok, bytes).1 == Step::Failed(
            AcquisitionError::TranscodeFailure,
        ) <==> !exit_ok || bytes.len() == 0 || repackaged(ogg_packets(bytes)) is None),
        a.stage is Transcoding && a.transcoded(exit_ok, bytes).1 is Done ==> a.transcoded(
            exit_ok,
            bytes,
        ).0.outcome() == Some(
            Ok::<_, AcquisitionError>(
                (repackaged(ogg_packets(bytes)).unwrap(), a.stage->Transcoding_metadata),
            ),
        ),
{
}

/// A report that does not answer the step that was asked for changes
/// nothing; in particular nothing moves a fetching that has come to its
/// end.
pub proof fn lemma_finished_stays(
    a: AcquisitionView,
    flag: bool,
    other: bool,
    metadata: Option<MetadataView>,
    bytes: Seq<u8>,
)
    requires
        a.outcome() is Some,
    ensures
        a.cache_probed(flag, other) == (a, Step::Rejected),
        a.cached_metadata(metadata) == (a, Step::Rejected),
        a.downloaded(flag, bytes) == (a, Step::Rejected),
        a.published(flag) == (a, Step::Rejected),
        a.transcoded(flag, bytes) == (a, Step::Rejected),
{
}

/// What the world outside gives to one fetching: what the cache holds, and
/// how the downloader and the transcoder fare.
pub struct Outside {
    /// Whether the cache holds the media.
    pub audio_exists: bool,
    /// Whether the cache holds the description.
    pub json_exists: bool,
    /// The cached description, as far as it can be read.
    pub cached: Option<MetadataView>,
    /// Whether the downloader and the transcoder behind it exit without an
    /// error.
    pub download_ok: bool,
    /// What the downloader prints.
    pub document: Seq<u8>,
    /// Whether the downloaded files can be moved into the cache.
    pub stored: bool,
    /// Whether the transcoder exits without an error.
    pub transcode_ok: bool,
    /// What the transcoder writes.
    pub output: Seq<u8>,
}

impl Outside {
    /// Whether the cache holds the source: both files, and a description
    /// that tells the track's length.
    pub open spec fn hit(self) -> bool {
        &&& self.audio_exists
        &&& self.json_exists
        &&& self.cached matches Some(m) && m.duration is Some
    }

    /// The description of the track: the cached one on a hit, and else the
    /// one that a download brings which ends well and can be stored.
    pub open spec fn metadata(self) -> Result<MetadataView, AcquisitionError> {
        if self.hit() {
            Ok(self.cached.unwrap())
        } else if self.download_ok && described(self.document) is Some && self.stored {
            Ok(described(self.document).unwrap())
        } else {
            Err(AcquisitionError::MetadataFailure)
        }
    }

    /// The framed stream that the transcoder's output makes.
    pub open spec fn audio(self) -> Result<Seq<u8>, AcquisitionError> {
        if self.transcode_ok && self.output.len() > 0 && repackaged(ogg_packets(self.output))
            is Some {
            Ok(repackaged(ogg_packets(self.output)).unwrap())
        } else {
            Err(AcquisitionError::TranscodeFailure)
        }
    }

    /// What a fetching comes to in this world.
    pub open spec fn outcome(self) -> Result<(Seq<u8>, MetadataView), AcquisitionError> {
        match (self.metadata(), self.audio()) {
            (Err(error), _) => Err(error),
            (Ok(_), Err(error)) => Err(error),
            (Ok(metadata), Ok(audio)) => Ok((audio, metadata)),
        }
    }
}

impl AcquisitionView {
    /// The report that answers `step` in the world `outside`.
    pub open spec fn answered(self, step: Step, outside: Outside) -> (Self, Step) {
        match step {
            Step::ProbeCache => self.cache_probed(outside.audio_exists, outside.json_exists),
            Step::LoadCached => self.cached_metadata(outside.cached),
            Step::Download => self.downloaded(outside.download_ok, outside.document),
            Step::Publish => self.published(outside.stored),
            Step::Transcode { window } => self.transcoded(outside.transcode_ok, outside.output),
            _ => (self, step),
        }
    }

    /// The fetching after `count` steps were taken in the world `outside`,
    /// each one answering the step that was asked for.
    pub open spec fn driven(self, outside: Outside, count: nat) -> Self
        decreases count,
    {
        if count == 0 {
            self
        } else {
            self.answered(self.stage.step(), outside).0.driven(outside, (count - 1) as nat)
        }
    }

    /// How often the downloader is started in the first `count` steps.
    pub open spec fn downloads(self, outside: Outside, count: nat) -> nat
        decreases count,
    {
        if count == 0 {
            0
        } else {
            let started: nat = if self.stage.step() == Step::Download {
                1
            } else {
                0
            };
            started + self.answered(self.stage.step(), outside).0.downloads(
                outside,
                (count - 1) as nat,
            )
        }
    }
}

/// A fetching is over after five steps at most, and comes to what the world
/// outside lets it come to: the cached description or the downloaded one,
/// and the framed audio of the window; or the failure of the first stage
/// that fails. The downloader is started once where the cache does not hold
/// the source, and not at all where it does.
pub proof fn lemma_acquire(id: Seq<char>, window: PlaybackWindow, outside: Outside)
    ensures
        AcquisitionView::start(id, window).driven(outside, 5).outcome() == Some(outside.outcome()),
        AcquisitionView::start(id, window).downloads(outside, 5) == if outside.hit() {
            0nat
        } else {
            1nat
        },
{
    reveal_with_fuel(AcquisitionView::driven, 6);
    reveal_with_fuel(AcquisitionView::downloads, 6);
}

} // verus!
