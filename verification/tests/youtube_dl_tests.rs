use guild_music::metadata::Metadata;
use guild_music::playback_window::PlaybackWindow;
use guild_music::demux::{demux, read_packets, repackage, HEADER_PACKETS};
use guild_music::youtube_dl::{
    audio_path, cache_args, cache_hit, downloader_args, json_path, staging_path,
    transcoder_args, ytdl, ytdl_optioned, Acquisition, AcquisitionError, Step,
    FFMPEG_DL_COMMAND, TMP_FOLDER, YOUTUBE_DL_COMMAND,
};
use ogg::{PacketWriteEndInfo, PacketWriter};

fn ogg_stream(packets: &[Vec<u8>]) -> Vec<u8> {
    let mut bytes: Vec<u8> = Vec::new();
    {
        let mut writer = PacketWriter::new(&mut bytes);
        for (i, packet) in packets.iter().enumerate() {
            let end = if i + 1 == packets.len() {
                PacketWriteEndInfo::EndStream
            } else if i < 2 {
                PacketWriteEndInfo::EndPage
            } else {
                PacketWriteEndInfo::NormalPacket
            };
            writer.write_packet(packet.clone(), 77, end, i as u64).unwrap();
        }
    }
    bytes
}

fn opus_like_packets() -> Vec<Vec<u8>> {
    vec![b"OpusHead-identification".to_vec(), b"OpusTags-comments".to_vec(), vec![1, 2, 3], vec![4; 300], vec![], vec![9]]
}

fn described(title: &str, duration: u64) -> Metadata {
    Metadata {
        track: None,
        artist: None,
        date: None,
        channels: Some(2),
        channel: None,
        duration: Some(duration),
        sample_rate: Some(48000),
        source_url: None,
        title: Some(title.to_string()),
        thumbnail: None,
    }
}

fn strings_of(items: &[&str]) -> Vec<String> {
    items.iter().map(|s| s.to_string()).collect()
}

/// Runs a fetching against a cache that is a list of sources and a
/// downloader that counts how often it is started.
fn run_against(cache: &mut Vec<String>, downloads: &mut u32, id: &str, start: u64, length: u64) -> (Step, Acquisition) {
    let mut acquisition = ytdl_optioned(id.to_string(), start, length);
    let mut step = acquisition.step();
    loop {
        let next = match step {
            Step::ProbeCache => {
                let hit = cache.iter().any(|entry| entry == id);
                acquisition.on_cache_probed(hit, hit)
            }
            Step::LoadCached => acquisition.on_cached_metadata(Some(described("cached", 120))),
            Step::Download => {
                *downloads += 1;
                acquisition.on_downloaded(true, br#"{"title": "fresh", "duration": 120}"#)
            }
            Step::Publish => {
                cache.push(id.to_string());
                acquisition.on_published(true)
            }
            Step::Transcode { .. } => acquisition.on_transcoded(true, ogg_stream(&opus_like_packets())),
            Step::Done | Step::Failed(_) | Step::Rejected => return (step, acquisition),
        };
        acquisition = next.0;
        step = next.1;
    }
}

#[test]
fn programs_and_cache_directory() {
    assert_eq!(YOUTUBE_DL_COMMAND, "yt-dlp");
    assert_eq!(FFMPEG_DL_COMMAND, "ffmpeg");
    assert_eq!(TMP_FOLDER, "./tmp/");
    assert_eq!(HEADER_PACKETS, 2);
}

#[test]
fn cache_files_are_named_after_the_source() {
    assert_eq!(audio_path("dQw4w9WgXcQ"), "./tmp/dQw4w9WgXcQ.ogg");
    assert_eq!(json_path("dQw4w9WgXcQ"), "./tmp/dQw4w9WgXcQ.json");
    assert_eq!(audio_path(""), "./tmp/.ogg");
    assert_eq!(staging_path("./tmp/a.ogg"), "./tmp/a.ogg.part");
}

#[test]
fn cache_hit_needs_both_files() {
    assert!(cache_hit(true, true));
    assert!(!cache_hit(true, false));
    assert!(!cache_hit(false, true));
    assert!(!cache_hit(false, false));
}

#[test]
fn downloader_is_given_the_canonical_url_last() {
    assert_eq!(
        downloader_args("dQw4w9WgXcQ"),
        strings_of(&[
            "-j",
            "--no-simulate",
            "-f",
            "webm[abr>0]/bestaudio/best",
            "-R",
            "infinite",
            "--no-playlist",
            "--ignore-config",
            "--no-warnings",
            "-o",
            "-",
            "https://www.youtube.com/watch?v=dQw4w9WgXcQ",
        ])
    );
}

#[test]
fn cache_transcoder_reads_the_pipe_and_writes_the_file() {
    assert_eq!(
        cache_args("./tmp/a.ogg.part"),
        strings_of(&[
            "-i", "pipe:0", "-ac", "2", "-ar", "48000", "-ab", "64000", "-acodec", "libopus",
            "-f", "opus", "./tmp/a.ogg.part",
        ])
    );
}

#[test]
fn transcoder_seeks_and_cuts() {
    assert_eq!(
        transcoder_args(PlaybackWindow { start: 100, length: 20 }, "./tmp/a.ogg"),
        strings_of(&[
            "-ss", "100", "-i", "./tmp/a.ogg", "-t", "20", "-ac", "2", "-ar", "48000", "-ab",
            "64000", "-acodec", "libopus", "-f", "opus", "pipe:1",
        ])
    );
    let args = transcoder_args(PlaybackWindow { start: 0, length: u64::MAX }, "x");
    assert_eq!(args[1], "0");
    assert_eq!(args[5], "18446744073709551615");
    assert_eq!(args.len(), 17);
}

#[test]
fn packets_are_read_in_order() {
    let packets = opus_like_packets();
    assert_eq!(read_packets(ogg_stream(&packets)), packets);
}

#[test]
fn long_packet_that_spans_pages_is_read_whole() {
    let packets = vec![vec![1u8; 10], vec![2u8; 10], vec![3u8; 70000], vec![4u8; 5]];
    assert_eq!(read_packets(ogg_stream(&packets)), packets);
}

#[test]
fn bytes_that_are_no_ogg_hold_no_packets() {
    assert_eq!(read_packets(Vec::new()), Vec::<Vec<u8>>::new());
    assert_eq!(read_packets(b"this is not an ogg stream".to_vec()), Vec::<Vec<u8>>::new());
    assert_eq!(read_packets(vec![0u8; 4096]), Vec::<Vec<u8>>::new());
}

#[test]
fn reading_stops_where_the_stream_is_damaged() {
    let packets = opus_like_packets();
    let good = ogg_stream(&packets);
    let mut damaged = good.clone();
    let last = damaged.len() - 1;
    damaged[last] ^= 0xff;
    // the first two packets have a page each; the others share the page that was damaged
    assert_eq!(read_packets(damaged), packets[..2].to_vec());
    let mut cut = good.clone();
    cut.truncate(good.len() - 3);
    assert_eq!(read_packets(cut), packets[..2].to_vec());
}

#[test]
fn repackaging_leaves_out_the_two_header_packets() {
    let packets: Vec<Vec<u8>> = vec![vec![100; 19], vec![101; 30], vec![1, 2, 3], vec![], vec![9]];
    assert_eq!(repackage(&packets), Some(vec![3, 0, 1, 2, 3, 0, 0, 1, 0, 9]));
}

#[test]
fn repackaging_headers_alone_gives_an_empty_stream() {
    assert_eq!(repackage(&vec![]), Some(vec![]));
    assert_eq!(repackage(&vec![vec![1]]), Some(vec![]));
    assert_eq!(repackage(&vec![vec![1], vec![2]]), Some(vec![]));
}

#[test]
fn repackaging_fails_on_a_packet_too_long_for_a_frame() {
    let packets: Vec<Vec<u8>> = vec![vec![], vec![], vec![1], vec![0; 32768], vec![2]];
    assert_eq!(repackage(&packets), None);
    let packets: Vec<Vec<u8>> = vec![vec![], vec![], vec![1], vec![0; 32767]];
    assert_eq!(repackage(&packets).map(|stream| stream.len()), Some(3 + 2 + 32767));
}

#[test]
fn too_long_header_packets_do_not_matter() {
    let packets: Vec<Vec<u8>> = vec![vec![0; 40000], vec![0; 40000], vec![7]];
    assert_eq!(repackage(&packets), Some(vec![1, 0, 7]));
}

#[test]
fn demux_frames_the_audio_of_an_ogg_stream() {
    let stream = ogg_stream(&opus_like_packets());
    let mut expected = vec![3, 0, 1, 2, 3, 44, 1];
    expected.extend(vec![4u8; 300]);
    expected.extend([0, 0, 1, 0, 9]);
    assert_eq!(demux(stream), Some(expected));
}

#[test]
fn demux_of_no_ogg_is_an_empty_stream() {
    assert_eq!(demux(b"garbage".to_vec()), Some(vec![]));
}

#[test]
fn fetching_starts_with_a_look_at_the_cache() {
    let acquisition = ytdl_optioned("abc".to_string(), 10, 20);
    assert_eq!(acquisition.id(), "abc");
    assert_eq!(acquisition.step(), Step::ProbeCache);
    assert_eq!(ytdl("abc".to_string()), ytdl_optioned("abc".to_string(), 0, 0));
}

#[test]
fn cached_source_is_loaded_and_transcoded() {
    let acquisition = ytdl_optioned("abc".to_string(), 100, 50);
    let (acquisition, step) = acquisition.on_cache_probed(true, true);
    assert_eq!(step, Step::LoadCached);
    let (acquisition, step) = acquisition.on_cached_metadata(Some(described("T", 120)));
    assert_eq!(step, Step::Transcode { window: PlaybackWindow { start: 100, length: 20 } });
    assert_eq!(acquisition.step(), step);
    let (acquisition, step) = acquisition.on_transcoded(true, ogg_stream(&opus_like_packets()));
    assert_eq!(step, Step::Done);
    let (audio, metadata) = acquisition.finish().unwrap().unwrap();
    assert_eq!(Some(audio), demux(ogg_stream(&opus_like_packets())));
    assert_eq!(metadata, described("T", 120));
}

#[test]
fn missing_file_means_download() {
    for (audio, json) in [(false, false), (true, false), (false, true)] {
        let (_, step) = ytdl("abc".to_string()).on_cache_probed(audio, json);
        assert_eq!(step, Step::Download);
    }
}

#[test]
fn unusable_cached_description_means_download() {
    let (acquisition, _) = ytdl("abc".to_string()).on_cache_probed(true, true);
    let (_, step) = acquisition.on_cached_metadata(None);
    assert_eq!(step, Step::Download);
    let (acquisition, _) = ytdl("abc".to_string()).on_cache_probed(true, true);
    let mut metadata = described("T", 1);
    metadata.duration = None;
    let (_, step) = acquisition.on_cached_metadata(Some(metadata));
    assert_eq!(step, Step::Download);
}

#[test]
fn downloaded_source_is_transcoded_with_the_clamped_window() {
    let (acquisition, _) = ytdl_optioned("abc".to_string(), 150, 30).on_cache_probed(false, false);
    assert_eq!(acquisition.metadata(), None);
    let (acquisition, step) =
        acquisition.on_downloaded(true, br#"{"title": "T", "duration": 120.4}"#);
    assert_eq!(step, Step::Publish);
    assert_eq!(acquisition.metadata(), Some(&described("T", 120)));
    let (acquisition, step) = acquisition.on_published(true);
    assert_eq!(step, Step::Transcode { window: PlaybackWindow { start: 0, length: 120 } });
    assert_eq!(acquisition.metadata(), Some(&described("T", 120)));
    let (acquisition, step) = acquisition.on_transcoded(true, ogg_stream(&opus_like_packets()));
    assert_eq!(step, Step::Done);
    let (_, metadata) = acquisition.finish().unwrap().unwrap();
    assert_eq!(metadata, described("T", 120));
}

#[test]
fn whole_track_is_asked_for_by_its_length() {
    let (acquisition, _) = ytdl("abc".to_string()).on_cache_probed(true, true);
    let (_, step) = acquisition.on_cached_metadata(Some(described("T", 95)));
    assert_eq!(step, Step::Transcode { window: PlaybackWindow { start: 0, length: 95 } });
}

#[test]
fn failed_downloader_is_a_metadata_failure() {
    let (acquisition, _) = ytdl("abc".to_string()).on_cache_probed(false, false);
    let (acquisition, step) =
        acquisition.on_downloaded(false, br#"{"title": "T", "duration": 120}"#);
    assert_eq!(step, Step::Failed(AcquisitionError::MetadataFailure));
    assert_eq!(acquisition.finish(), Ok(Err(AcquisitionError::MetadataFailure)));
}

#[test]
fn unparsable_description_is_a_metadata_failure() {
    for document in [&b"ERROR: unavailable"[..], &b""[..], &br#"{"title": "no duration"}"#[..]] {
        let (acquisition, _) = ytdl("abc".to_string()).on_cache_probed(false, false);
        let (acquisition, step) = acquisition.on_downloaded(true, document);
        assert_eq!(step, Step::Failed(AcquisitionError::MetadataFailure));
        assert_eq!(acquisition.finish(), Ok(Err(AcquisitionError::MetadataFailure)));
    }
}

#[test]
fn download_that_cannot_be_stored_is_a_metadata_failure() {
    let (acquisition, _) = ytdl("abc".to_string()).on_cache_probed(false, false);
    let (acquisition, step) =
        acquisition.on_downloaded(true, br#"{"title": "T", "duration": 120}"#);
    assert_eq!(step, Step::Publish);
    let (acquisition, step) = acquisition.on_published(false);
    assert_eq!(step, Step::Failed(AcquisitionError::MetadataFailure));
    assert_eq!(acquisition.metadata(), None);
    assert_eq!(acquisition.finish(), Ok(Err(AcquisitionError::MetadataFailure)));
}

#[test]
fn failed_download_publishes_nothing() {
    let mut cache: Vec<String> = Vec::new();
    let (acquisition, step) = ytdl("abc".to_string()).on_cache_probed(false, false);
    assert_eq!(step, Step::Download);
    let (acquisition, step) = acquisition.on_downloaded(false, b"");
    if step == Step::Publish {
        cache.push("abc".to_string());
    }
    assert_eq!(cache, Vec::<String>::new());
    let (_, step) = acquisition.on_published(true);
    assert_eq!(step, Step::Rejected);
}

#[test]
fn failed_transcoder_is_a_transcode_failure() {
    let (acquisition, _) = ytdl("abc".to_string()).on_cache_probed(true, true);
    let (acquisition, _) = acquisition.on_cached_metadata(Some(described("T", 120)));
    let (acquisition, step) = acquisition.on_transcoded(false, ogg_stream(&opus_like_packets()));
    assert_eq!(step, Step::Failed(AcquisitionError::TranscodeFailure));
    assert_eq!(acquisition.finish(), Ok(Err(AcquisitionError::TranscodeFailure)));
}

#[test]
fn transcoder_that_writes_nothing_is_a_transcode_failure() {
    let (acquisition, _) = ytdl("abc".to_string()).on_cache_probed(true, true);
    let (acquisition, _) = acquisition.on_cached_metadata(Some(described("T", 120)));
    let (_, step) = acquisition.on_transcoded(true, Vec::new());
    assert_eq!(step, Step::Failed(AcquisitionError::TranscodeFailure));
}

#[test]
fn audio_that_cannot_be_framed_is_a_transcode_failure() {
    let packets = vec![vec![1u8; 4], vec![2u8; 4], vec![3u8; 40000]];
    let (acquisition, _) = ytdl("abc".to_string()).on_cache_probed(true, true);
    let (acquisition, _) = acquisition.on_cached_metadata(Some(described("T", 120)));
    let (_, step) = acquisition.on_transcoded(true, ogg_stream(&packets));
    assert_eq!(step, Step::Failed(AcquisitionError::TranscodeFailure));
}

#[test]
fn report_out_of_turn_is_rejected() {
    let acquisition = ytdl_optioned("abc".to_string(), 1, 2);
    let (acquisition, step) = acquisition.on_transcoded(true, vec![1]);
    assert_eq!(step, Step::Rejected);
    let (acquisition, step) = acquisition.on_downloaded(true, b"{}");
    assert_eq!(step, Step::Rejected);
    let (acquisition, step) = acquisition.on_cached_metadata(None);
    assert_eq!(step, Step::Rejected);
    let (acquisition, step) = acquisition.on_published(true);
    assert_eq!(step, Step::Rejected);
    assert_eq!(acquisition, ytdl_optioned("abc".to_string(), 1, 2));
    let (acquisition, _) = acquisition.on_cache_probed(false, false);
    let (acquisition, step) = acquisition.on_cache_probed(true, true);
    assert_eq!(step, Step::Rejected);
    assert_eq!(acquisition.step(), Step::Download);
}

#[test]
fn unfinished_fetching_is_handed_back() {
    let acquisition = ytdl_optioned("abc".to_string(), 1, 2);
    assert_eq!(acquisition.finish(), Err(ytdl_optioned("abc".to_string(), 1, 2)));
}

#[test]
fn cached_source_is_not_downloaded_again() {
    let mut cache: Vec<String> = Vec::new();
    let mut downloads = 0;
    let (step, first) = run_against(&mut cache, &mut downloads, "abc", 10, 20);
    assert_eq!(step, Step::Done);
    assert_eq!(downloads, 1);
    let (step, second) = run_against(&mut cache, &mut downloads, "abc", 10, 20);
    assert_eq!(step, Step::Done);
    assert_eq!(downloads, 1);
    let (first_audio, _) = first.finish().unwrap().unwrap();
    let (second_audio, _) = second.finish().unwrap().unwrap();
    assert_eq!(first_audio, second_audio);
    let (step, _) = run_against(&mut cache, &mut downloads, "other", 10, 20);
    assert_eq!(step, Step::Done);
    assert_eq!(downloads, 2);
}
