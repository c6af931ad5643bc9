use taxer::pipeline::{
    char_is_white_space, progress_message, query_is_blank, resolver_arguments, summary_message,
    transcode_notice_text, transcoder_arguments, Pipeline, PipelineAction, PipelineEvent,
};
use taxer::player_data::PlayerData;
use taxer::scope::GuildChannelID;
use taxer::track::{Format, TrackInfo};

fn scope(guild_id: u64, channel_id: u64) -> GuildChannelID {
    GuildChannelID { guild_id, channel_id }
}

fn track(id: u128, formats: Option<Vec<Format>>) -> TrackInfo {
    TrackInfo {
        id,
        url: "https://example.org/watch".to_string(),
        formats,
        duration_in_sec: 10,
        title: "t".to_string(),
        thumbnail: None,
        artist: None,
        uploader: None,
    }
}

#[test]
fn cancellation_after_the_end_is_ignored() {
    let s = scope(1, 2);
    let mut run = Pipeline::new(s);
    assert!(matches!(run.step(PipelineEvent::EndOfStream), PipelineAction::Report { .. }));
    assert!(run.finished);
    assert!(matches!(run.step(PipelineEvent::Nuke(s)), PipelineAction::Ignore));
    assert!(matches!(run.step(PipelineEvent::EndOfStream), PipelineAction::Ignore));
    assert!(matches!(run.step(PipelineEvent::Track(track(1, None))), PipelineAction::Ignore));
    assert!(matches!(
        run.step(PipelineEvent::ResolverFailed("late".to_string())),
        PipelineAction::Ignore
    ));
    assert!(run.finished);
    assert_eq!(run.track_count, 0);
    let mut data = PlayerData::new();
    assert_eq!(run.enqueue(&mut data, track(1, None)), None);
    assert!(data.queue(s).is_none());
}

#[test]
fn cancellation_stops_the_run_of_its_scope_only() {
    let s = scope(1, 2);
    let mut run = Pipeline::new(s);
    assert!(matches!(run.step(PipelineEvent::Nuke(scope(1, 3))), PipelineAction::Ignore));
    assert!(matches!(run.step(PipelineEvent::Nuke(scope(2, 2))), PipelineAction::Ignore));
    assert!(!run.finished);
    assert!(matches!(run.step(PipelineEvent::Nuke(s)), PipelineAction::Abort));
    assert!(run.finished);
}

#[test]
fn resolver_failure_is_shown_and_stops_the_run() {
    let mut run = Pipeline::new(scope(1, 2));
    match run.step(PipelineEvent::ResolverFailed("can't run yt-dlp: gone".to_string())) {
        PipelineAction::Fail { error } => assert_eq!(error, "can't run yt-dlp: gone"),
        other => panic!("{:?}", other),
    }
    assert!(run.finished);
}

#[test]
fn track_with_a_direct_address_is_streamed() {
    let mut run = Pipeline::new(scope(1, 2));
    let formats = vec![Format {
        url: "direct".to_string(),
        codec: Some("opus".to_string()),
        bitrate: Some(96),
    }];
    match run.step(PipelineEvent::Track(track(7, Some(formats)))) {
        PipelineAction::Stream { track, url } => {
            assert_eq!(track.id, 7);
            assert_eq!(url, "direct");
        }
        other => panic!("{:?}", other),
    }
    assert!(!run.finished);
    assert_eq!(run.track_count, 0);
}

#[test]
fn track_without_a_direct_address_is_transcoded() {
    let mut run = Pipeline::new(scope(77, 2));
    match run.step(PipelineEvent::Track(track(0x10, None))) {
        PipelineAction::Transcode { track, output } => {
            assert_eq!(track.id, 0x10);
            assert_eq!(output, "/tmp/taxer/77/00000000-0000-0000-0000-000000000010");
        }
        other => panic!("{:?}", other),
    }
    assert!(!run.finished);
}

#[test]
fn enqueued_tracks_are_counted_and_reported() {
    let s = scope(1, 2);
    let mut data = PlayerData::new();
    let mut run = Pipeline::new(s);
    assert_eq!(
        run.enqueue(&mut data, track(1, None)),
        Some("Adding `1` track to the queue...".to_string())
    );
    assert_eq!(
        run.enqueue(&mut data, track(2, None)),
        Some("Adding `2` tracks to the queue...".to_string())
    );
    assert_eq!(run.enqueue(&mut data, track(2, None)), None);
    assert_eq!(run.track_count, 2);
    assert_eq!(data.queue(s).map(|t| t.iter().map(|x| x.id).collect()), Some(vec![1u128, 2]));
    match run.step(PipelineEvent::EndOfStream) {
        PipelineAction::Report { summary } => assert_eq!(summary, "Added `2` tracks to the queue!"),
        other => panic!("{:?}", other),
    }
}

#[test]
fn count_stays_at_the_largest_number() {
    let s = scope(1, 2);
    let mut data = PlayerData::new();
    let mut run = Pipeline { scope: s, track_count: u64::MAX, finished: false };
    assert_eq!(
        run.enqueue(&mut data, track(1, None)),
        Some("Adding `18446744073709551615` tracks to the queue...".to_string())
    );
    assert_eq!(run.track_count, u64::MAX);
}

#[test]
fn reports_follow_the_count() {
    assert_eq!(progress_message(0), "Adding `0` track to the queue...");
    assert_eq!(progress_message(1), "Adding `1` track to the queue...");
    assert_eq!(progress_message(12), "Adding `12` tracks to the queue...");
    assert_eq!(summary_message(0), "No track added to the queue!");
    assert_eq!(summary_message(1), "Added `1` track to the queue!");
    assert_eq!(summary_message(3), "Added `3` tracks to the queue!");
}

#[test]
fn blank_queries_are_recognised() {
    assert!(query_is_blank(""));
    assert!(query_is_blank("  \t\r\n"));
    assert!(query_is_blank("\u{a0}\u{2003}\u{3000}\u{85}"));
    assert!(!query_is_blank(" a "));
    assert!(!query_is_blank("\u{200b}"));
    for n in 0u32..0x3100 {
        if let Some(c) = char::from_u32(n) {
            assert_eq!(char_is_white_space(c), c.is_whitespace());
        }
    }
}

#[test]
fn process_arguments_are_in_order() {
    assert_eq!(
        resolver_arguments("never gonna"),
        vec!["-x", "--default-search", "ytsearch", "--skip-download", "--print-json", "never gonna"]
    );
    assert_eq!(
        transcoder_arguments("/bin/ffmpeg", "/tmp/taxer/1/x", "https://u"),
        vec![
            "--ffmpeg-location",
            "/bin/ffmpeg",
            "--audio-format",
            "aac",
            "--audio-quality",
            "0",
            "-x",
            "-o",
            "/tmp/taxer/1/x",
            "https://u"
        ]
    );
    assert_eq!(
        transcode_notice_text("42"),
        "Can't get a playable URL, downloading the track...\n<@42> You might want to update `yt-dlp` to the latest version."
    );
}
