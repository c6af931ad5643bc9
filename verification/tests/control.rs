use taxer::config::{Config, ConfigError};
use taxer::control::{
    check_play_request, queue_listing, queue_reply, skipped_card, toggle_pause, Notice,
    PauseAction, PlayCheck, PlayMode,
};
use taxer::error::AppError;
use taxer::track::TrackInfo;

fn track(id: u128, title: &str, thumbnail: Option<&str>) -> TrackInfo {
    TrackInfo {
        id,
        url: format!("https://example.org/{}", id),
        formats: None,
        duration_in_sec: 59,
        title: title.to_string(),
        thumbnail: thumbnail.map(|t| t.to_string()),
        artist: None,
        uploader: Some("Up".to_string()),
    }
}

#[test]
fn pause_toggles_between_playing_and_paused() {
    assert_eq!(toggle_pause(Some(PlayMode::Play)), (PauseAction::Pause, Notice::Paused));
    assert_eq!(toggle_pause(Some(PlayMode::Pause)), (PauseAction::Resume, Notice::Resumed));
    assert_eq!(toggle_pause(Some(PlayMode::Stop)), (PauseAction::Nothing, Notice::NothingPlaying));
    assert_eq!(toggle_pause(Some(PlayMode::End)), (PauseAction::Nothing, Notice::NothingPlaying));
    assert_eq!(
        toggle_pause(Some(PlayMode::Errored)),
        (PauseAction::Nothing, Notice::NothingPlaying)
    );
    assert_eq!(toggle_pause(None), (PauseAction::Nothing, Notice::NothingPlaying));
}

#[test]
fn notices_have_their_words() {
    assert_eq!(Notice::GuildOnly.text(), "This command must be invoke in a guild!");
    assert_eq!(Notice::NotInVoiceChannel.text(), "You're not in a voice channel!");
    assert_eq!(Notice::NoVoiceManager.text(), "Can't get Songbird manager!");
    assert_eq!(Notice::NotConnected.text(), "Not in a voice channel.");
    assert_eq!(Notice::NothingPlaying.text(), "Nothing was playing.");
    assert_eq!(Notice::Paused.text(), "\u{23f8}\u{fe0f} Paused");
    assert_eq!(Notice::Resumed.text(), "\u{25b6}\u{fe0f} Resumed");
    assert_eq!(Notice::NothingToSkip.text(), "There's no track in the queue!");
    assert_eq!(Notice::QueueIsEmpty.text(), "It's empty!");
    assert_eq!(Notice::Nuked.text(), "\u{1f4a5} Nuked!");
    assert_eq!(Notice::Restarting.text(), "Restarting...");
}

#[test]
fn play_request_is_checked_in_order() {
    match check_play_request("  ", None, None) {
        PlayCheck::Fail(e) => assert_eq!(
            e.describe(),
            "commands::player::play: query is empty, probably due to Discord's side"
        ),
        other => panic!("{:?}", other),
    }
    assert!(matches!(check_play_request("", Some(1), Some(2)), PlayCheck::Fail(_)));
    assert!(matches!(check_play_request("q", None, Some(2)), PlayCheck::Say(Notice::GuildOnly)));
    assert!(matches!(check_play_request("q", None, None), PlayCheck::Say(Notice::GuildOnly)));
    assert!(matches!(
        check_play_request("q", Some(1), None),
        PlayCheck::Say(Notice::NotInVoiceChannel)
    ));
    assert!(matches!(
        check_play_request(" q ", Some(1), Some(2)),
        PlayCheck::Go { guild_id: 1, voice_channel_id: 2 }
    ));
}

#[test]
fn queue_listing_marks_the_playing_track() {
    let tracks = vec![
        track(1, "One (Official Video)", Some("pic1")),
        track(2, "Two", Some("pic2")),
        track(3, "Three", None),
    ];
    let listing = queue_listing(&tracks, Some(2));
    assert_eq!(listing.fields.len(), 3);
    assert_eq!(listing.fields[0].name, "One");
    assert_eq!(listing.fields[0].value, "Up | 00:00:59 | [Source](https://example.org/1)");
    assert_eq!(listing.fields[1].name, "\u{25b6}\u{fe0f}  Two");
    assert_eq!(listing.fields[1].value, "Up | 00:00:59 | [Source](https://example.org/2)");
    assert_eq!(listing.fields[2].name, "Three");
    assert_eq!(listing.thumbnail, Some("pic2".to_string()));
    let last = queue_listing(&tracks, Some(3));
    assert_eq!(last.fields[2].name, "\u{25b6}\u{fe0f}  Three");
    assert_eq!(last.thumbnail, None);
    let none = queue_listing(&tracks, None);
    assert_eq!(none.fields[1].name, "Two");
    assert_eq!(none.thumbnail, None);
    let nil = queue_listing(&vec![track(0, "Nil", Some("pic0"))], None);
    assert_eq!(nil.fields[0].name, "\u{25b6}\u{fe0f}  Nil");
    assert_eq!(nil.thumbnail, Some("pic0".to_string()));
}

#[test]
fn empty_queue_is_reported() {
    assert_eq!(queue_reply(None, Some(1)).err(), Some(Notice::QueueIsEmpty));
    assert_eq!(queue_reply(Some(&Vec::new()), None).err(), Some(Notice::QueueIsEmpty));
    let tracks = vec![track(1, "One", None)];
    let listing = queue_reply(Some(&tracks), Some(1)).unwrap();
    assert_eq!(listing.fields.len(), 1);
    assert_eq!(listing.fields[0].name, "\u{25b6}\u{fe0f}  One");
}

#[test]
fn skipped_track_is_reported() {
    let card = skipped_card(&track(1, "One | lyrics video", Some("pic")));
    assert_eq!(card.author, "Skipped track");
    assert_eq!(card.title, "One");
    assert_eq!(card.description, "Up | 00:00:59");
    assert_eq!(card.url, "https://example.org/1");
    assert_eq!(card.thumbnail, Some("pic".to_string()));
}

fn init(y: &str, ye: bool, f: &str, fe: bool, t: &str, u: &str) -> Result<Config, ConfigError> {
    Config::init(y.to_string(), ye, f.to_string(), fe, t.to_string(), u.to_string())
}

#[test]
fn settings_are_checked_in_the_order_they_are_read() {
    assert_eq!(init("", false, "", false, "", "").err(), Some(ConfigError::YtDlpPathEmpty));
    assert_eq!(init("y", false, "", false, "", "").err(), Some(ConfigError::YtDlpPathMissing));
    assert_eq!(init("y", true, "", false, "", "").err(), Some(ConfigError::FfmpegPathEmpty));
    assert_eq!(init("y", true, "f", false, "", "").err(), Some(ConfigError::FfmpegPathMissing));
    assert_eq!(init("y", true, "f", true, "", "").err(), Some(ConfigError::DiscordTokenEmpty));
    assert_eq!(init("y", true, "f", true, "t", "").err(), Some(ConfigError::BotMaintainerUidEmpty));
    let config = init("y", true, "f", true, "t", "u").unwrap();
    assert_eq!(config.yt_dlp_path, "y");
    assert_eq!(config.ffmpeg_path, "f");
    assert_eq!(config.discord_token, "t");
    assert_eq!(config.bot_maintainer_uid, "u");
}

#[test]
fn setting_faults_have_their_words() {
    assert_eq!(ConfigError::YtDlpPathEmpty.text(), "YT_DLP_PATH is empty");
    assert_eq!(ConfigError::YtDlpPathMissing.text(), "YT_DLP_PATH points to a non-existing path");
    assert_eq!(ConfigError::FfmpegPathEmpty.text(), "FFMPEG_PATH is empty");
    assert_eq!(ConfigError::FfmpegPathMissing.text(), "FFMPEG_PATH points to a non-existing path");
    assert_eq!(ConfigError::DiscordTokenEmpty.text(), "DISCORD_TOKEN is empty");
    assert_eq!(ConfigError::BotMaintainerUidEmpty.text(), "BOT_MAINTAINER_UID is empty");
}

#[test]
fn error_keeps_its_words() {
    let e = AppError::new("can't send defer msg: closed".to_string());
    assert_eq!(e.describe(), "can't send defer msg: closed");
    assert_eq!(e.message, "can't send defer msg: closed");
}
