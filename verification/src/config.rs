//! The settings that the program starts with.

use vstd::prelude::*;
use vstd::string::*;

verus! {

/// Contains the settings read from the environment.
#[derive(Debug)]
pub struct Config {
    pub yt_dlp_path: String,
    pub ffmpeg_path: String,
    pub discord_token: String,
    pub bot_maintainer_uid: String,
}

/// Why a set of settings is refused.
#[derive(Debug, Clone, Copy, PartialEq, Eq, Structural)]
pub enum ConfigError {
    YtDlpPathEmpty,
    YtDlpPathMissing,
    FfmpegPathEmpty,
    FfmpegPathMissing,
    DiscordTokenEmpty,
    BotMaintainerUidEmpty,
}

impl ConfigError {
    /// The words that report the refusal.
    pub open spec fn words(self) -> Seq<char> {
        match self {
            ConfigError::YtDlpPathEmpty => "YT_DLP_PATH is empty"@,
            ConfigError::YtDlpPathMissing => "YT_DLP_PATH points to a non-existing path"@,
            ConfigError::FfmpegPathEmpty => "FFMPEG_PATH is empty"@,
            ConfigError::FfmpegPathMissing => "FFMPEG_PATH points to a non-existing path"@,
            ConfigError::DiscordTokenEmpty => "DISCORD_TOKEN is empty"@,
            ConfigError::BotMaintainerUidEmpty => "BOT_MAINTAINER_UID is empty"@,
        }
    }

    /// Writes the words that report the refusal.
    pub fn text(self) -> (s: String)
        ensures
            s@ == self.words(),
    {
        match self {
            ConfigError::YtDlpPathEmpty => String::from_str("YT_DLP_PATH is empty"),
            ConfigError::YtDlpPathMissing => String::from_str(
                "YT_DLP_PATH points to a non-existing path",
            ),
            ConfigError::FfmpegPathEmpty => String::from_str("FFMPEG_PATH is empty"),
            ConfigError::FfmpegPathMissing => String::from_str(
                "FFMPEG_PATH points to a non-existing path",
            ),
            ConfigError::DiscordTokenEmpty => String::from_str("DISCORD_TOKEN is empty"),
            ConfigError::BotMaintainerUidEmpty => String::from_str("BOT_MAINTAINER_UID is empty"),
        }
    }
}

/// The first fault of a set of settings, in the order in which they are
/// read; `None` where there is none.
pub open spec fn first_fault(
    yt_dlp_path: Seq<char>,
    yt_dlp_exists: bool,
    ffmpeg_path: Seq<char>,
    ffmpeg_exists: bool,
    discord_token: Seq<char>,
    bot_maintainer_uid: Seq<char>,
) -> Option<ConfigError> {
    if yt_dlp_path.len() == 0 {
        Some(ConfigError::YtDlpPathEmpty)
    } else if !yt_dlp_exists {
        Some(ConfigError::YtDlpPathMissing)
    } else if ffmpeg_path.len() == 0 {
        Some(ConfigError::FfmpegPathEmpty)
    } else if !ffmpeg_exists {
        Some(ConfigError::FfmpegPathMissing)
    } else if discord_token.len() == 0 {
        Some(ConfigError::DiscordTokenEmpty)
    } else if bot_maintainer_uid.len() == 0 {
        Some(ConfigError::BotMaintainerUidEmpty)
    } else {
        None
    }
}

impl Config {
    /// Takes the settings as they were read, with the answers to whether
    /// the two paths exist, and accepts them where nothing is empty and
    /// both paths exist. The first fault is reported otherwise.
    pub fn init(
        yt_dlp_path: String,
        yt_dlp_exists: bool,
        ffmpeg_path: String,
        ffmpeg_exists: bool,
        discord_token: String,
        bot_maintainer_uid: String,
    ) -> (res: Result<Config, ConfigError>)
        ensures
            match res {
                Ok(config) => {
                    &&& first_fault(
                        yt_dlp_path@,
                        yt_dlp_exists,
                        ffmpeg_path@,
                        ffmpeg_exists,
                        discord_token@,
                        bot_maintainer_uid@,
                    ).is_none()
                    &&& config.yt_dlp_path == yt_dlp_path
                    &&& config.ffmpeg_path == ffmpeg_path
                    &&& config.discord_token == discord_token
                    &&& config.bot_maintainer_uid == bot_maintainer_uid
                },
                Err(e) => first_fault(
                    yt_dlp_path@,
                    yt_dlp_exists,
                    ffmpeg_path@,
                    ffmpeg_exists,
                    discord_token@,
                    bot_maintainer_uid@,
                ) == Some(e),
            },
    {
        if yt_dlp_path.as_str().unicode_len() == 0 {
            Err(ConfigError::YtDlpPathEmpty)
        } else if !yt_dlp_exists {
            Err(ConfigError::YtDlpPathMissing)
        } else if ffmpeg_path.as_str().unicode_len() == 0 {
            Err(ConfigError::FfmpegPathEmpty)
        } else if !ffmpeg_exists {
            Err(ConfigError::FfmpegPathMissing)
        } else if discord_token.as_str().unicode_len() == 0 {
            Err(ConfigError::DiscordTokenEmpty)
        } else if bot_maintainer_uid.as_str().unicode_len() == 0 {
            Err(ConfigError::BotMaintainerUidEmpty)
        } else {
            Ok(Config { yt_dlp_path, ffmpeg_path, discord_token, bot_maintainer_uid })
        }
    }
}

} // verus!
