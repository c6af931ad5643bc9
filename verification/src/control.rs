//! The commands besides play, and the two track listeners: what each
//! decides, says and changes in the tables.

use crate::error::AppError;
use crate::model::index_of_id;
use crate::pipeline::{is_blank, query_is_blank};
use crate::player_data::PlayerData;
use crate::scope::GuildChannelID;
use crate::track::{download_dir, download_dir_string, TrackEmbed, TrackInfo};
use vstd::prelude::*;
use vstd::string::*;

verus! {

/// The state of a track in the call, as the voice transport reports it.
#[derive(Debug, Clone, Copy, PartialEq, Eq, Structural)]
pub enum PlayMode {
    Play,
    Pause,
    Stop,
    End,
    Errored,
}

/// A fixed line that a command says to the room.
#[derive(Debug, Clone, Copy, PartialEq, Eq, Structural)]
pub enum Notice {
    GuildOnly,
    NotInVoiceChannel,
    NoVoiceManager,
    NotConnected,
    NothingPlaying,
    Paused,
    Resumed,
    NothingToSkip,
    QueueIsEmpty,
    Nuked,
    Restarting,
}

impl Notice {
    /// The words of the line.
    pub open spec fn words(self) -> Seq<char> {
        match self {
            Notice::GuildOnly => "This command must be invoke in a guild!"@,
            Notice::NotInVoiceChannel => "You're not in a voice channel!"@,
            Notice::NoVoiceManager => "Can't get Songbird manager!"@,
            Notice::NotConnected => "Not in a voice channel."@,
            Notice::NothingPlaying => "Nothing was playing."@,
            Notice::Paused => "⏸️ Paused"@,
            Notice::Resumed => "▶️ Resumed"@,
            Notice::NothingToSkip => "There's no track in the queue!"@,
            Notice::QueueIsEmpty => "It's empty!"@,
            Notice::Nuked => "💥 Nuked!"@,
            Notice::Restarting => "Restarting..."@,
        }
    }

    /// Writes the line.
    pub fn text(self) -> (s: String)
        ensures
            s@ == self.words(),
    {
        match self {
            Notice::GuildOnly => String::from_str("This command must be invoke in a guild!"),
            Notice::NotInVoiceChannel => String::from_str("You're not in a voice channel!"),
            Notice::NoVoiceManager => String::from_str("Can't get Songbird manager!"),
            Notice::NotConnected => String::from_str("Not in a voice channel."),
            Notice::NothingPlaying => String::from_str("Nothing was playing."),
            Notice::Paused => String::from_str("⏸️ Paused"),
            Notice::Resumed => String::from_str("▶️ Resumed"),
            Notice::NothingToSkip => String::from_str("There's no track in the queue!"),
            Notice::QueueIsEmpty => String::from_str("It's empty!"),
            Notice::Nuked => String::from_str("💥 Nuked!"),
            Notice::Restarting => String::from_str("Restarting..."),
        }
    }
}

/// What the play command makes of a request before it touches anything.
#[derive(Debug)]
pub enum PlayCheck {
    /// Go on in this guild, joining this voice channel where the call is
    /// not connected yet.
    Go { guild_id: u64, voice_channel_id: u64 },
    /// Say the line and do nothing.
    Say(Notice),
    /// Give the error to the command layer.
    Fail(AppError),
}

/// The error for a query that holds nothing.
pub open spec fn empty_query_error() -> Seq<char> {
    "commands::player::play: query is empty, probably due to Discord's side"@
}

/// Checks a play request: the query must hold something, the command must
/// come from a guild, and its author must be in a voice channel there.
pub fn check_play_request(query: &str, guild_id: Option<u64>, voice_channel_id: Option<u64>) -> (res:
    PlayCheck)
    ensures
        is_blank(query@) ==> (res matches PlayCheck::Fail(e) && e.message@ == empty_query_error()),
        !is_blank(query@) ==> match (guild_id, voice_channel_id) {
            (None, _) => (res matches PlayCheck::Say(n) && n == Notice::GuildOnly),
            (Some(_), None) => (res matches PlayCheck::Say(n) && n == Notice::NotInVoiceChannel),
            (Some(g), Some(c)) => (res matches PlayCheck::Go { guild_id, voice_channel_id }
                && guild_id == g && voice_channel_id == c),
        },
{
    if query_is_blank(query) {
        return PlayCheck::Fail(
            AppError::new(
                String::from_str(
                    "commands::player::play: query is empty, probably due to Discord's side",
                ),
            ),
        );
    }
    match guild_id {
        None => PlayCheck::Say(Notice::GuildOnly),
        Some(g) => match voice_channel_id {
            None => PlayCheck::Say(Notice::NotInVoiceChannel),
            Some(c) => PlayCheck::Go { guild_id: g, voice_channel_id: c },
        },
    }
}

/// What the pause command does to the current track.
#[derive(Debug, Clone, Copy, PartialEq, Eq, Structural)]
pub enum PauseAction {
    Pause,
    Resume,
    Nothing,
}

/// A playing track is paused, a paused one resumed; anything else, or no
/// current track, is left alone.
pub open spec fn pause_action(current: Option<PlayMode>) -> PauseAction {
    match current {
        Some(PlayMode::Play) => PauseAction::Pause,
        Some(PlayMode::Pause) => PauseAction::Resume,
        _ => PauseAction::Nothing,
    }
}

/// The line that reports a pause action.
pub open spec fn pause_notice(action: PauseAction) -> Notice {
    match action {
        PauseAction::Pause => Notice::Paused,
        PauseAction::Resume => Notice::Resumed,
        PauseAction::Nothing => Notice::NothingPlaying,
    }
}

/// Decides between pausing and resuming, and says which line reports it.
pub fn toggle_pause(current: Option<PlayMode>) -> (res: (PauseAction, Notice))
    ensures
        res.0 == pause_action(current),
        res.1 == pause_notice(res.0),
{
    match current {
        Some(PlayMode::Play) => (PauseAction::Pause, Notice::Paused),
        Some(PlayMode::Pause) => (PauseAction::Resume, Notice::Resumed),
        _ => (PauseAction::Nothing, Notice::NothingPlaying),
    }
}

/// A track in this state has left the call for good.
pub open spec fn is_terminal(mode: PlayMode) -> bool {
    !(mode is Play) && !(mode is Pause)
}

/// The listener for a track that starts: for an owned track that is now
/// playing, the owner and the card to post there under `Now playing`.
/// Any other state, and a track that is not owned, give `None`.
pub fn on_track_started(data: &PlayerData, mode: PlayMode, track_id: u128) -> (res: Option<
    (GuildChannelID, TrackEmbed),
>)
    requires
        data.wf(),
    ensures
        res.is_some() == (mode is Play && data@.owners.contains_key(track_id)),
        match res {
            Some((scope, card)) => {
                let tracks = data@.playlists[scope];
                let track = tracks[index_of_id(tracks, track_id)];
                &&& data@.owned_by(track_id, scope)
                &&& track.id == track_id
                &&& card.author@ == "Now playing"@
                &&& card.title@ == track.clean_title()
                &&& card.description@ == track.pretty_description()
                &&& card.url@ == track.url@
                &&& card.thumbnail == track.thumbnail
            },
            None => true,
        },
{
    if mode != PlayMode::Play {
        return None;
    }
    match data.track_started(track_id) {
        Some((scope, track)) => Some((scope, track.embed("Now playing"))),
        None => None,
    }
}

/// The listener for a track that ends: in a terminal state the track
/// leaves the tables, and the answer is the scope that owned it. A track
/// that plays or is paused, and one that is not owned, change nothing.
pub fn on_track_ended(data: &mut PlayerData, mode: PlayMode, track_id: u128) -> (owner: Option<
    GuildChannelID,
>)
    requires
        old(data).wf(),
    ensures
        final(data).wf(),
        final(data)@ == if is_terminal(mode) {
            old(data)@.ended(track_id)
        } else {
            old(data)@
        },
        owner.is_some() == (is_terminal(mode) && old(data)@.owners.contains_key(track_id)),
        match owner {
            Some(scope) => old(data)@.owned_by(track_id, scope),
            None => true,
        },
{
    match mode {
        PlayMode::Play => None,
        PlayMode::Pause => None,
        _ => data.track_ended(track_id),
    }
}

/// The card that reports a skipped track.
pub fn skipped_card(track: &TrackInfo) -> (card: TrackEmbed)
    ensures
        card.author@ == "Skipped track"@,
        card.title@ == track.clean_title(),
        card.description@ == track.pretty_description(),
        card.url@ == track.url@,
        card.thumbnail == track.thumbnail,
{
    track.embed("Skipped track")
}

/// The skip command on the tables: the front track of `scope` leaves them
/// and the answer is the card that reports it. Where `scope` has no
/// playlist the answer is the line that says so, and the tables stay as
/// they are.
pub fn skip_track(data: &mut PlayerData, scope: GuildChannelID) -> (res: Result<TrackEmbed, Notice>)
    requires
        old(data).wf(),
    ensures
        final(data).wf(),
        final(data)@ == old(data)@.skipped(scope),
        match res {
            Ok(card) => {
                let track = old(data)@.playlists[scope][0];
                &&& old(data)@.playlists.contains_key(scope)
                &&& card.author@ == "Skipped track"@
                &&& card.title@ == track.clean_title()
                &&& card.description@ == track.pretty_description()
                &&& card.url@ == track.url@
                &&& card.thumbnail == track.thumbnail
            },
            Err(notice) => {
                &&& notice == Notice::NothingToSkip
                &&& !old(data)@.playlists.contains_key(scope)
                &&& final(data)@ == old(data)@
            },
        },
{
    match data.skip(scope) {
        Some(track) => Ok(skipped_card(&track)),
        None => Err(Notice::NothingToSkip),
    }
}

/// What is left to do outside the tables once a scope has been cleared.
#[derive(Debug)]
pub struct NukePlan {
    /// The call still carries the listeners: take them off.
    pub detach_listeners: bool,
    /// The directory of transcoded files to delete.
    pub temp_dir: String,
}

/// Clears everything of `scope` from the tables and says what is left to
/// do outside them.
pub fn nuke(data: &mut PlayerData, scope: GuildChannelID) -> (plan: NukePlan)
    requires
        old(data).wf(),
    ensures
        final(data).wf(),
        final(data)@ == old(data)@.purged(scope),
        final(data)@.free_of(scope),
        plan.detach_listeners == old(data)@.handlers.contains(scope),
        plan.temp_dir@ == download_dir(scope.guild_id),
{
    let detach_listeners = data.purge(scope);
    NukePlan { detach_listeners, temp_dir: download_dir_string(scope.guild_id) }
}

/// One line of the queue listing.
#[derive(Debug, Clone)]
pub struct QueueField {
    pub name: String,
    pub value: String,
}

/// The queue listing: one line for each track, and the picture of the
/// track that plays.
#[derive(Debug, Clone)]
pub struct QueueListing {
    pub fields: Vec<QueueField>,
    pub thumbnail: Option<String>,
}

/// The name of a track's line: its title, marked where it is the track
/// that plays.
pub open spec fn field_name(track: TrackInfo, playing: u128) -> Seq<char> {
    if track.id == playing {
        "▶️  "@ + track.clean_title()
    } else {
        track.clean_title()
    }
}

/// The text of a track's line: author, duration and a link to the source.
pub open spec fn field_value(track: TrackInfo) -> Seq<char> {
    track.pretty_description() + " | [Source]("@ + track.url@ + ")"@
}

/// The picture of the last track of `tracks` that has the identifier
/// `playing`; `None` where there is no such track.
pub open spec fn playing_thumbnail(tracks: Seq<TrackInfo>, playing: u128) -> Option<String>
    decreases tracks.len(),
{
    if tracks.len() == 0 {
        None
    } else if tracks.last().id == playing {
        tracks.last().thumbnail
    } else {
        playing_thumbnail(tracks.drop_last(), playing)
    }
}

/// The identifier that marks the playing track: the given one, or zero
/// where nothing plays.
pub open spec fn playing_id(playing: Option<u128>) -> u128 {
    match playing {
        Some(id) => id,
        None => 0,
    }
}

/// Lists a playlist for the room.
pub fn queue_listing(tracks: &Vec<TrackInfo>, playing: Option<u128>) -> (listing: QueueListing)
    ensures
        listing.fields@.len() == tracks@.len(),
        forall|i: int|
            0 <= i < tracks@.len() ==> (#[trigger] listing.fields@[i]).name@ == field_name(
                tracks@[i],
                playing_id(playing),
            ) && listing.fields@[i].value@ == field_value(tracks@[i]),
        listing.thumbnail == playing_thumbnail(tracks@, playing_id(playing)),
{
    let mark: u128 = match playing {
        Some(id) => id,
        None => 0,
    };
    let mut fields: Vec<QueueField> = Vec::new();
    let mut thumbnail: Option<String> = None;
    let mut k: usize = 0;
    while k < tracks.len()
        invariant
            k <= tracks.len(),
            mark == playing_id(playing),
            fields@.len() == k,
            forall|i: int|
                0 <= i < k ==> (#[trigger] fields@[i]).name@ == field_name(tracks@[i], mark)
                    && fields@[i].value@ == field_value(tracks@[i]),
            thumbnail == playing_thumbnail(tracks@.take(k as int), mark),
        decreases tracks.len() - k,
    {
        let track = &tracks[k];
        let name = if track.id == mark {
            thumbnail = match &track.thumbnail {
                Some(t) => Some(t.clone()),
                None => None,
            };
            let mut name = String::from_str("▶️  ");
            name.append(track.get_title().as_str());
            name
        } else {
            track.get_title()
        };
        let mut value = track.get_pretty_description();
        value.append(" | [Source](");
        value.append(track.url.as_str());
        value.append(")");
        fields.push(QueueField { name, value });
        proof {
            assert(tracks@.take(k + 1).drop_last() =~= tracks@.take(k as int));
            assert(tracks@.take(k + 1).last() == tracks@[k as int]);
        }
        k += 1;
    }
    assert(tracks@.take(k as int) =~= tracks@);
    QueueListing { fields, thumbnail }
}

/// What the queue command shows: the listing of a playlist that holds
/// something, or the line that says it is empty.
pub fn queue_reply(tracks: Option<&Vec<TrackInfo>>, playing: Option<u128>) -> (res: Result<
    QueueListing,
    Notice,
>)
    ensures
        match res {
            Ok(listing) => match tracks {
                Some(ts) => {
                    &&& ts@.len() > 0
                    &&& listing.fields@.len() == ts@.len()
                    &&& forall|i: int|
                        0 <= i < ts@.len() ==> (#[trigger] listing.fields@[i]).name@ == field_name(
                            ts@[i],
                            playing_id(playing),
                        ) && listing.fields@[i].value@ == field_value(ts@[i])
                    &&& listing.thumbnail == playing_thumbnail(ts@, playing_id(playing))
                },
                None => false,
            },
            Err(notice) => notice == Notice::QueueIsEmpty && match tracks {
                Some(ts) => ts@.len() == 0,
                None => true,
            },
        },
{
    match tracks {
        Some(ts) => if ts.len() > 0 {
            Ok(queue_listing(ts, playing))
        } else {
            Err(Notice::QueueIsEmpty)
        },
        None => Err(Notice::QueueIsEmpty),
    }
}

} // verus!
