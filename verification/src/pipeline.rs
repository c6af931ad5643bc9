//! One run of the play command: what it does on each event it waits for.

use crate::player_data::PlayerData;
use crate::scope::GuildChannelID;
use crate::text::{decimal, decimal_string};
use crate::track::TrackInfo;
use vstd::prelude::*;
use vstd::string::*;

verus! {

/// A character that `char::is_whitespace` counts as white space.
pub open spec fn is_white_space(c: char) -> bool {
    let n = c as u32;
    ||| 0x09 <= n <= 0x0D
    ||| n == 0x20
    ||| n == 0x85
    ||| n == 0xA0
    ||| n == 0x1680
    ||| 0x2000 <= n <= 0x200A
    ||| n == 0x2028
    ||| n == 0x2029
    ||| n == 0x202F
    ||| n == 0x205F
    ||| n == 0x3000
}

/// A text that holds nothing but white space.
pub open spec fn is_blank(text: Seq<char>) -> bool {
    forall|i: int| 0 <= i < text.len() ==> is_white_space(#[trigger] text[i])
}

/// Tells whether a character is white space.
pub fn char_is_white_space(c: char) -> (res: bool)
    ensures
        res == is_white_space(c),
{
    let n: u32 = c as u32;
    (0x09 <= n && n <= 0x0D) || n == 0x20 || n == 0x85 || n == 0xA0 || n == 0x1680 || (0x2000 <= n
        && n <= 0x200A) || n == 0x2028 || n == 0x2029 || n == 0x202F || n == 0x205F || n == 0x3000
}

/// Tells whether a query holds nothing to search for.
pub fn query_is_blank(query: &str) -> (res: bool)
    ensures
        res == is_blank(query@),
{
    let n: usize = query.unicode_len();
    let mut k: usize = 0;
    while k < n
        invariant
            k <= n,
            n == query@.len(),
            forall|i: int| 0 <= i < k ==> is_white_space(#[trigger] query@[i]),
        decreases n - k,
    {
        if !char_is_white_space(query.get_char(k)) {
            return false;
        }
        k += 1;
    }
    true
}

/// The arguments that make the resolver print one record per track for
/// `query`, without downloading anything.
pub open spec fn resolver_args(query: Seq<char>) -> Seq<Seq<char>> {
    seq!["-x"@, "--default-search"@, "ytsearch"@, "--skip-download"@, "--print-json"@, query]
}

/// The arguments that make the transcoder write the audio of `url` to
/// `output`, in the best quality.
pub open spec fn transcoder_args(
    ffmpeg_path: Seq<char>,
    output: Seq<char>,
    url: Seq<char>,
) -> Seq<Seq<char>> {
    seq![
        "--ffmpeg-location"@,
        ffmpeg_path,
        "--audio-format"@,
        "aac"@,
        "--audio-quality"@,
        "0"@,
        "-x"@,
        "-o"@,
        output,
        url,
    ]
}

/// The views of a list of texts.
pub open spec fn texts(v: Seq<String>) -> Seq<Seq<char>> {
    v.map_values(|s: String| s@)
}

/// Builds the resolver's arguments.
pub fn resolver_arguments(query: &str) -> (args: Vec<String>)
    ensures
        texts(args@) == resolver_args(query@),
{
    let mut args: Vec<String> = Vec::new();
    args.push(String::from_str("-x"));
    args.push(String::from_str("--default-search"));
    args.push(String::from_str("ytsearch"));
    args.push(String::from_str("--skip-download"));
    args.push(String::from_str("--print-json"));
    args.push(String::from_str(query));
    assert(texts(args@) =~= resolver_args(query@));
    args
}

/// Builds the transcoder's arguments.
pub fn transcoder_arguments(ffmpeg_path: &str, output: &str, url: &str) -> (args: Vec<String>)
    ensures
        texts(args@) == transcoder_args(ffmpeg_path@, output@, url@),
{
    let mut args: Vec<String> = Vec::new();
    args.push(String::from_str("--ffmpeg-location"));
    args.push(String::from_str(ffmpeg_path));
    args.push(String::from_str("--audio-format"));
    args.push(String::from_str("aac"));
    args.push(String::from_str("--audio-quality"));
    args.push(String::from_str("0"));
    args.push(String::from_str("-x"));
    args.push(String::from_str("-o"));
    args.push(String::from_str(output));
    args.push(String::from_str(url));
    assert(texts(args@) =~= transcoder_args(ffmpeg_path@, output@, url@));
    args
}

/// The notice that a track has to be transcoded, addressed to the
/// maintainer.
pub open spec fn transcode_notice(maintainer_uid: Seq<char>) -> Seq<char> {
    "Can't get a playable URL, downloading the track...\n<@"@ + maintainer_uid
        + "> You might want to update `yt-dlp` to the latest version."@
}

/// Writes the notice that a track has to be transcoded.
pub fn transcode_notice_text(maintainer_uid: &str) -> (s: String)
    ensures
        s@ == transcode_notice(maintainer_uid@),
{
    let mut s = String::from_str("Can't get a playable URL, downloading the track...\n<@");
    s.append(maintainer_uid);
    s.append("> You might want to update `yt-dlp` to the latest version.");
    s
}

/// The running report after `count` tracks.
pub open spec fn progress_text(count: nat) -> Seq<char> {
    if count > 1 {
        "Adding `"@ + decimal(count) + "` tracks to the queue..."@
    } else {
        "Adding `"@ + decimal(count) + "` track to the queue..."@
    }
}

/// The closing report after `count` tracks.
pub open spec fn summary_text(count: nat) -> Seq<char> {
    if count == 0 {
        "No track added to the queue!"@
    } else if count == 1 {
        "Added `1` track to the queue!"@
    } else {
        "Added `"@ + decimal(count) + "` tracks to the queue!"@
    }
}

/// Writes the running report.
pub fn progress_message(count: u64) -> (s: String)
    ensures
        s@ == progress_text(count as nat),
{
    let mut s = String::from_str("Adding `");
    s.append(decimal_string(count).as_str());
    if count > 1 {
        s.append("` tracks to the queue...");
    } else {
        s.append("` track to the queue...");
    }
    s
}

/// Writes the closing report.
pub fn summary_message(count: u64) -> (s: String)
    ensures
        s@ == summary_text(count as nat),
{
    if count == 0 {
        String::from_str("No track added to the queue!")
    } else if count == 1 {
        String::from_str("Added `1` track to the queue!")
    } else {
        let mut s = String::from_str("Added `");
        s.append(decimal_string(count).as_str());
        s.append("` tracks to the queue!");
        s
    }
}

/// What a run waits for.
#[derive(Debug)]
pub enum PipelineEvent {
    /// The resolver has described one more track.
    Track(TrackInfo),
    /// The resolver has ended and will describe no more.
    EndOfStream,
    /// The resolver could not be started or waited for.
    ResolverFailed(String),
    /// Everything of the given scope is being cancelled.
    Nuke(GuildChannelID),
}

/// What a run does next.
#[derive(Debug)]
pub enum PipelineAction {
    /// Stream the track from `url`, then enqueue it.
    Stream { track: TrackInfo, url: String },
    /// Have the transcoder write the track to `output`; enqueue it if the
    /// file is there afterwards, else go on with the next event.
    Transcode { track: TrackInfo, output: String },
    /// Show the closing report and stop.
    Report { summary: String },
    /// Show the resolver's failure and stop.
    Fail { error: String },
    /// Kill the resolver and stop.
    Abort,
    /// Nothing.
    Ignore,
}

/// The state of one run of the play command.
#[derive(Debug)]
pub struct Pipeline {
    pub scope: GuildChannelID,
    /// The tracks enqueued so far.
    pub track_count: u64,
    /// The run has stopped; it reacts to nothing any more.
    pub finished: bool,
}

/// The count after one more track; it stays at the largest number.
pub open spec fn counted(count: u64) -> u64 {
    if count < u64::MAX {
        (count + 1) as u64
    } else {
        count
    }
}

impl Pipeline {
    /// Whether `event` stops a run that is still going.
    pub open spec fn stops_on(self, event: PipelineEvent) -> bool {
        match event {
            PipelineEvent::Track(_) => false,
            PipelineEvent::EndOfStream => true,
            PipelineEvent::ResolverFailed(_) => true,
            PipelineEvent::Nuke(target) => target == self.scope,
        }
    }

    /// The state after `event`.
    pub open spec fn after(self, event: PipelineEvent) -> Pipeline {
        Pipeline { finished: self.finished || self.stops_on(event), ..self }
    }

    /// `action` is what the run in state `self` does on `event`.
    pub open spec fn reacts(self, event: PipelineEvent, action: PipelineAction) -> bool {
        if self.finished {
            action is Ignore
        } else {
            match event {
                PipelineEvent::Track(arrived) => match arrived.playable_url() {
                    Some(direct) => action matches PipelineAction::Stream { track, url }
                        && track == arrived && url@ == direct,
                    None => action matches PipelineAction::Transcode { track, output }
                        && track == arrived && output@ == arrived.download_path(
                        self.scope.guild_id,
                    ),
                },
                PipelineEvent::EndOfStream => action matches PipelineAction::Report { summary }
                    && summary@ == summary_text(self.track_count as nat),
                PipelineEvent::ResolverFailed(reason) => action matches PipelineAction::Fail {
                    error,
                } && error == reason,
                PipelineEvent::Nuke(target) => if target == self.scope {
                    action is Abort
                } else {
                    action is Ignore
                },
            }
        }
    }

    /// A run for `scope` that has enqueued nothing yet.
    pub fn new(scope: GuildChannelID) -> (run: Self)
        ensures
            run.scope == scope,
            run.track_count == 0,
            !run.finished,
    {
        Pipeline { scope, track_count: 0, finished: false }
    }

    /// Takes one event and says what to do. A run that has stopped ignores
    /// every event, a cancellation too, and stays as it is.
    pub fn step(&mut self, event: PipelineEvent) -> (action: PipelineAction)
        ensures
            *final(self) == old(self).after(event),
            old(self).reacts(event, action),
            old(self).finished ==> *final(self) == *old(self) && action is Ignore,
    {
        if self.finished {
            return PipelineAction::Ignore;
        }
        match event {
            PipelineEvent::Track(track) => match track.get_playable_url() {
                Some(url) => PipelineAction::Stream { track, url },
                None => {
                    let output = track.get_download_path(self.scope.guild_id);
                    PipelineAction::Transcode { track, output }
                },
            },
            PipelineEvent::EndOfStream => {
                self.finished = true;
                PipelineAction::Report { summary: summary_message(self.track_count) }
            },
            PipelineEvent::ResolverFailed(reason) => {
                self.finished = true;
                PipelineAction::Fail { error: reason }
            },
            PipelineEvent::Nuke(target) => {
                if target == self.scope {
                    self.finished = true;
                    PipelineAction::Abort
                } else {
                    PipelineAction::Ignore
                }
            },
        }
    }

    /// Enqueues a track whose audio source is ready: it goes to the end of
    /// the scope's playlist and is counted, and the answer is the running
    /// report to show. A run that has stopped enqueues nothing, and neither
    /// is a track enqueued whose identifier is already owned: the answer is
    /// then `None`, and the run and the tables stay as they are.
    pub fn enqueue(&mut self, data: &mut PlayerData, track: TrackInfo) -> (report: Option<String>)
        requires
            old(data).wf(),
        ensures
            final(data).wf(),
            final(self).scope == old(self).scope,
            final(self).finished == old(self).finished,
            report.is_some() == (!old(self).finished && !old(data)@.owners.contains_key(track.id)),
            match report {
                Some(text) => {
                    &&& final(data)@ == old(data)@.appended(old(self).scope, track)
                    &&& final(self).track_count == counted(old(self).track_count)
                    &&& text@ == progress_text(final(self).track_count as nat)
                },
                None => final(data)@ == old(data)@ && *final(self) == *old(self),
            },
    {
        if self.finished {
            return None;
        }
        if !data.append_track(self.scope, track) {
            return None;
        }
        if self.track_count < u64::MAX {
            self.track_count = self.track_count + 1;
        }
        Some(progress_message(self.track_count))
    }
}

/// A run that has stopped ignores whatever event comes and stays as it is.
pub proof fn lemma_stopped_run_is_inert(run: Pipeline, event: PipelineEvent, action: PipelineAction)
    requires
        run.finished,
        run.reacts(event, action),
    ensures
        run.after(event) == run,
        action is Ignore,
{
}

/// A cancellation that comes after the resolver's end has no effect: the
/// run is where the end left it, and it does nothing.
pub proof fn lemma_cancellation_after_end_is_ignored(
    run: Pipeline,
    target: GuildChannelID,
    action: PipelineAction,
)
    requires
        run.after(PipelineEvent::EndOfStream).reacts(PipelineEvent::Nuke(target), action),
    ensures
        run.after(PipelineEvent::EndOfStream).after(PipelineEvent::Nuke(target)) == run.after(
            PipelineEvent::EndOfStream,
        ),
        action is Ignore,
{
}

/// Every event but the arrival of a track stops a run, except a
/// cancellation that is meant for another scope.
pub proof fn lemma_run_stops(run: Pipeline, event: PipelineEvent)
    requires
        !run.finished,
    ensures
        run.after(event).finished <==> !(event is Track) && !(event matches PipelineEvent::Nuke(
            target,
        ) && target != run.scope),
        run.after(event).scope == run.scope,
        run.after(event).track_count == run.track_count,
{
}

} // verus!
