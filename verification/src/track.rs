//! Track descriptors: the variant that is streamed, display texts and the
//! places of transcoded files.

use crate::text::{
    contains_text, decimal, decimal_string, digit_char, text_contains, text_equal,
    two_digit_string, two_digits,
};
use vstd::arithmetic::power::pow;
use vstd::prelude::*;
use vstd::string::*;

verus! {

/// How the player ranks an audio codec.
#[derive(Debug, Clone, Copy, PartialEq, Eq, Structural)]
pub enum CodecClass {
    /// Taken as soon as it is seen.
    Lossless,
    /// Lossy; the highest bitrate among these wins.
    Preferred,
    /// Lossy; used only where nothing better is offered.
    Fallback,
    /// Never streamed directly.
    Unknown,
}

/// The class of a codec, by its name.
pub open spec fn codec_class(codec: Seq<char>) -> CodecClass {
    if codec == "alac"@ || codec == "flac"@ || codec == "pcm"@ {
        CodecClass::Lossless
    } else if codec == "opus"@ || codec == "aac"@ || codec == "vorbis"@ {
        CodecClass::Preferred
    } else if codec == "mp3"@ {
        CodecClass::Fallback
    } else {
        CodecClass::Unknown
    }
}

/// Ranks a codec by its name.
pub fn classify_codec(codec: &str) -> (class: CodecClass)
    ensures
        class == codec_class(codec@),
{
    if text_equal(codec, "alac") || text_equal(codec, "flac") || text_equal(codec, "pcm") {
        CodecClass::Lossless
    } else if text_equal(codec, "opus") || text_equal(codec, "aac") || text_equal(
        codec,
        "vorbis",
    ) {
        CodecClass::Preferred
    } else if text_equal(codec, "mp3") {
        CodecClass::Fallback
    } else {
        CodecClass::Unknown
    }
}

/// One encoded variant of a track, as the resolver offers it.
#[derive(Debug, Clone)]
pub struct Format {
    pub url: String,
    pub codec: Option<String>,
    /// Rank of the declared bitrate: a higher rank is a higher bitrate, and
    /// rank zero stands for a bitrate that is not positive.
    pub bitrate: Option<u32>,
}

impl Format {
    /// The class of this variant's codec; `Unknown` where none is declared.
    pub open spec fn class(&self) -> CodecClass {
        match self.codec {
            Some(c) => codec_class(c@),
            None => CodecClass::Unknown,
        }
    }

    /// The declared bitrate rank; zero where none is declared.
    pub open spec fn rank(&self) -> nat {
        match self.bitrate {
            Some(b) => b as nat,
            None => 0,
        }
    }

    /// Ranks this variant's codec.
    pub fn codec_class(&self) -> (class: CodecClass)
        ensures
            class == self.class(),
    {
        match &self.codec {
            Some(c) => classify_codec(c.as_str()),
            None => CodecClass::Unknown,
        }
    }

    /// The declared bitrate rank, zero where none is declared.
    pub fn bitrate_rank(&self) -> (rank: u32)
        ensures
            rank == self.rank(),
    {
        match self.bitrate {
            Some(b) => b,
            None => 0,
        }
    }
}

/// Variant `i` is lossless and no variant before it is.
pub open spec fn first_lossless(fs: Seq<Format>, i: int) -> bool {
    &&& 0 <= i < fs.len()
    &&& fs[i].class() == CodecClass::Lossless
    &&& forall|j: int| 0 <= j < i ==> (#[trigger] fs[j]).class() != CodecClass::Lossless
}

/// Among the first `k` variants, variant `i` is of class `class` and declares
/// a positive bitrate; none of that class declares a higher one, and none
/// before `i` declares one as high.
pub open spec fn highest_among(fs: Seq<Format>, class: CodecClass, k: int, i: int) -> bool {
    &&& 0 <= i < k <= fs.len()
    &&& fs[i].class() == class
    &&& fs[i].rank() > 0
    &&& forall|j: int|
        0 <= j < k && (#[trigger] fs[j]).class() == class ==> fs[j].rank() <= fs[i].rank()
    &&& forall|j: int|
        0 <= j < i && (#[trigger] fs[j]).class() == class ==> fs[j].rank() < fs[i].rank()
}

/// Some variant is lossless.
pub open spec fn has_lossless(fs: Seq<Format>) -> bool {
    exists|j: int| 0 <= j < fs.len() && (#[trigger] fs[j]).class() == CodecClass::Lossless
}

/// Some variant of class `class` declares a positive bitrate.
pub open spec fn has_candidate(fs: Seq<Format>, class: CodecClass) -> bool {
    exists|j: int| 0 <= j < fs.len() && (#[trigger] fs[j]).class() == class && fs[j].rank() > 0
}

/// Variant `i` is the one to stream: the first lossless variant if there is
/// one; else the preferred lossy variant with the highest bitrate; else the
/// fallback variant with the highest bitrate. Among equal bitrates the
/// earliest stands.
pub open spec fn is_selected(fs: Seq<Format>, i: int) -> bool {
    if has_lossless(fs) {
        first_lossless(fs, i)
    } else if has_candidate(fs, CodecClass::Preferred) {
        highest_among(fs, CodecClass::Preferred, fs.len() as int, i)
    } else {
        highest_among(fs, CodecClass::Fallback, fs.len() as int, i)
    }
}

/// At most one variant is the one to stream.
pub proof fn lemma_selected_unique(fs: Seq<Format>, i: int, j: int)
    requires
        is_selected(fs, i),
        is_selected(fs, j),
    ensures
        i == j,
{
    if i < j {
        assert(fs[i].rank() >= 0);
    } else if j < i {
        assert(fs[j].rank() >= 0);
    }
}

/// What a scan of the first `k` variants knows of class `class`: the best so
/// far and its rank, or that none declares a positive bitrate.
pub open spec fn scan_holds(
    fs: Seq<Format>,
    class: CodecClass,
    k: int,
    best: Option<usize>,
    best_rank: u32,
) -> bool {
    match best {
        Some(i) => highest_among(fs, class, k, i as int) && best_rank == fs[i as int].rank(),
        None => best_rank == 0 && forall|j: int|
            0 <= j < k && (#[trigger] fs[j]).class() == class ==> fs[j].rank() == 0,
    }
}

/// Picks the variant to stream, by its index.
pub fn select_format(formats: &Vec<Format>) -> (res: Option<usize>)
    ensures
        match res {
            Some(i) => is_selected(formats@, i as int),
            None => forall|i: int| !is_selected(formats@, i),
        },
{
    let mut best: Option<usize> = None;
    let mut best_rank: u32 = 0;
    let mut fallback: Option<usize> = None;
    let mut fallback_rank: u32 = 0;
    let mut k: usize = 0;
    while k < formats.len()
        invariant
            k <= formats.len(),
            forall|j: int| 0 <= j < k ==> (#[trigger] formats@[j]).class() != CodecClass::Lossless,
            scan_holds(formats@, CodecClass::Preferred, k as int, best, best_rank),
            scan_holds(formats@, CodecClass::Fallback, k as int, fallback, fallback_rank),
        decreases formats.len() - k,
    {
        let class = formats[k].codec_class();
        let rank: u32 = formats[k].bitrate_rank();
        match class {
            CodecClass::Lossless => {
                return Some(k);
            },
            CodecClass::Preferred => {
                if rank > best_rank {
                    best = Some(k);
                    best_rank = rank;
                }
            },
            CodecClass::Fallback => {
                if rank > fallback_rank {
                    fallback = Some(k);
                    fallback_rank = rank;
                }
            },
            CodecClass::Unknown => {},
        }
        k += 1;
    }
    if best.is_some() {
        best
    } else {
        fallback
    }
}

/// The character that writes the hexadecimal digit `d`, in lower case.
pub open spec fn hex_char(d: nat) -> char {
    if d < 10 {
        digit_char(d)
    } else if d == 10 {
        'a'
    } else if d == 11 {
        'b'
    } else if d == 12 {
        'c'
    } else if d == 13 {
        'd'
    } else if d == 14 {
        'e'
    } else {
        'f'
    }
}

/// The hexadecimal digit of `id` at place `k` of its thirty-two, counted
/// from the most significant.
pub open spec fn hex_digit_at(id: u128, k: int) -> nat {
    ((id as int / pow(16, (31 - k) as nat)) % 16) as nat
}

/// The number of hyphens that stand before place `p` of an identifier's text.
pub open spec fn hyphens_before(p: int) -> int {
    if p < 8 {
        0
    } else if p < 13 {
        1
    } else if p < 18 {
        2
    } else if p < 23 {
        3
    } else {
        4
    }
}

/// The text of a track identifier: its thirty-two hexadecimal digits in lower
/// case, most significant first, in groups of 8, 4, 4, 4 and 12 with a
/// hyphen between two groups.
pub open spec fn id_text(id: u128) -> Seq<char> {
    Seq::new(
        36,
        |p: int|
            if p == 8 || p == 13 || p == 18 || p == 23 {
                '-'
            } else {
                hex_char(hex_digit_at(id, p - hyphens_before(p)))
            },
    )
}

/// An identifier carries the marks of a randomly drawn one: version four in
/// bits 76 to 79 and the variant `10` in bits 62 and 63.
pub open spec fn is_random_id(id: u128) -> bool {
    id & 0xF000_C000_0000_0000_0000u128 == 0x4000_8000_0000_0000_0000u128
}

/// Draws a track identifier with `uuid::Uuid::new_v4` and hands it out as a
/// number (`Uuid::as_u128`). The value is random; every outcome carries the
/// version and variant marks that `new_v4` sets.
#[verifier::external_body]
fn fresh_id() -> (id: u128)
    ensures
        is_random_id(id),
{
    uuid::Uuid::new_v4().as_u128()
}

/// Writes a track identifier as `uuid::Uuid` displays it: `Uuid::from_u128`
/// followed by `to_string`, which gives the hyphenated lower-case form.
#[verifier::external_body]
fn id_string(id: u128) -> (s: String)
    ensures
        s@ == id_text(id),
{
    uuid::Uuid::from_u128(id).to_string()
}

/// What is left of `text` when every match of the regular expression
/// `pattern` is taken out of it; `None` where `pattern` is not a regular
/// expression that the `regex` crate accepts.
pub uninterp spec fn without_matches(pattern: Seq<char>, text: Seq<char>) -> Option<Seq<char>>;

/// Compiles `pattern` with `regex::Regex::new` and replaces every match in
/// `text` by the empty string with `Regex::replace_all`. The result is
/// `None` where the pattern does not compile.
#[verifier::external_body]
fn remove_matches(pattern: &str, text: &str) -> (res: Option<String>)
    ensures
        match res {
            Some(s) => without_matches(pattern@, text@) == Some(s@),
            None => without_matches(pattern@, text@).is_none(),
        },
{
    match regex::Regex::new(pattern) {
        Ok(re) => Some(re.replace_all(text, "").into_owned()),
        Err(_) => None,
    }
}

/// The pattern of the tags that are taken out of a title, such as
/// ` (official video)` or ` | lyrics video`.
pub open spec fn title_tags() -> Seq<char> {
    r"(?im) (\(|\[|\| )( ?(official|mv|audio|video|music|lyrics|lyric) ?)+(\)|\]|)?"@
}

/// The title to show, given what the removal of the tags gave: the cleaned
/// text, or the title as it is where the removal did not work.
pub open spec fn shown_title(cleaned: Option<Seq<char>>, title: Seq<char>) -> Seq<char> {
    match cleaned {
        Some(c) => c,
        None => title,
    }
}

/// Chooses between the cleaned title and the title as it is.
pub fn choose_title(cleaned: Option<String>, title: &str) -> (res: String)
    ensures
        res@ == shown_title(
            match cleaned {
                Some(c) => Some(c@),
                None => None,
            },
            title@,
        ),
{
    match cleaned {
        Some(c) => c,
        None => String::from_str(title),
    }
}

/// A duration as `HH:MM:SS`; the hours take more digits where they need
/// them.
pub open spec fn clock(secs: nat) -> Seq<char> {
    two_digits(secs / 3600) + ":"@ + two_digits((secs % 3600) / 60) + ":"@ + two_digits(secs % 60)
}

/// Writes a duration as `HH:MM:SS`.
pub fn clock_string(secs: u64) -> (s: String)
    ensures
        s@ == clock(secs as nat),
{
    let mut s = two_digit_string(secs / 3600);
    s.append(":");
    s.append(two_digit_string((secs % 3600) / 60).as_str());
    s.append(":");
    s.append(two_digit_string(secs % 60).as_str());
    s
}

/// The directory that holds the transcoded files of a guild.
pub open spec fn download_dir(guild_id: u64) -> Seq<char> {
    "/tmp/taxer/"@ + decimal(guild_id as nat)
}

/// Writes the directory that holds the transcoded files of a guild.
pub fn download_dir_string(guild_id: u64) -> (s: String)
    ensures
        s@ == download_dir(guild_id),
{
    let mut s = String::from_str("/tmp/taxer/");
    s.append(decimal_string(guild_id).as_str());
    s
}

/// `i` is the first place in `names` whose name holds `needle`.
pub open spec fn first_holding(names: Seq<String>, needle: Seq<char>, i: int) -> bool {
    &&& 0 <= i < names.len()
    &&& contains_text(names[i]@, needle)
    &&& forall|j: int| 0 <= j < i ==> !contains_text((#[trigger] names[j])@, needle)
}

/// Finds the first name that holds `needle`.
pub fn find_holding(names: &Vec<String>, needle: &str) -> (res: Option<usize>)
    ensures
        match res {
            Some(i) => first_holding(names@, needle@, i as int),
            None => forall|i: int|
                0 <= i < names@.len() ==> !contains_text((#[trigger] names@[i])@, needle@),
        },
{
    let mut k: usize = 0;
    while k < names.len()
        invariant
            k <= names.len(),
            forall|j: int| 0 <= j < k ==> !contains_text((#[trigger] names@[j])@, needle@),
        decreases names.len() - k,
    {
        if text_contains(names[k].as_str(), needle) {
            return Some(k);
        }
        k += 1;
    }
    None
}

/// What a message shows of one track.
#[derive(Debug, Clone)]
pub struct TrackEmbed {
    /// The heading, such as `Now playing`.
    pub author: String,
    pub title: String,
    pub description: String,
    pub url: String,
    pub thumbnail: Option<String>,
}

/// One resolved media item.
#[derive(Debug, Clone)]
pub struct TrackInfo {
    /// Given by the player, not by the resolver.
    pub id: u128,
    pub url: String,
    pub formats: Option<Vec<Format>>,
    pub duration_in_sec: u64,
    pub title: String,
    pub thumbnail: Option<String>,
    pub artist: Option<String>,
    pub uploader: Option<String>,
}

impl Default for TrackInfo {
    /// An empty descriptor under a newly drawn identifier.
    fn default() -> (track: Self)
        ensures
            is_random_id(track.id),
            track.url@.len() == 0,
            track.formats.is_none(),
            track.duration_in_sec == 0,
            track.title@.len() == 0,
            track.thumbnail.is_none(),
            track.artist.is_none(),
            track.uploader.is_none(),
    {
        TrackInfo {
            id: fresh_id(),
            url: String::new(),
            formats: None,
            duration_in_sec: 0,
            title: String::new(),
            thumbnail: None,
            artist: None,
            uploader: None,
        }
    }
}

impl TrackInfo {
    /// The same descriptor under a newly drawn identifier.
    pub fn with_fresh_id(self) -> (track: Self)
        ensures
            is_random_id(track.id),
            track == (TrackInfo { id: track.id, ..self }),
    {
        let mut track = self;
        track.id = fresh_id();
        track
    }

    /// The title with its tags taken out.
    pub open spec fn clean_title(&self) -> Seq<char> {
        shown_title(without_matches(title_tags(), self.title@), self.title@)
    }

    /// Get a cleaned up title.
    pub fn get_title(&self) -> (res: String)
        ensures
            res@ == self.clean_title(),
    {
        let cleaned = remove_matches(
            r"(?im) (\(|\[|\| )( ?(official|mv|audio|video|music|lyrics|lyric) ?)+(\)|\]|)?",
            self.title.as_str(),
        );
        choose_title(cleaned, self.title.as_str())
    }

    /// The artist; else the uploader; else `Unknown`.
    pub open spec fn author(&self) -> Seq<char> {
        match self.artist {
            Some(a) => a@,
            None => match self.uploader {
                Some(u) => u@,
                None => "Unknown"@,
            },
        }
    }

    /// The author and the duration, as shown under a title.
    pub open spec fn pretty_description(&self) -> Seq<char> {
        self.author() + " | "@ + clock(self.duration_in_sec as nat)
    }

    /// Get description for a message embed.
    pub fn get_pretty_description(&self) -> (res: String)
        ensures
            res@ == self.pretty_description(),
    {
        let mut out = match &self.artist {
            Some(a) => a.clone(),
            None => match &self.uploader {
                Some(u) => u.clone(),
                None => String::from_str("Unknown"),
            },
        };
        out.append(" | ");
        out.append(clock_string(self.duration_in_sec).as_str());
        out
    }

    /// The address of the variant to stream, where the track offers one.
    pub open spec fn playable_url(&self) -> Option<Seq<char>> {
        match self.formats {
            None => None,
            Some(fs) => if exists|i: int| is_selected(fs@, i) {
                Some(fs@[choose|i: int| is_selected(fs@, i)].url@)
            } else {
                None
            },
        }
    }

    /// Get playable direct URL of the track from its variants.
    /// If the track is not available in any of them, return `None`.
    pub fn get_playable_url(&self) -> (res: Option<String>)
        ensures
            match res {
                Some(url) => self.playable_url() == Some(url@),
                None => self.playable_url().is_none(),
            },
    {
        match &self.formats {
            None => None,
            Some(fs) => match select_format(fs) {
                Some(i) => {
                    proof {
                        lemma_selected_unique(
                            fs@,
                            i as int,
                            choose|j: int| is_selected(fs@, j),
                        );
                    }
                    Some(fs[i].url.clone())
                },
                None => None,
            },
        }
    }

    /// What a message shows of this track under the heading `heading`.
    pub fn embed(&self, heading: &str) -> (card: TrackEmbed)
        ensures
            card.author@ == heading@,
            card.title@ == self.clean_title(),
            card.description@ == self.pretty_description(),
            card.url@ == self.url@,
            card.thumbnail == self.thumbnail,
    {
        TrackEmbed {
            author: String::from_str(heading),
            title: self.get_title(),
            description: self.get_pretty_description(),
            url: self.url.clone(),
            thumbnail: match &self.thumbnail {
                Some(t) => Some(t.clone()),
                None => None,
            },
        }
    }

    /// Where the transcoder writes this track for a guild.
    pub open spec fn download_path(&self, guild_id: u64) -> Seq<char> {
        download_dir(guild_id) + "/"@ + id_text(self.id)
    }

    /// Get the output path for the transcoder to download the track.
    pub fn get_download_path(&self, guild_id: u64) -> (res: String)
        ensures
            res@ == self.download_path(guild_id),
    {
        let mut out = download_dir_string(guild_id);
        out.append("/");
        out.append(id_string(self.id).as_str());
        out
    }

    /// Get the input path for the voice call to play the track, given the
    /// names of the files in the guild's directory, or `None` where the
    /// directory cannot be read. The file is the first whose name holds the
    /// track's identifier.
    pub fn get_input_path(&self, guild_id: u64, listing: Option<&Vec<String>>) -> (res: Result<
        String,
        String,
    >)
        ensures
            match listing {
                None => res.is_err() && res->Err_0@ == "TrackInfo::get_input_path: can't read "@
                    + download_dir(guild_id),
                Some(names) => match res {
                    Ok(path) => exists|i: int|
                        first_holding(names@, id_text(self.id), i) && path@ == download_dir(
                            guild_id,
                        ) + "/"@ + names@[i]@,
                    Err(e) => e@ == "TrackInfo::get_input_path: the track file doesn't exist: "@
                        + id_text(self.id) && forall|i: int|
                        0 <= i < names@.len() ==> !contains_text(
                            (#[trigger] names@[i])@,
                            id_text(self.id),
                        ),
                },
            },
    {
        match listing {
            None => {
                let mut e = String::from_str("TrackInfo::get_input_path: can't read ");
                e.append(download_dir_string(guild_id).as_str());
                Err(e)
            },
            Some(names) => {
                let needle = id_string(self.id);
                match find_holding(names, needle.as_str()) {
                    Some(k) => {
                        let mut path = download_dir_string(guild_id);
                        path.append("/");
                        path.append(names[k].as_str());
                        assert(first_holding(names@, id_text(self.id), k as int) && path@
                            == download_dir(guild_id) + "/"@ + names@[k as int]@);
                        Ok(path)
                    },
                    None => {
                        let mut e = String::from_str(
                            "TrackInfo::get_input_path: the track file doesn't exist: ",
                        );
                        e.append(needle.as_str());
                        Err(e)
                    },
                }
            },
        }
    }
}

} // verus!
