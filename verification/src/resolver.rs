//! Metadata resolution: turning a raw user input (URL or free-text search)
//! into a resolution route and canonical [`PlaylistItem`] records.
//!
//! A known-platform watch or playlist URL is recognised by host and query
//! parameter and routed to the platform's metadata API; everything else is
//! routed to the generic external extraction tool. The parsing of the URL
//! string itself is done by the `url` crate behind a trusted wrapper; every
//! decision taken on the parsed parts is verified.

use crate::pot::PlaylistItem;
use vstd::prelude::*;

verus! {

/// Whether the `url` crate accepts `s` as an absolute URL. WHATWG URL
/// parsing is a function of the input string alone.
pub uninterp spec fn url_accepts(s: Seq<char>) -> bool;

/// The host of the URL parsed from `s` (`url::Url::host_str`), if any.
pub uninterp spec fn url_host(s: Seq<char>) -> Option<Seq<char>>;

/// The decoded query pairs of the URL parsed from `s`
/// (`url::Url::query_pairs`), in order of appearance.
pub uninterp spec fn url_query(s: Seq<char>) -> Seq<(Seq<char>, Seq<char>)>;

/// The serialization of the URL parsed from `s` (`url::Url::as_str`): the
/// canonical form that downstream tools are handed.
pub uninterp spec fn url_str(s: Seq<char>) -> Seq<char>;

/// The parts of a parsed URL that resolution decisions read, as plain
/// values: the canonical serialization, the host, and the decoded query
/// pairs in order.
#[derive(Debug, PartialEq, Eq)]
pub struct UrlParts {
    pub serialization: String,
    pub host: Option<String>,
    pub query: Vec<(String, String)>,
}

impl UrlParts {
    /// The parts agree with what URL parsing yields on `s`.
    pub open spec fn wf(self, s: Seq<char>) -> bool {
        &&& self.serialization@ == url_str(s)
        &&& match self.host {
            Some(h) => url_host(s) == Some(h@),
            None => url_host(s) is None,
        }
        &&& self.query@.len() == url_query(s).len()
        &&& forall|i: int|
            0 <= i < self.query@.len() ==> (#[trigger] self.query@[i]).0@ == url_query(s)[i].0
                && self.query@[i].1@ == url_query(s)[i].1
    }
}

/// Relies on `url::Url::parse` and, on the parsed value, `as_str`,
/// `host_str` and `query_pairs`: all deterministic in the input string.
/// Returns `None` exactly when the input is not an absolute URL.
#[verifier::external_body]
fn parse_url(input: &str) -> (r: Option<UrlParts>)
    ensures
        r is Some <==> url_accepts(input@),
        match r {
            Some(parts) => {
                &&& parts.serialization@ == url_str(input@)
                &&& match parts.host {
                    Some(h) => url_host(input@) == Some(h@),
                    None => url_host(input@) is None,
                }
                &&& parts.query@.len() == url_query(input@).len()
                &&& forall|i: int|
                    0 <= i < parts.query@.len() ==> (#[trigger] parts.query@[i]).0@ == url_query(
                        input@,
                    )[i].0 && parts.query@[i].1@ == url_query(input@)[i].1
            },
            None => true,
        },
{
    match url::Url::parse(input) {
        Ok(parsed) => Some(UrlParts {
            serialization: parsed.as_str().to_string(),
            host: parsed.host_str().map(|h| h.to_string()),
            query: parsed.query_pairs().map(|(k, v)| (k.into_owned(), v.into_owned())).collect(),
        }),
        Err(_) => None,
    }
}

/// `suffix` is a suffix of `s`.
pub open spec fn seq_ends_with(s: Seq<char>, suffix: Seq<char>) -> bool {
    s.len() >= suffix.len() && s.subrange(s.len() - suffix.len(), s.len() as int) == suffix
}

/// Relies on `str::ends_with`: whether the pattern matches a suffix of the
/// string slice.
#[verifier::external_body]
fn str_ends_with(s: &str, suffix: &str) -> (r: bool)
    ensures
        r == seq_ends_with(s@, suffix@),
{
    s.ends_with(suffix)
}

/// The value of the first query pair named `key`, if any: the value that a
/// first-occurrence-wins map of the pairs would hold under `key`.
pub open spec fn first_value(query: Seq<(String, String)>, key: Seq<char>) -> Option<Seq<char>>
    decreases query.len(),
{
    if query.len() == 0 {
        None
    } else if query[0].0@ == key {
        Some(query[0].1@)
    } else {
        first_value(query.drop_first(), key)
    }
}

/// Looks up the first query pair named `key` and returns a copy of its
/// value, mirroring a map of the pairs in which the first occurrence of a
/// key wins.
pub fn first_query_value(query: &Vec<(String, String)>, key: &str) -> (r: Option<String>)
    ensures
        match r {
            Some(v) => first_value(query@, key@) == Some(v@),
            None => first_value(query@, key@) is None,
        },
{
    let key_string = String::from_str(key);
    let mut i: usize = 0;
    proof {
        assert(query@.skip(0) =~= query@);
    }
    while i < query.len()
        invariant
            0 <= i <= query@.len(),
            key_string@ == key@,
            first_value(query@.skip(i as int), key@) == first_value(query@, key@),
        decreases query@.len() - i,
    {
        proof {
            assert(query@.skip(i as int).drop_first() =~= query@.skip(i as int + 1));
            assert(query@.skip(i as int)[0] == query@[i as int]);
        }
        if query[i].0 == key_string {
            return Some(query[i].1.clone());
        }
        i = i + 1;
    }
    proof {
        assert(query@.skip(i as int) =~= Seq::<(String, String)>::empty());
    }
    None
}

/// What the known platform's URL patterns say about a parsed URL: a watch
/// link carrying a video id, a playlist link carrying a playlist id (the
/// `list` parameter takes precedence over `v` when both are present), or
/// neither.
#[derive(Debug, PartialEq, Eq)]
pub enum YoutubeUrlType {
    Video(String),
    Playlist(String),
    Other,
}

/// The host belongs to the known media platform.
pub open spec fn is_youtube_host(host: Seq<char>) -> bool {
    seq_ends_with(host, "youtube.com"@) || seq_ends_with(host, "youtu.be"@)
}

/// Classifies a parsed URL against the known platform's patterns:
/// on a platform host, a `list` query parameter makes it a playlist link
/// (taking precedence over `v`), a `v` parameter alone makes it a watch
/// link; anything else is routed to the generic extractor.
pub fn youtube_url_extractor(parts: &UrlParts) -> (r: YoutubeUrlType)
    ensures
        match r {
            YoutubeUrlType::Playlist(id) => {
                &&& parts.host matches Some(h) && is_youtube_host(h@)
                &&& first_value(parts.query@, "list"@) == Some(id@)
            },
            YoutubeUrlType::Video(id) => {
                &&& parts.host matches Some(h) && is_youtube_host(h@)
                &&& first_value(parts.query@, "list"@) is None
                &&& first_value(parts.query@, "v"@) == Some(id@)
            },
            YoutubeUrlType::Other => {
                match parts.host {
                    Some(h) => is_youtube_host(h@) ==> first_value(parts.query@, "list"@) is None
                        && first_value(parts.query@, "v"@) is None,
                    None => true,
                }
            },
        },
{
    match &parts.host {
        Some(host) => {
            if str_ends_with(host.as_str(), "youtube.com") || str_ends_with(
                host.as_str(),
                "youtu.be",
            ) {
                match first_query_value(&parts.query, "list") {
                    Some(playlist_id) => YoutubeUrlType::Playlist(playlist_id),
                    None => match first_query_value(&parts.query, "v") {
                        Some(video_id) => YoutubeUrlType::Video(video_id),
                        None => YoutubeUrlType::Other,
                    },
                }
            } else {
                YoutubeUrlType::Other
            }
        },
        None => YoutubeUrlType::Other,
    }
}

/// A user's play request, tagged by kind: a parsable absolute URL, or
/// free-text to search for.
#[derive(Debug, PartialEq, Eq)]
pub enum PotPlayInputType {
    Url(UrlParts),
    Search(String),
}

impl PotPlayInputType {
    /// Whether this input was tagged as a URL.
    pub fn is_url(&self) -> (r: bool)
        ensures
            r == (self matches PotPlayInputType::Url(_)),
    {
        matches!(*self, Self::Url(_))
    }

    /// Tags a raw input string: a string the URL parser accepts becomes a
    /// [`PotPlayInputType::Url`] carrying its parsed parts, anything else a
    /// [`PotPlayInputType::Search`] carrying the text unchanged.
    pub fn classify(src: String) -> (r: Self)
        ensures
            url_accepts(src@) ==> (r matches PotPlayInputType::Url(parts) && parts.wf(src@)),
            !url_accepts(src@) ==> r == PotPlayInputType::Search(src),
    {
        match parse_url(src.as_str()) {
            Some(parts) => PotPlayInputType::Url(parts),
            None => PotPlayInputType::Search(src),
        }
    }
}

/// Where a play request is resolved, as a closed tagged variant: the known
/// platform's video-lookup API, its playlist-listing API, or the generic
/// external extraction tool against a URL or a search directive.
#[derive(Debug, PartialEq, Eq)]
pub enum ResolveRoute {
    NativeVideo(String),
    NativePlaylist(String),
    GenericUrl(String),
    GenericSearch(String),
}

/// Decides where an input is resolved. A known-platform playlist URL goes
/// to the playlist API with its `list` id (taking precedence over `v`), a
/// known-platform watch URL to the video API with its `v` id, any other URL
/// to the generic extractor under its canonical serialization, and search
/// text to the generic extractor as a search query.
pub fn resolve_route(input: PotPlayInputType) -> (r: ResolveRoute)
    ensures
        match input {
            PotPlayInputType::Url(parts) => match r {
                ResolveRoute::NativePlaylist(id) => {
                    &&& parts.host matches Some(h) && is_youtube_host(h@)
                    &&& first_value(parts.query@, "list"@) == Some(id@)
                },
                ResolveRoute::NativeVideo(id) => {
                    &&& parts.host matches Some(h) && is_youtube_host(h@)
                    &&& first_value(parts.query@, "list"@) is None
                    &&& first_value(parts.query@, "v"@) == Some(id@)
                },
                ResolveRoute::GenericUrl(u) => {
                    &&& u == parts.serialization
                    &&& match parts.host {
                        Some(h) => is_youtube_host(h@) ==> first_value(parts.query@, "list"@)
                            is None && first_value(parts.query@, "v"@) is None,
                        None => true,
                    }
                },
                ResolveRoute::GenericSearch(_) => false,
            },
            PotPlayInputType::Search(text) => r == ResolveRoute::GenericSearch(text),
        },
{
    match input {
        PotPlayInputType::Url(parts) => match youtube_url_extractor(&parts) {
            YoutubeUrlType::Playlist(playlist_id) => ResolveRoute::NativePlaylist(playlist_id),
            YoutubeUrlType::Video(video_id) => ResolveRoute::NativeVideo(video_id),
            YoutubeUrlType::Other => ResolveRoute::GenericUrl(parts.serialization),
        },
        PotPlayInputType::Search(text) => ResolveRoute::GenericSearch(text),
    }
}

/// The fixed watch-URL template of the known platform: every internally
/// stored URL for a platform video is this canonical form.
pub fn watch_url(video_id: &str) -> (r: String)
    ensures
        r@ == "https://www.youtube.com/watch?v="@ + video_id@,
{
    let mut built = String::from_str("https://www.youtube.com/watch?v=");
    built.append(video_id);
    built
}

/// The directive handed to the generic extraction tool for free-text
/// input: search the platform and return exactly the top single match.
pub fn search_directive(query: &str) -> (r: String)
    ensures
        r@ == "ytsearch1:"@ + query@,
{
    let mut built = String::from_str("ytsearch1:");
    built.append(query);
    built
}

/// One entry returned by the platform's metadata API: a resolvable media
/// identifier (absent on deleted or private entries) and a title.
#[derive(Debug, PartialEq, Eq)]
pub struct YoutubeApiItem {
    pub video_id: Option<String>,
    pub title: String,
}

/// The outcome of a platform metadata API call: the listed entries —
/// empty when nothing was found, which is a success — or an unreachable
/// API, which is a resolution error the caller surfaces as a failed add.
#[derive(Debug, PartialEq, Eq)]
pub enum YoutubeLookup {
    Found(Vec<YoutubeApiItem>),
    Unreachable,
}

/// Why resolution failed. A failed resolution surfaces as a failed add
/// and leaves the queue unchanged.
#[derive(Debug, PartialEq, Eq)]
pub enum ResolveError {
    /// The platform metadata API could not be reached.
    ApiUnreachable,
}

impl ResolveError {
    /// A human-readable description of the failure.
    pub fn message(&self) -> (r: String)
        ensures
            match self {
                ResolveError::ApiUnreachable => r@ == "Metadata API unreachable"@,
            },
    {
        match self {
            ResolveError::ApiUnreachable => String::from_str("Metadata API unreachable"),
        }
    }
}

/// The API entries that carry a resolvable media identifier, in order;
/// the rest are dropped.
pub open spec fn kept_entries(items: Seq<YoutubeApiItem>) -> Seq<YoutubeApiItem>
    decreases items.len(),
{
    if items.len() == 0 {
        Seq::<YoutubeApiItem>::empty()
    } else {
        kept_entries(items.drop_last()) + if items.last().video_id is Some {
            seq![items.last()]
        } else {
            Seq::<YoutubeApiItem>::empty()
        }
    }
}

/// `track` is the canonical record of API entry `entry`: same identifier
/// and title, the canonical watch URL, the platform's extractor tag, and
/// no optional metadata (the API does not supply any).
pub open spec fn converted(track: PlaylistItem, entry: YoutubeApiItem) -> bool {
    &&& match entry.video_id {
        Some(vid) => track.id@ == vid@ && track.original_url@ == "https://www.youtube.com/watch?v="@
            + vid@,
        None => false,
    }
    &&& track.title@ == entry.title@
    &&& track.extractor@ == "youtube"@
    &&& track.thumbnail is None
    &&& track.duration is None
    &&& track.playlist_id is None
    &&& track.webpage_url is None
    &&& track.is_live is None
    &&& track.was_live is None
}

/// Turns a platform API lookup into playlist items: one canonical record
/// per listed entry that carries a media identifier, in order; entries
/// without one are dropped, zero kept entries is a success with no items,
/// and an unreachable API is an error for the caller to surface as a
/// failed add.
pub fn youtube_result_to_playlist_items(yt_result: YoutubeLookup) -> (r: Result<
    Vec<PlaylistItem>,
    ResolveError,
>)
    ensures
        match yt_result {
            YoutubeLookup::Found(items) => match r {
                Ok(tracks) => tracks@.len() == kept_entries(items@).len() && (forall|k: int|
                    0 <= k < tracks@.len() ==> converted(
                        #[trigger] tracks@[k],
                        kept_entries(items@)[k],
                    )),
                Err(_) => false,
            },
            YoutubeLookup::Unreachable => r == Result::<Vec<PlaylistItem>, ResolveError>::Err(
                ResolveError::ApiUnreachable,
            ),
        },
{
    match yt_result {
        YoutubeLookup::Found(items) => {
            let mut out: Vec<PlaylistItem> = Vec::new();
            let mut i: usize = 0;
            proof {
                assert(items@.take(0) =~= Seq::<YoutubeApiItem>::empty());
            }
            while i < items.len()
                invariant
                    0 <= i <= items@.len(),
                    out@.len() == kept_entries(items@.take(i as int)).len(),
                    forall|k: int|
                        0 <= k < out@.len() ==> converted(
                            #[trigger] out@[k],
                            kept_entries(items@.take(i as int))[k],
                        ),
                decreases items@.len() - i,
            {
                proof {
                    assert(items@.take(i as int + 1).drop_last() =~= items@.take(i as int));
                    assert(items@.take(i as int + 1).last() == items@[i as int]);
                }
                match &items[i].video_id {
                    Some(vid) => {
                        let track = PlaylistItem {
                            id: vid.clone(),
                            title: items[i].title.clone(),
                            original_url: watch_url(vid.as_str()),
                            extractor: String::from_str("youtube"),
                            thumbnail: None,
                            duration: None,
                            playlist_id: None,
                            webpage_url: None,
                            is_live: None,
                            was_live: None,
                        };
                        out.push(track);
                    },
                    None => {},
                }
                i = i + 1;
            }
            proof {
                assert(items@.take(items@.len() as int) =~= items@);
            }
            Ok(out)
        },
        YoutubeLookup::Unreachable => Err(ResolveError::ApiUnreachable),
    }
}

/// The fields the extraction tool's JSON may carry for one item, each as
/// the plain value `serde_json` reads under that name, absent when the
/// line lacks the field or holds it in another shape.
#[derive(Debug, PartialEq, Eq)]
pub struct TrackFields {
    pub id: Option<String>,
    pub title: Option<String>,
    pub original_url: Option<String>,
    pub extractor: Option<String>,
    pub thumbnail: Option<String>,
    pub duration: Option<u64>,
    pub playlist_id: Option<String>,
    pub webpage_url: Option<String>,
    pub is_live: Option<bool>,
    pub was_live: Option<bool>,
}

/// The fields `serde_json` extracts from one output line: `None` when the
/// line is not valid JSON. JSON parsing and field lookup are functions of
/// the line alone.
pub uninterp spec fn fields_of(line: Seq<char>) -> Option<TrackFields>;

/// Relies on `serde_json::from_str::<Value>` and, on the parsed document,
/// `Value::get` under each field name with `as_str`, `as_u64` or
/// `as_bool`: all deterministic in the line alone. Returns `None` exactly
/// when the line is not valid JSON.
#[verifier::external_body]
fn extract_fields(line: &str) -> (r: Option<TrackFields>)
    ensures
        r == fields_of(line@),
{
    let value = serde_json::from_str::<serde_json::Value>(line).ok()?;
    let text = |key: &str| value.get(key).and_then(|v| v.as_str()).map(String::from);
    Some(TrackFields {
        id: text("id"),
        title: text("title"),
        original_url: text("original_url"),
        extractor: text("extractor"),
        thumbnail: text("thumbnail"),
        duration: value.get("duration").and_then(|v| v.as_u64()),
        playlist_id: text("playlist_id"),
        webpage_url: text("webpage_url"),
        is_live: value.get("is_live").and_then(|v| v.as_bool()),
        was_live: value.get("was_live").and_then(|v| v.as_bool()),
    })
}

/// The record that extracted fields assemble into. The identifier, title,
/// playable URL and extractor tag are required: the record exists exactly
/// when all four are present, and then carries every field as handed in.
pub open spec fn track_from_fields(fields: TrackFields) -> Option<PlaylistItem> {
    match (fields.id, fields.title, fields.original_url, fields.extractor) {
        (Some(id), Some(title), Some(original_url), Some(extractor)) => Some(
            PlaylistItem {
                id,
                title,
                original_url,
                extractor,
                thumbnail: fields.thumbnail,
                duration: fields.duration,
                playlist_id: fields.playlist_id,
                webpage_url: fields.webpage_url,
                is_live: fields.is_live,
                was_live: fields.was_live,
            },
        ),
        _ => None,
    }
}

/// Assembles one playlist item from its extracted fields, exactly as
/// [`track_from_fields`] states it.
pub fn make_track(fields: TrackFields) -> (r: Option<PlaylistItem>)
    ensures
        r == track_from_fields(fields),
{
    let TrackFields {
        id,
        title,
        original_url,
        extractor,
        thumbnail,
        duration,
        playlist_id,
        webpage_url,
        is_live,
        was_live,
    } = fields;
    match (id, title, original_url, extractor) {
        (Some(id), Some(title), Some(original_url), Some(extractor)) => Some(
            PlaylistItem {
                id,
                title,
                original_url,
                extractor,
                thumbnail,
                duration,
                playlist_id,
                webpage_url,
                is_live,
                was_live,
            },
        ),
        _ => None,
    }
}

/// What one extraction-tool output line yields: the record assembled from
/// the fields `serde_json` reads, `None` when the line does not parse or
/// a required field is missing.
pub open spec fn line_track(line: Seq<char>) -> Option<PlaylistItem> {
    match fields_of(line) {
        Some(fields) => track_from_fields(fields),
        None => None,
    }
}

/// Reads one extraction-tool output line into a playlist item, dropping
/// it when the line is not JSON or a required field is missing or of the
/// wrong shape.
pub fn track_from_line(line: &str) -> (r: Option<PlaylistItem>)
    ensures
        r == line_track(line@),
{
    match extract_fields(line) {
        Some(fields) => make_track(fields),
        None => None,
    }
}

/// The segments of `s` between newline characters, in order: one more
/// segment than there are newlines, the empty sequence splitting into one
/// empty segment.
pub open spec fn lines_of(s: Seq<char>) -> Seq<Seq<char>>
    decreases s.len(),
{
    if s.len() == 0 {
        seq![Seq::<char>::empty()]
    } else if s[0] == '\n' {
        seq![Seq::<char>::empty()] + lines_of(s.drop_first())
    } else {
        let rest = lines_of(s.drop_first());
        seq![seq![s[0]] + rest[0]] + rest.drop_first()
    }
}

/// Relies on `str::split` with a `'\n'` pattern: exactly the
/// newline-separated segments of the input, in order, as [`lines_of`]
/// states them.
#[verifier::external_body]
fn split_lines(s: &str) -> (r: Vec<String>)
    ensures
        r@.len() == lines_of(s@).len(),
        forall|i: int| 0 <= i < r@.len() ==> (#[trigger] r@[i])@ == lines_of(s@)[i],
{
    s.split('\n').map(|part| part.to_string()).collect()
}

/// The playlist items of a sequence of output lines: each line's record
/// in line order, lines that yield none contributing nothing.
pub open spec fn tracks_of_lines(lines: Seq<Seq<char>>) -> Seq<PlaylistItem>
    decreases lines.len(),
{
    if lines.len() == 0 {
        Seq::<PlaylistItem>::empty()
    } else {
        tracks_of_lines(lines.drop_last()) + match line_track(lines.last()) {
            Some(track) => seq![track],
            None => Seq::<PlaylistItem>::empty(),
        }
    }
}

/// Parses the extraction tool's output, one JSON object per line, into
/// playlist items: exactly the records of the lines that parse, in line
/// order; lines that fail to parse — or that lack a required field — are
/// silently dropped. Zero items is a success, not an error.
pub fn parse_tool_output(output: &str) -> (r: Vec<PlaylistItem>)
    ensures
        r@ == tracks_of_lines(lines_of(output@)),
{
    let lines = split_lines(output);
    let mut items: Vec<PlaylistItem> = Vec::new();
    let mut i: usize = 0;
    proof {
        assert(lines_of(output@).take(0) =~= Seq::<Seq<char>>::empty());
    }
    while i < lines.len()
        invariant
            0 <= i <= lines@.len(),
            lines@.len() == lines_of(output@).len(),
            forall|j: int| 0 <= j < lines@.len() ==> (#[trigger] lines@[j])@ == lines_of(output@)[j],
            items@ == tracks_of_lines(lines_of(output@).take(i as int)),
        decreases lines@.len() - i,
    {
        proof {
            assert(lines_of(output@).take(i as int + 1).drop_last() =~= lines_of(output@).take(
                i as int,
            ));
            assert(lines_of(output@).take(i as int + 1).last() == lines_of(output@)[i as int]);
        }
        match track_from_line(lines[i].as_str()) {
            Some(track) => items.push(track),
            None => {},
        }
        proof {
            assert(items@ =~= tracks_of_lines(lines_of(output@).take(i as int + 1)));
        }
        i = i + 1;
    }
    proof {
        assert(lines_of(output@).take(lines@.len() as int) =~= lines_of(output@));
    }
    items
}

} // verus!
