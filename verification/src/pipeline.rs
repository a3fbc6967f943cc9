//! The exact invocations of the stream acquisition pipeline's two external
//! tools: the downloader (audio-preferring format, unlimited retry,
//! streaming or to-file output) and the transcoder (arbitrary input to raw
//! 48 kHz stereo PCM on standard output), plus the media cache layout.
//!
//! Spawning the processes and wiring their pipes is I/O and lives outside
//! this crate; every flag handed to them is pinned here.

use vstd::prelude::*;

verus! {

/// The downloader invocation that expands a playlist URL and prints one
/// JSON metadata object per item to standard output, retrying transient
/// network failures without limit.
pub fn playlist_fetch_args(url: &str) -> (r: Vec<String>)
    ensures
        r@.len() == 11,
        r@[0]@ == "-j"@,
        r@[1]@ == "-f"@,
        r@[2]@ == "webm[abr>0]/bestaudio/best"@,
        r@[3]@ == "-R"@,
        r@[4]@ == "infinite"@,
        r@[5]@ == "--yes-playlist"@,
        r@[6]@ == "--ignore-config"@,
        r@[7]@ == "--no-warnings"@,
        r@[8]@ == url@,
        r@[9]@ == "-o"@,
        r@[10]@ == "-"@,
{
    let mut args: Vec<String> = Vec::new();
    args.push(("-j").to_owned());
    args.push(("-f").to_owned());
    args.push(("webm[abr>0]/bestaudio/best").to_owned());
    args.push(("-R").to_owned());
    args.push(("infinite").to_owned());
    args.push(("--yes-playlist").to_owned());
    args.push(("--ignore-config").to_owned());
    args.push(("--no-warnings").to_owned());
    args.push(url.to_owned());
    args.push(("-o").to_owned());
    args.push(("-").to_owned());
    args
}

/// The downloader invocation that streams one single item's raw media
/// bytes to standard output (playlist expansion disabled), printing its
/// JSON metadata and retrying transient network failures without limit.
pub fn stream_download_args(url: &str) -> (r: Vec<String>)
    ensures
        r@.len() == 11,
        r@[0]@ == "--print-json"@,
        r@[1]@ == "-f"@,
        r@[2]@ == "webm[abr>0]/bestaudio/best"@,
        r@[3]@ == "-R"@,
        r@[4]@ == "infinite"@,
        r@[5]@ == "--no-playlist"@,
        r@[6]@ == "--ignore-config"@,
        r@[7]@ == "--no-warnings"@,
        r@[8]@ == url@,
        r@[9]@ == "-o"@,
        r@[10]@ == "-"@,
{
    let mut args: Vec<String> = Vec::new();
    args.push(("--print-json").to_owned());
    args.push(("-f").to_owned());
    args.push(("webm[abr>0]/bestaudio/best").to_owned());
    args.push(("-R").to_owned());
    args.push(("infinite").to_owned());
    args.push(("--no-playlist").to_owned());
    args.push(("--ignore-config").to_owned());
    args.push(("--no-warnings").to_owned());
    args.push(url.to_owned());
    args.push(("-o").to_owned());
    args.push(("-").to_owned());
    args
}

/// The downloader invocation that saves one single item to `path` instead
/// of streaming; otherwise as [`stream_download_args`].
pub fn file_download_args(url: &str, path: &str) -> (r: Vec<String>)
    ensures
        r@.len() == 11,
        r@[0]@ == "--print-json"@,
        r@[1]@ == "-f"@,
        r@[2]@ == "webm[abr>0]/bestaudio/best"@,
        r@[3]@ == "-R"@,
        r@[4]@ == "infinite"@,
        r@[5]@ == "--no-playlist"@,
        r@[6]@ == "--ignore-config"@,
        r@[7]@ == "--no-warnings"@,
        r@[8]@ == url@,
        r@[9]@ == "-o"@,
        r@[10]@ == path@,
{
    let mut args: Vec<String> = Vec::new();
    args.push(("--print-json").to_owned());
    args.push(("-f").to_owned());
    args.push(("webm[abr>0]/bestaudio/best").to_owned());
    args.push(("-R").to_owned());
    args.push(("infinite").to_owned());
    args.push(("--no-playlist").to_owned());
    args.push(("--ignore-config").to_owned());
    args.push(("--no-warnings").to_owned());
    args.push(url.to_owned());
    args.push(("-o").to_owned());
    args.push(path.to_owned());
    args
}

/// The transcoder invocation: read arbitrary media from standard input
/// (`-i -`) and write raw float PCM, two channels at 48000 Hz, to
/// standard output.
pub fn transcoder_args() -> (r: Vec<String>)
    ensures
        r@.len() == 11,
        r@[0]@ == "-i"@,
        r@[1]@ == "-"@,
        r@[2]@ == "-f"@,
        r@[3]@ == "s16le"@,
        r@[4]@ == "-ac"@,
        r@[5]@ == "2"@,
        r@[6]@ == "-ar"@,
        r@[7]@ == "48000"@,
        r@[8]@ == "-acodec"@,
        r@[9]@ == "pcm_f32le"@,
        r@[10]@ == "-"@,
{
    let mut args: Vec<String> = Vec::new();
    args.push(("-i").to_owned());
    args.push(("-").to_owned());
    args.push(("-f").to_owned());
    args.push(("s16le").to_owned());
    args.push(("-ac").to_owned());
    args.push(("2").to_owned());
    args.push(("-ar").to_owned());
    args.push(("48000").to_owned());
    args.push(("-acodec").to_owned());
    args.push(("pcm_f32le").to_owned());
    args.push(("-").to_owned());
    args
}

/// Where a downloaded item is cached on disk, keyed by the extractor tag
/// and the item's identifier.
pub fn media_cache_path(extractor: &str, id: &str) -> (r: String)
    ensures
        r@ == "data/cache/media/"@ + extractor@ + "/"@ + id@,
{
    let mut path = String::from_str("data/cache/media/");
    path.append(extractor);
    path.append("/");
    path.append(id);
    path
}

} // verus!
