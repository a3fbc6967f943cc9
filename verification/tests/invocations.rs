use pot::pipeline::{
    file_download_args, media_cache_path, playlist_fetch_args, stream_download_args,
    transcoder_args,
};
use pot::session::{connected_guard, join_decision, SessionCommandError};
use pot::setup::{required_directories, setup_system, SetupError};

#[test]
fn playlist_fetch_invocation() {
    let args = playlist_fetch_args("https://example.com/list");
    let expected = vec![
        "-j",
        "-f",
        "webm[abr>0]/bestaudio/best",
        "-R",
        "infinite",
        "--yes-playlist",
        "--ignore-config",
        "--no-warnings",
        "https://example.com/list",
        "-o",
        "-",
    ];
    assert_eq!(args, expected);
}

#[test]
fn stream_download_invocation() {
    let args = stream_download_args("https://example.com/a");
    let expected = vec![
        "--print-json",
        "-f",
        "webm[abr>0]/bestaudio/best",
        "-R",
        "infinite",
        "--no-playlist",
        "--ignore-config",
        "--no-warnings",
        "https://example.com/a",
        "-o",
        "-",
    ];
    assert_eq!(args, expected);
}

#[test]
fn file_download_invocation() {
    let args = file_download_args("https://example.com/a", "data/cache/media/generic/a");
    assert_eq!(args[5], "--no-playlist");
    assert_eq!(args[8], "https://example.com/a");
    assert_eq!(args[9], "-o");
    assert_eq!(args[10], "data/cache/media/generic/a");
}

#[test]
fn transcoder_invocation() {
    let args = transcoder_args();
    let expected = vec![
        "-i", "-", "-f", "s16le", "-ac", "2", "-ar", "48000", "-acodec", "pcm_f32le", "-",
    ];
    assert_eq!(args, expected);
}

#[test]
fn cache_path_layout() {
    assert_eq!(media_cache_path("youtube", "ID1"), "data/cache/media/youtube/ID1");
}

#[test]
fn required_directory_structure() {
    let dirs = required_directories();
    assert_eq!(dirs, vec!["data", "data/cache", "data/cache/media", "data/cache/meta"]);
}

#[test]
fn setup_succeeds_only_when_every_directory_was_ensured() {
    assert_eq!(setup_system(&vec![true, true, true, true]), Ok(()));
    assert_eq!(
        setup_system(&vec![true, true, false, true]),
        Err(SetupError::DirectoryStructure)
    );
    assert_eq!(setup_system(&vec![true, true, true]), Err(SetupError::DirectoryStructure));
    assert_eq!(setup_system(&Vec::new()), Err(SetupError::DirectoryStructure));
}

#[test]
fn join_is_rejected_without_a_channel_or_twice() {
    assert_eq!(join_decision(true, false), Ok(()));
    assert_eq!(join_decision(false, false), Err(SessionCommandError::NoChannelFound));
    // The missing channel is reported ahead of the duplicate join.
    assert_eq!(join_decision(false, true), Err(SessionCommandError::NoChannelFound));
    assert_eq!(join_decision(true, true), Err(SessionCommandError::AlreadyJoined));
    assert_eq!(
        join_decision(true, true).unwrap_err().message(),
        "Already joined"
    );
}

#[test]
fn leave_and_skip_need_a_connection() {
    assert_eq!(connected_guard(true), Ok(()));
    assert_eq!(connected_guard(false), Err(SessionCommandError::NotInVoiceChannel));
    assert_eq!(
        connected_guard(false).unwrap_err().message(),
        "Not in a voice channel"
    );
}

#[test]
fn setup_error_message() {
    assert_eq!(
        setup_system(&vec![false, true, true, true]).unwrap_err().message(),
        "Checks for directory structure failed"
    );
}
