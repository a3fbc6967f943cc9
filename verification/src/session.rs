//! Session-command guards: the checks that reject a voice command outright
//! and the exact reply each rejection carries. Whether the caller sits in
//! a voice channel and whether the session is connected are read from the
//! transport outside this crate and handed in as plain facts.

use vstd::prelude::*;

verus! {

/// Why a voice command was rejected.
#[derive(Debug, PartialEq, Eq)]
pub enum SessionCommandError {
    /// The caller is in no voice channel, so there is nothing to join.
    NoChannelFound,
    /// The session is already connected.
    AlreadyJoined,
    /// The session is not connected, so there is nothing to leave or skip.
    NotInVoiceChannel,
}

impl SessionCommandError {
    /// The reply shown to the user for this rejection.
    pub fn message(&self) -> (r: String)
        ensures
            match self {
                SessionCommandError::NoChannelFound => r@ == "No channel found"@,
                SessionCommandError::AlreadyJoined => r@ == "Already joined"@,
                SessionCommandError::NotInVoiceChannel => r@ == "Not in a voice channel"@,
            },
    {
        match self {
            SessionCommandError::NoChannelFound => String::from_str("No channel found"),
            SessionCommandError::AlreadyJoined => String::from_str("Already joined"),
            SessionCommandError::NotInVoiceChannel => String::from_str("Not in a voice channel"),
        }
    }
}

/// Whether a join may proceed: only when the caller sits in a voice
/// channel and the session is not yet connected. The missing channel is
/// reported ahead of a duplicate join.
pub fn join_decision(caller_in_channel: bool, already_connected: bool) -> (r: Result<
    (),
    SessionCommandError,
>)
    ensures
        r is Ok <==> (caller_in_channel && !already_connected),
        !caller_in_channel ==> r == Result::<(), SessionCommandError>::Err(
            SessionCommandError::NoChannelFound,
        ),
        caller_in_channel && already_connected ==> r == Result::<(), SessionCommandError>::Err(
            SessionCommandError::AlreadyJoined,
        ),
{
    if !caller_in_channel {
        Err(SessionCommandError::NoChannelFound)
    } else if already_connected {
        Err(SessionCommandError::AlreadyJoined)
    } else {
        Ok(())
    }
}

/// Whether a leave or skip may proceed: only on a connected session.
pub fn connected_guard(connected: bool) -> (r: Result<(), SessionCommandError>)
    ensures
        r is Ok <==> connected,
        !connected ==> r == Result::<(), SessionCommandError>::Err(
            SessionCommandError::NotInVoiceChannel,
        ),
{
    if connected {
        Ok(())
    } else {
        Err(SessionCommandError::NotInVoiceChannel)
    }
}

} // verus!
