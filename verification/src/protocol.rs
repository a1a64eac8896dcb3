//! Command protocol: the closed set of operations the playback controller
//! accepts, the replies its queries produce, and the effects the audio sink
//! is asked to perform.
//!
//! Commands are processed in strict arrival order by a single worker that
//! owns the output sink; a query command carries a reply channel on the
//! caller's side, so here a query simply produces a [`Reply`] value.

use vstd::prelude::*;

verus! {

/// Transport state: the single source of truth for whether audio is
/// currently emitting sound. `Empty` means no track is loaded, or the loaded
/// track has finished or been stopped.
#[derive(Clone, Copy, Debug, PartialEq, Eq, Structural)]
pub enum AudioState {
    Playing,
    Paused,
    Empty,
}

/// One operation of the command protocol.
///
/// Instants and positions are in milliseconds; volume levels are in
/// per-mille of full scale (`0` silent, [`VOLUME_FULL`] full).
pub enum AudioCommand {
    /// Query: the current elapsed playing time of the active track.
    GetProgress,
    /// Query: the current transport state.
    GetState,
    /// Query: the active track's total duration.
    GetTrackDuration,
    /// Freeze playback, keeping the session.
    Pause,
    /// Resume paused playback; a no-op when already playing or empty.
    Play,
    /// Stop any current session and play the given file from its start.
    PlaySong(String),
    /// Jump the active track to the given position without changing the
    /// transport state; carries the active track's file so the decoder can
    /// be reopened at the offset.
    SetProgress(u64, String),
    /// Set the output volume; the level is clamped to full scale.
    SetVolume(u32),
    /// Advance past the current track.
    Skip,
}

/// Answer to a query command, sent back to the caller that issued it.
#[derive(Clone, Copy, Debug, PartialEq, Eq, Structural)]
pub enum Reply {
    /// Elapsed playing time of the active track, in ms.
    Progress(u64),
    /// Current transport state.
    State(AudioState),
    /// Total duration of the active track, in ms; [`UNKNOWN_TOTAL_MS`] when
    /// no track is active or the duration is not known.
    TotalDuration(u64),
}

/// What the owner of the real output sink must do next. The processor never
/// touches the device itself: it only decides.
pub enum SinkEffect {
    /// Nothing to do.
    Noop,
    /// Resume the sink (`sink.play()`).
    Play,
    /// Pause the sink, keeping its queued material.
    Pause,
    /// Stop the sink and discard everything queued on it.
    Stop,
    /// Drop the sink's current source and go on with the next queued one.
    SkipOne,
    /// Open a decoder for `path`, skip to `offset_ms`, and append the result
    /// to the sink. The caller reports the outcome back to the processor.
    Open { path: String, offset_ms: u64 },
    /// Apply the (already clamped) volume level to the sink.
    SetVolume(u32),
}

/// Full scale of the volume range, in per-mille.
pub const VOLUME_FULL: u32 = 1000;

/// Sentinel total duration reported when no track is active or the decoder
/// did not expose a duration: one second.
pub const UNKNOWN_TOTAL_MS: u64 = 1000;

/// Clamp a requested volume level to the accepted range.
pub fn clamped_volume(level: u32) -> (v: u32)
    ensures
        v == if level > VOLUME_FULL { VOLUME_FULL } else { level },
        v <= VOLUME_FULL,
{
    if level > VOLUME_FULL {
        VOLUME_FULL
    } else {
        level
    }
}

} // verus!
