//! The decisions of the decode pipeline. Opening, probing and decoding are
//! the caller's; it describes what it found as plain values, and these
//! functions say whether the stream can be played, how to seek to the start
//! offset, and what to do after each step of the decode loop.
use vstd::prelude::*;

verus! {

/// A time base: one tick lasts `numer / denom` seconds.
#[derive(Clone, Copy, Debug, PartialEq, Eq, Structural)]
pub struct TimeBase {
    pub numer: u32,
    pub denom: u32,
}

/// What a total duration is computed from: a frame count in a time base.
#[derive(Clone, Copy, Debug, PartialEq, Eq, Structural)]
pub struct FrameSpan {
    pub n_frames: u64,
    pub time_base: TimeBase,
}

/// What the probe found about a file's default track.
#[derive(Clone, Copy, Debug, PartialEq, Eq, Structural)]
pub struct StreamParams {
    pub has_default_track: bool,
    pub codec_is_null: bool,
    pub sample_rate: Option<u32>,
    pub channels: Option<u16>,
    pub n_frames: Option<u64>,
    pub time_base: Option<TimeBase>,
}

/// Why a stream cannot be played; opening fails with no fallback.
#[derive(Clone, Copy, Debug, PartialEq, Eq, Structural)]
pub enum OpenError {
    NoDefaultTrack,
    UnsupportedCodec,
    MissingSampleRate,
    MissingChannels,
}

/// How to reach the start offset before the first sample.
#[derive(Clone, Copy, Debug, PartialEq, Eq, Structural)]
pub enum SeekKind {
    /// A container timestamp computed with the track's time base.
    ToTimestamp,
    /// A wall-clock time, converted by the container.
    ToTime,
}

/// How to play a stream.
#[derive(Clone, Copy, Debug, PartialEq, Eq, Structural)]
pub struct StreamPlan {
    pub sample_rate: u32,
    pub channels: u16,
    /// The seek to perform before the first sample, if any.
    pub seek: Option<SeekKind>,
    /// The frame count and time base that give the total duration, when the
    /// container exposes both; otherwise the duration is unknown and the
    /// stream is treated as unbounded.
    pub duration_from: Option<FrameSpan>,
}

/// Checks what the probe found and plans playback from `start_ms`.
pub fn plan_stream(p: StreamParams, start_ms: u64) -> (r: Result<StreamPlan, OpenError>)
    ensures
        !p.has_default_track ==> r == Err::<StreamPlan, OpenError>(OpenError::NoDefaultTrack),
        p.has_default_track && p.codec_is_null ==> r == Err::<StreamPlan, OpenError>(
            OpenError::UnsupportedCodec,
        ),
        p.has_default_track && !p.codec_is_null && p.sample_rate is None ==> r == Err::<
            StreamPlan,
            OpenError,
        >(OpenError::MissingSampleRate),
        p.has_default_track && !p.codec_is_null && p.sample_rate is Some && p.channels is None ==> r
            == Err::<StreamPlan, OpenError>(OpenError::MissingChannels),
        p.has_default_track && !p.codec_is_null && p.sample_rate is Some && p.channels is Some ==> r
            == Ok::<StreamPlan, OpenError>(
            StreamPlan {
                sample_rate: p.sample_rate.unwrap(),
                channels: p.channels.unwrap(),
                seek: if start_ms == 0 {
                    None
                } else if p.time_base is Some {
                    Some(SeekKind::ToTimestamp)
                } else {
                    Some(SeekKind::ToTime)
                },
                duration_from: match (p.n_frames, p.time_base) {
                    (Some(n), Some(tb)) => Some(FrameSpan { n_frames: n, time_base: tb }),
                    _ => None,
                },
            },
        ),
{
    if !p.has_default_track {
        return Err(OpenError::NoDefaultTrack);
    }
    if p.codec_is_null {
        return Err(OpenError::UnsupportedCodec);
    }
    let sample_rate = match p.sample_rate {
        Some(s) => s,
        None => return Err(OpenError::MissingSampleRate),
    };
    let channels = match p.channels {
        Some(c) => c,
        None => return Err(OpenError::MissingChannels),
    };
    let seek = if start_ms == 0 {
        None
    } else if p.time_base.is_some() {
        Some(SeekKind::ToTimestamp)
    } else {
        Some(SeekKind::ToTime)
    };
    let duration_from = match (p.n_frames, p.time_base) {
        (Some(n), Some(tb)) => Some(FrameSpan { n_frames: n, time_base: tb }),
        _ => None,
    };
    Ok(StreamPlan { sample_rate, channels, seek, duration_from })
}

/// What the last step of the decode loop produced.
#[derive(Clone, Copy, Debug, PartialEq, Eq, Structural)]
pub enum DecodeEvent {
    /// A packet was read, belonging to track `track_id`.
    Packet { track_id: u32 },
    /// A packet was decoded into `frames` frames.
    Decoded { frames: u64 },
    /// The codec asked to be reset.
    ResetRequired,
    /// Reading or decoding failed otherwise, or no packet is left.
    Error,
}

/// What the decode loop does next.
#[derive(Clone, Copy, Debug, PartialEq, Eq, Structural)]
pub enum DecodeAction {
    /// Decode the packet just read.
    Decode,
    /// Drop it and read the next packet.
    Skip,
    /// Hand the decoded samples out.
    Deliver,
    /// Reset the decoder in place and read on.
    ResetDecoder,
    /// End the stream.
    Fail,
}

/// The decode loop's next step for the track `selected`: packets of other
/// tracks and empty chunks are skipped, a reset request resets the decoder,
/// any other error ends the stream.
pub fn next_decode_action(selected: u32, ev: DecodeEvent) -> (r: DecodeAction)
    ensures
        r == match ev {
            DecodeEvent::Packet { track_id } => if track_id == selected {
                DecodeAction::Decode
            } else {
                DecodeAction::Skip
            },
            DecodeEvent::Decoded { frames } => if frames == 0 {
                DecodeAction::Skip
            } else {
                DecodeAction::Deliver
            },
            DecodeEvent::ResetRequired => DecodeAction::ResetDecoder,
            DecodeEvent::Error => DecodeAction::Fail,
        },
{
    match ev {
        DecodeEvent::Packet { track_id } => if track_id == selected {
            DecodeAction::Decode
        } else {
            DecodeAction::Skip
        },
        DecodeEvent::Decoded { frames } => if frames == 0 {
            DecodeAction::Skip
        } else {
            DecodeAction::Deliver
        },
        DecodeEvent::ResetRequired => DecodeAction::ResetDecoder,
        DecodeEvent::Error => DecodeAction::Fail,
    }
}

} // verus!
