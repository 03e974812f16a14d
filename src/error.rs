//! Error kinds of the decode and transcription paths.

use vstd::prelude::*;

verus! {

/// Why a decode or transcription request failed.
#[derive(Debug, Clone, Copy, PartialEq, Eq, Structural)]
pub enum DecodeError {
    /// No usable format signal was found.
    FormatUnrecognized,
    /// The magic bytes matched but no packets could be extracted.
    ContainerMalformed,
    /// Every packet of the stream failed, forward error correction included.
    CodecDecodeFailed,
    /// The caller supplied no packets at all.
    NoPackets,
    /// MP4/AAC could not be decoded; another browser should be used.
    Mp4AacUnsupported,
    /// No pooled resource could be had (bookkeeping only; never surfaced).
    PoolResourceUnavailable,
    /// A blocking transcription wait exceeded its deadline.
    TranscribeTimeout,
    /// No transcription model is loaded for any quality tier.
    ModelUnavailable,
}

/// User-facing message of each error kind.
pub open spec fn message_of(e: DecodeError) -> Seq<char> {
    match e {
        DecodeError::FormatUnrecognized => "unrecognised audio format; use WebM/Opus, Ogg/Opus or WAV"@,
        DecodeError::ContainerMalformed => "container recognised but no audio packets found"@,
        DecodeError::CodecDecodeFailed => "no audio data decoded"@,
        DecodeError::NoPackets => "empty packet list"@,
        DecodeError::Mp4AacUnsupported => "MP4/AAC decoding is not supported yet; try Chrome or Firefox"@,
        DecodeError::PoolResourceUnavailable => "no decoder available"@,
        DecodeError::TranscribeTimeout => "transcription timed out"@,
        DecodeError::ModelUnavailable => "no transcription model available"@,
    }
}

impl DecodeError {
    /// A user-facing message for the error.
    pub fn message(&self) -> (r: &'static str)
        ensures
            r@ == message_of(*self),
    {
        match self {
            DecodeError::FormatUnrecognized => "unrecognised audio format; use WebM/Opus, Ogg/Opus or WAV",
            DecodeError::ContainerMalformed => "container recognised but no audio packets found",
            DecodeError::CodecDecodeFailed => "no audio data decoded",
            DecodeError::NoPackets => "empty packet list",
            DecodeError::Mp4AacUnsupported => "MP4/AAC decoding is not supported yet; try Chrome or Firefox",
            DecodeError::PoolResourceUnavailable => "no decoder available",
            DecodeError::TranscribeTimeout => "transcription timed out",
            DecodeError::ModelUnavailable => "no transcription model available",
        }
    }
}

} // verus!
