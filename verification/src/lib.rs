//! A streaming decoder for the WAV (RIFF/WAVE) audio container format.
//!
//! The decoder validates the RIFF preamble, walks the chunk list, interprets
//! the `fmt` chunk (both the plain PCM layout and the extensible layout with
//! a sub-format GUID), and then exposes the interleaved samples of the `data`
//! chunk as a lazy, bounded sequence that is decoded on demand.

use vstd::prelude::*;

pub mod model;
mod read;
mod sample;
mod source;

pub use read::ChunkHeader;
pub use read::ChunkKind;
pub use read::WavReader;
pub use read::WavSamples;
pub use sample::Sample;
pub use sample::signed8;
pub use read::classify_tag;
pub use read::lemma_len_divisible_by_channels;
pub use read::lemma_len_is_channels_times_duration;
pub use source::ByteSource;
pub use source::Cursor;
pub use source::ReadExt;
pub use source::le16;
pub use source::le32;
pub use source::signed16;

verus! {

/// Specifies properties of the audio data.
#[derive(Clone, Copy, Debug, PartialEq, Eq, Structural)]
pub struct WavSpec {
    /// The number of channels.
    pub channels: u16,

    /// The number of samples per second per channel.
    pub sample_rate: u32,

    /// The number of meaningful bits per sample.
    ///
    /// This is the number of bits used to express a value, which can be
    /// fewer than the number of bits used to store a sample.
    pub bits_per_sample: u16,
}

/// Specifies properties of the audio data, as well as the layout of the
/// stream.
///
/// The `bits_per_sample` of the inner specification is the number of
/// meaningful bits; `bytes_per_sample` is the number of bytes a sample
/// occupies in the stream, which can be larger for the extensible layout.
#[derive(Clone, Copy, Debug, PartialEq, Eq, Structural)]
pub struct WavSpecEx {
    /// The normal information about the audio data.
    pub spec: WavSpec,

    /// The number of bytes used to store a sample.
    pub bytes_per_sample: u16,
}

/// The distinct ways in which a stream can be structurally malformed.
#[derive(Clone, Copy, Debug, PartialEq, Eq, Structural)]
pub enum FormatErrorKind {
    /// The stream does not begin with the four bytes `RIFF`.
    NoRiffTag,
    /// Bytes 8 through 11 of the stream are not the four bytes `WAVE`.
    NoWaveTag,
    /// The `fmt` chunk declares a length below the 16-byte minimum.
    InvalidFmtChunkSize,
    /// Redundant fields of the `fmt` chunk contradict each other, or a
    /// channel count or storage width of zero makes them meaningless.
    InconsistentFmtChunk,
    /// The storage width is not a whole number of bytes.
    BitsPerSampleNotByteAligned,
    /// The `fmt` chunk length does not match its format variant: a plain
    /// PCM chunk must be exactly 16 bytes, an extensible one at least 40.
    UnexpectedFmtChunkSize,
    /// The extension size field of an extensible `fmt` chunk is not 22.
    UnexpectedExtensionSize,
    /// A plain PCM stream declares a bit depth other than 8 or 16.
    InvalidBitsPerSample,
    /// A `data` chunk appeared before any `fmt` chunk.
    MissingFmtChunk,
    /// The `data` chunk length does not hold a whole number of frames.
    InvalidDataChunkLength,
}

/// The error type for decoding operations.
#[derive(Clone, Copy, Debug, PartialEq, Eq, Structural)]
pub enum Error {
    /// The stream is malformed or inconsistent.
    FormatError(FormatErrorKind),
    /// The stream is structurally valid, but uses a feature (such as a
    /// compressed codec or an unrecognized sub-format) that is not handled.
    Unsupported,
    /// The byte source ran out of bytes before a read could be completed.
    IoError,
}

impl Error {
    /// A short human-readable description of the error.
    pub fn message(&self) -> &'static str {
        match self {
            Error::FormatError(FormatErrorKind::NoRiffTag) => "no RIFF tag found",
            Error::FormatError(FormatErrorKind::NoWaveTag) => "no WAVE tag found",
            Error::FormatError(FormatErrorKind::InvalidFmtChunkSize) => "invalid fmt chunk size",
            Error::FormatError(FormatErrorKind::InconsistentFmtChunk) => "inconsistent fmt chunk",
            Error::FormatError(FormatErrorKind::BitsPerSampleNotByteAligned) => {
                "bits per sample is not a multiple of 8"
            },
            Error::FormatError(FormatErrorKind::UnexpectedFmtChunkSize) => {
                "unexpected fmt chunk size"
            },
            Error::FormatError(FormatErrorKind::UnexpectedExtensionSize) => {
                "unexpected extension size"
            },
            Error::FormatError(FormatErrorKind::InvalidBitsPerSample) => {
                "bits per sample is not 8 or 16"
            },
            Error::FormatError(FormatErrorKind::MissingFmtChunk) => "missing fmt chunk",
            Error::FormatError(FormatErrorKind::InvalidDataChunkLength) => {
                "invalid data chunk length"
            },
            Error::Unsupported => "unsupported feature of the WAVE format",
            Error::IoError => "failed to read enough bytes",
        }
    }
}

} // verus!
