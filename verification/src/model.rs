//! The mathematical model of the container format.
//!
//! These specification functions state, over a sequence of bytes, exactly
//! what the decoder accepts and what it extracts: the RIFF/WAVE preamble,
//! the chunk walk, both layouts of the `fmt` chunk, and the final sample
//! count of the `data` chunk. Every executable parsing function is proved
//! to agree with this model, including which error each rejected stream
//! reports.

use vstd::prelude::*;

use crate::source::le16;
use crate::source::le32;
use crate::Error;
use crate::FormatErrorKind;
use crate::WavSpec;
use crate::WavSpecEx;

verus! {

/// The four ASCII bytes `RIFF`.
pub open spec fn riff_tag() -> Seq<u8> {
    seq![0x52u8, 0x49u8, 0x46u8, 0x46u8]
}

/// The four ASCII bytes `WAVE`.
pub open spec fn wave_tag() -> Seq<u8> {
    seq![0x57u8, 0x41u8, 0x56u8, 0x45u8]
}

/// The four ASCII bytes `fmt `.
pub open spec fn fmt_tag() -> Seq<u8> {
    seq![0x66u8, 0x6du8, 0x74u8, 0x20u8]
}

/// The four ASCII bytes `data`.
pub open spec fn data_tag() -> Seq<u8> {
    seq![0x64u8, 0x61u8, 0x74u8, 0x61u8]
}

/// The canonical GUID of the uncompressed-PCM sub-format of an extensible
/// `fmt` chunk.
pub open spec fn pcm_subformat_guid() -> Seq<u8> {
    seq![
        0x01u8, 0x00u8, 0x00u8, 0x00u8,
        0x00u8, 0x00u8, 0x10u8, 0x00u8,
        0x80u8, 0x00u8, 0x00u8, 0xaau8,
        0x00u8, 0x38u8, 0x9bu8, 0x71u8,
    ]
}

/// What parsing the 12-byte RIFF preamble yields.
pub enum HeaderOutcome {
    /// The preamble is valid; `rest` is the stream after it.
    HeaderOk { rest: Seq<u8> },
    /// The stream ends inside the preamble; the reader drains the source
    /// looking for the missing bytes.
    HeaderShort,
    /// A tag is wrong; `rest` is the stream after the bytes read up to and
    /// including the offending tag.
    HeaderBad { kind: FormatErrorKind, rest: Seq<u8> },
}

/// Parses the 12-byte RIFF preamble: the tag `RIFF`, a file length that is
/// read but not enforced, and the form type `WAVE`.
pub open spec fn parse_header(s: Seq<u8>) -> HeaderOutcome {
    if s.len() < 4 {
        HeaderOutcome::HeaderShort
    } else if s.take(4) != riff_tag() {
        HeaderOutcome::HeaderBad { kind: FormatErrorKind::NoRiffTag, rest: s.skip(4) }
    } else if s.len() < 12 {
        HeaderOutcome::HeaderShort
    } else if s.subrange(8, 12) != wave_tag() {
        HeaderOutcome::HeaderBad { kind: FormatErrorKind::NoWaveTag, rest: s.skip(12) }
    } else {
        HeaderOutcome::HeaderOk { rest: s.skip(12) }
    }
}

/// What interpreting a `fmt` chunk body yields.
pub enum FmtOutcome {
    /// The chunk is valid; `rest` is the stream after the bytes the
    /// interpreter consumed (16 for the plain layout, 40 for the
    /// extensible one — a declared length beyond that is not skipped).
    FmtParsed { spec_ex: WavSpecEx, rest: Seq<u8> },
    /// The stream ends inside the chunk; the interpreter drains the
    /// source looking for the missing bytes.
    FmtShort,
    /// The chunk is malformed; `rest` is the stream after the bytes the
    /// interpreter had consumed when it rejected the chunk.
    FmtBad { kind: FormatErrorKind, rest: Seq<u8> },
    /// The format tag or sub-format GUID is valid but not handled; `rest`
    /// as for a malformed chunk.
    FmtUnsupported { rest: Seq<u8> },
}

/// The outcome of the plain PCM branch, given the declared chunk length and
/// the common fields already read.
pub open spec fn pcm_outcome(chunk_len: int, w: WavSpec) -> Result<WavSpecEx, Error> {
    if chunk_len != 16 {
        Err(Error::FormatError(FormatErrorKind::UnexpectedFmtChunkSize))
    } else if w.bits_per_sample != 8 && w.bits_per_sample != 16 {
        Err(Error::FormatError(FormatErrorKind::InvalidBitsPerSample))
    } else {
        Ok(WavSpecEx { spec: w, bytes_per_sample: (w.bits_per_sample / 8) as u16 })
    }
}

/// The outcome of the extensible branch. `s` is the stream right after the
/// 16 common bytes; the branch consumes 24 more: the extension size, the
/// count of valid bits, a channel mask that is read and discarded, and the
/// 16-byte sub-format GUID.
pub open spec fn extensible_outcome(s: Seq<u8>, chunk_len: int, w: WavSpec) -> FmtOutcome {
    if chunk_len < 40 {
        FmtOutcome::FmtBad { kind: FormatErrorKind::UnexpectedFmtChunkSize, rest: s }
    } else if s.len() < 2 {
        FmtOutcome::FmtShort
    } else if le16(s) != 22 {
        FmtOutcome::FmtBad { kind: FormatErrorKind::UnexpectedExtensionSize, rest: s.skip(2) }
    } else if s.len() < 24 {
        FmtOutcome::FmtShort
    } else if s.subrange(8, 24) != pcm_subformat_guid() {
        FmtOutcome::FmtUnsupported { rest: s.skip(24) }
    } else {
        FmtOutcome::FmtParsed {
            spec_ex: WavSpecEx {
                spec: WavSpec {
                    channels: w.channels,
                    sample_rate: w.sample_rate,
                    bits_per_sample: le16(s.subrange(2, 4)) as u16,
                },
                bytes_per_sample: (w.bits_per_sample / 8) as u16,
            },
            rest: s.skip(24),
        }
    }
}

/// Interprets a `fmt` chunk. `s` is the stream at the first byte of the
/// chunk body and `chunk_len` its declared length. The six common fields
/// are read first; their redundant encodings must agree, the storage width
/// must be a whole number of bytes, and the channel count must not be
/// zero. The format tag then selects the plain PCM layout, the extensible
/// layout (where a storage width of zero is additionally rejected, since a
/// sample must occupy at least one byte), or rejection as unsupported.
pub open spec fn parse_fmt(s: Seq<u8>, chunk_len: int) -> FmtOutcome {
    if chunk_len < 16 {
        FmtOutcome::FmtBad { kind: FormatErrorKind::InvalidFmtChunkSize, rest: s }
    } else if s.len() < 16 {
        FmtOutcome::FmtShort
    } else {
        let format_tag = le16(s);
        let n_channels = le16(s.subrange(2, 4));
        let sample_rate = le32(s.subrange(4, 8));
        let bytes_per_sec = le32(s.subrange(8, 12));
        let block_align = le16(s.subrange(12, 14));
        let bits = le16(s.subrange(14, 16));
        let w = WavSpec {
            channels: n_channels as u16,
            sample_rate: sample_rate as u32,
            bits_per_sample: bits as u16,
        };
        if n_channels == 0 {
            FmtOutcome::FmtBad { kind: FormatErrorKind::InconsistentFmtChunk, rest: s.skip(16) }
        } else if bits != (block_align / n_channels) * 8
            || bytes_per_sec != block_align * sample_rate {
            FmtOutcome::FmtBad { kind: FormatErrorKind::InconsistentFmtChunk, rest: s.skip(16) }
        } else if bits % 8 != 0 {
            FmtOutcome::FmtBad {
                kind: FormatErrorKind::BitsPerSampleNotByteAligned,
                rest: s.skip(16),
            }
        } else if format_tag == 0x0001 {
            match pcm_outcome(chunk_len, w) {
                Ok(spec_ex) => FmtOutcome::FmtParsed { spec_ex, rest: s.skip(16) },
                Err(Error::FormatError(kind)) => FmtOutcome::FmtBad { kind, rest: s.skip(16) },
                Err(_) => FmtOutcome::FmtUnsupported { rest: s.skip(16) },
            }
        } else if format_tag == 0xfffe {
            if bits == 0 {
                FmtOutcome::FmtBad {
                    kind: FormatErrorKind::InconsistentFmtChunk,
                    rest: s.skip(16),
                }
            } else {
                extensible_outcome(s.skip(16), chunk_len, w)
            }
        } else {
            FmtOutcome::FmtUnsupported { rest: s.skip(16) }
        }
    }
}

/// A specification with a positive channel count and a positive storage
/// width; every `fmt` chunk the model accepts satisfies it.
pub open spec fn spec_ex_wf(se: WavSpecEx) -> bool {
    se.spec.channels >= 1 && se.bytes_per_sample >= 1
}

/// Every accepted `fmt` chunk has at least one channel, a storage width of
/// at least one byte, and leaves a suffix of the chunk body behind.
pub proof fn lemma_parse_fmt_parsed(s: Seq<u8>, chunk_len: int)
    ensures
        parse_fmt(s, chunk_len) matches FmtOutcome::FmtParsed { spec_ex, rest } ==> {
            &&& spec_ex_wf(spec_ex)
            &&& rest.len() <= s.len()
        },
{
    if let FmtOutcome::FmtParsed { spec_ex, rest } = parse_fmt(s, chunk_len) {
        let format_tag = le16(s);
        let bits = le16(s.subrange(14, 16));
        assert(0 <= s.subrange(14, 16)[0] < 256 && 0 <= s.subrange(14, 16)[1] < 256);
        if format_tag == 0x0001 {
            assert(bits == 8 || bits == 16);
        } else {
            assert(bits % 8 == 0 && bits != 0);
            assert(bits >= 8) by {
                assert(bits / 8 >= 1) by (nonlinear_arith)
                    requires bits % 8 == 0 && 0 < bits;
            };
        }
        assert(spec_ex.bytes_per_sample >= 1);
    }
}

/// What scanning the chunk list for the `data` chunk yields.
pub enum ScanOutcome {
    /// A `data` chunk was found after a valid `fmt` chunk; `rest` is the
    /// stream at the first content byte of the `data` chunk.
    ScanFound { spec_ex: WavSpecEx, data_len: int, rest: Seq<u8> },
    /// The stream ends before a `data` chunk appears.
    ScanShort,
    /// A chunk is malformed, or a `data` chunk precedes any `fmt` chunk.
    ScanBad { kind: FormatErrorKind },
    /// The `fmt` chunk is valid but describes an unhandled format.
    ScanUnsupported,
}

/// Walks the chunk list: each chunk is an 8-byte header (a 4-byte tag and a
/// 4-byte little-endian length) followed by its body. A `fmt` chunk is
/// interpreted, an unknown chunk is skipped over in full, and the first
/// `data` chunk ends the walk. `found` carries the most recently
/// interpreted `fmt` chunk, if any.
pub open spec fn scan_chunks(s: Seq<u8>, found: Option<WavSpecEx>) -> ScanOutcome
    decreases s.len(),
{
    if s.len() < 8 {
        ScanOutcome::ScanShort
    } else {
        let tag = s.take(4);
        let len = le32(s.subrange(4, 8));
        let body = s.skip(8);
        if tag == fmt_tag() {
            match parse_fmt(body, len) {
                FmtOutcome::FmtParsed { spec_ex, rest } => if rest.len() < s.len() {
                    scan_chunks(rest, Some(spec_ex))
                } else {
                    ScanOutcome::ScanShort
                },
                FmtOutcome::FmtShort => ScanOutcome::ScanShort,
                FmtOutcome::FmtBad { kind, .. } => ScanOutcome::ScanBad { kind },
                FmtOutcome::FmtUnsupported { .. } => ScanOutcome::ScanUnsupported,
            }
        } else if tag == data_tag() {
            match found {
                Some(spec_ex) => ScanOutcome::ScanFound { spec_ex, data_len: len, rest: body },
                None => ScanOutcome::ScanBad { kind: FormatErrorKind::MissingFmtChunk },
            }
        } else {
            if body.len() < len {
                ScanOutcome::ScanShort
            } else {
                scan_chunks(body.skip(len), found)
            }
        }
    }
}

/// What opening a stream yields.
pub enum OpenOutcome {
    /// The stream is a decodable WAVE stream: `spec` describes the audio
    /// data, one sample occupies `bytes_per_sample` bytes, the `data`
    /// chunk holds `num_samples` interleaved samples, and `rest` is the
    /// stream at the first content byte of the `data` chunk.
    Opened { spec: WavSpec, bytes_per_sample: u16, num_samples: u32, rest: Seq<u8> },
    /// The stream ends before the `data` chunk is located.
    OpenShort,
    /// The stream is malformed.
    OpenBad { kind: FormatErrorKind },
    /// The stream uses an unhandled format.
    OpenUnsupported,
}

/// Opens a stream: validates the preamble, walks the chunks to the `data`
/// chunk, and turns its declared byte length into a sample count, which
/// must divide evenly into frames.
pub open spec fn parse_wav(s: Seq<u8>) -> OpenOutcome {
    match parse_header(s) {
        HeaderOutcome::HeaderShort => OpenOutcome::OpenShort,
        HeaderOutcome::HeaderBad { kind, .. } => OpenOutcome::OpenBad { kind },
        HeaderOutcome::HeaderOk { rest } => match scan_chunks(rest, None::<WavSpecEx>) {
            ScanOutcome::ScanShort => OpenOutcome::OpenShort,
            ScanOutcome::ScanBad { kind } => OpenOutcome::OpenBad { kind },
            ScanOutcome::ScanUnsupported => OpenOutcome::OpenUnsupported,
            ScanOutcome::ScanFound { spec_ex, data_len, rest: tail } => {
                let num_samples = data_len / spec_ex.bytes_per_sample as int;
                if num_samples % spec_ex.spec.channels as int != 0 {
                    OpenOutcome::OpenBad { kind: FormatErrorKind::InvalidDataChunkLength }
                } else {
                    OpenOutcome::Opened {
                        spec: spec_ex.spec,
                        bytes_per_sample: spec_ex.bytes_per_sample,
                        num_samples: num_samples as u32,
                        rest: tail,
                    }
                }
            },
        },
    }
}

} // verus!
