//! The container driver: header validation, chunk scanning, `fmt`
//! interpretation, and construction of the streaming reader.

use vstd::prelude::*;

use crate::model::extensible_outcome;
use crate::model::parse_fmt;
use crate::model::parse_header;
use crate::model::parse_wav;
use crate::model::pcm_outcome;
use crate::model::scan_chunks;
use crate::model::lemma_parse_fmt_parsed;
use crate::model::spec_ex_wf;
use crate::model::data_tag;
use crate::model::fmt_tag;
use crate::model::pcm_subformat_guid;
use crate::model::riff_tag;
use crate::model::wave_tag;
use crate::model::FmtOutcome;
use crate::model::HeaderOutcome;
use crate::model::OpenOutcome;
use crate::model::ScanOutcome;
use crate::sample::Sample;
use crate::source::le16;
use crate::source::le32;
use crate::source::ByteSource;
use crate::source::ReadExt;
use crate::Error;
use crate::FormatErrorKind;
use crate::WavSpec;
use crate::WavSpecEx;

verus! {

/// The different chunks that a WAVE stream can contain.
#[derive(Clone, Copy, Debug, PartialEq, Eq, Structural)]
pub enum ChunkKind {
    Fmt,
    Data,
    Unknown,
}

/// Describes the structure of a chunk in the WAVE stream.
#[derive(Clone, Copy, Debug, PartialEq, Eq, Structural)]
pub struct ChunkHeader {
    pub kind: ChunkKind,
    pub len: u32,
}

/// The chunk kind that a 4-byte tag announces.
pub open spec fn classify_tag(t: Seq<u8>) -> ChunkKind {
    if t == fmt_tag() {
        ChunkKind::Fmt
    } else if t == data_tag() {
        ChunkKind::Data
    } else {
        ChunkKind::Unknown
    }
}

/// A reader that decodes the WAVE format from an underlying byte source.
///
/// A `WavReader` is a streaming reader: it consumes bytes from the source
/// on demand and no more than strictly necessary. The stream description is
/// validated in full when the reader is constructed; samples are decoded
/// one at a time afterwards.
#[derive(Debug)]
pub struct WavReader<R> {
    /// Specification of the stream as found in the fmt chunk.
    spec: WavSpec,

    /// The number of bytes used to store a sample in the stream.
    bytes_per_sample: u16,

    /// The number of samples in the data chunk.
    ///
    /// The data chunk is limited to a 4 GiB length because its header has
    /// a 32-bit length field, and a sample takes at least one byte, so the
    /// count always fits in 32 bits.
    num_samples: u32,

    /// The number of samples read so far.
    samples_read: u32,

    /// The source from which the WAVE stream is read.
    reader: R,
}

impl<R> WavReader<R> {
    /// The stream specification found in the `fmt` chunk.
    pub closed spec fn view_spec(&self) -> WavSpec {
        self.spec
    }

    /// The number of bytes one sample occupies in the stream.
    pub closed spec fn view_bytes_per_sample(&self) -> u16 {
        self.bytes_per_sample
    }

    /// The total number of interleaved samples in the `data` chunk.
    pub closed spec fn view_len(&self) -> u32 {
        self.num_samples
    }

    /// The number of samples handed out so far.
    pub closed spec fn view_samples_read(&self) -> u32 {
        self.samples_read
    }

    /// The number of frames: the sample count divided by the channel count.
    pub open spec fn spec_duration(&self) -> int {
        self.view_len() as int / self.view_spec().channels as int
    }

    /// A valid reader: at least one channel, samples that occupy at least
    /// one byte, a whole number of frames, and a read count that has not
    /// passed the end. Construction establishes this and every operation
    /// preserves it.
    pub open spec fn wf(&self) -> bool {
        &&& self.view_spec().channels >= 1
        &&& self.view_bytes_per_sample() >= 1
        &&& self.view_len() % (self.view_spec().channels as u32) == 0
        &&& self.view_samples_read() <= self.view_len()
    }
}

/// Law: for every reader, the channel count times the frame count equals
/// the total sample count.
pub proof fn lemma_len_is_channels_times_duration<R>(w: &WavReader<R>)
    requires
        w.wf(),
    ensures
        w.view_spec().channels as int * w.spec_duration() == w.view_len() as int,
{
    let c = w.view_spec().channels as int;
    let n = w.view_len() as int;
    vstd::arithmetic::div_mod::lemma_fundamental_div_mod(n, c);
}

/// Law: for every reader, the total sample count is a multiple of the
/// channel count.
pub proof fn lemma_len_divisible_by_channels<R>(w: &WavReader<R>)
    requires
        w.wf(),
    ensures
        w.view_len() as int % (w.view_spec().channels as int) == 0,
{
}

impl<R> WavReader<R> where R: ByteSource {
    /// The bytes of the source that have not been consumed yet.
    pub closed spec fn view_remaining(&self) -> Seq<u8> {
        self.reader.remaining()
    }

    /// Reads the RIFF WAVE preamble, returning the declared file size,
    /// which is not enforced against the actual stream length.
    pub fn read_wave_header(reader: &mut R) -> (r: Result<u32, Error>)
        ensures
            match parse_header(old(reader).remaining()) {
                HeaderOutcome::HeaderOk { rest } => {
                    &&& r matches Ok(v) && v == le32(old(reader).remaining().subrange(4, 8))
                    &&& final(reader).remaining() == rest
                },
                HeaderOutcome::HeaderShort => r == Err::<u32, Error>(Error::IoError)
                    && final(reader).remaining().len() == 0,
                HeaderOutcome::HeaderBad { kind, rest } => r == Err::<u32, Error>(
                    Error::FormatError(kind),
                ) && final(reader).remaining() == rest,
            },
    {
        let ghost orig = reader.remaining();
        let tag = match reader.read_bytes(4) {
            Ok(v) => v,
            Err(e) => { return Err(e) },
        };
        if !(tag[0] == 0x52 && tag[1] == 0x49 && tag[2] == 0x46 && tag[3] == 0x46) {
            proof {
                assert(tag@ != riff_tag());
                assert(orig.take(4) == tag@);
                assert(reader.remaining() =~= orig.skip(4));
            }
            return Err(Error::FormatError(FormatErrorKind::NoRiffTag));
        }
        proof {
            assert(orig.take(4) =~= riff_tag());
        }
        let file_len = match reader.read_le_u32() {
            Ok(v) => v,
            Err(e) => { return Err(e) },
        };
        let wave = match reader.read_bytes(4) {
            Ok(v) => v,
            Err(e) => { return Err(e) },
        };
        proof {
            assert(wave@ =~= orig.subrange(8, 12));
            assert(file_len == le32(orig.subrange(4, 8)));
        }
        if !(wave[0] == 0x57 && wave[1] == 0x41 && wave[2] == 0x56 && wave[3] == 0x45) {
            proof {
                assert(wave@ != wave_tag());
                assert(reader.remaining() =~= orig.skip(12));
            }
            return Err(Error::FormatError(FormatErrorKind::NoWaveTag));
        }
        proof {
            assert(orig.subrange(8, 12) =~= wave_tag());
            assert(reader.remaining() =~= orig.skip(12));
        }
        Ok(file_len)
    }

    /// Reads an 8-byte chunk header: a 4-byte tag and a little-endian
    /// length.
    pub fn read_chunk_header(reader: &mut R) -> (r: Result<ChunkHeader, Error>)
        ensures
            r is Ok <==> old(reader).remaining().len() >= 8,
            r matches Ok(h) ==> {
                &&& h.kind == classify_tag(old(reader).remaining().take(4))
                &&& h.len == le32(old(reader).remaining().subrange(4, 8))
                &&& final(reader).remaining() == old(reader).remaining().skip(8)
            },
            r is Err ==> r == Err::<ChunkHeader, Error>(Error::IoError)
                && final(reader).remaining().len() == 0,
    {
        let ghost orig = reader.remaining();
        let tag = match reader.read_bytes(4) {
            Ok(v) => v,
            Err(e) => { return Err(e) },
        };
        let len = match reader.read_le_u32() {
            Ok(v) => v,
            Err(e) => { return Err(e) },
        };
        let kind = if tag[0] == 0x66 && tag[1] == 0x6d && tag[2] == 0x74 && tag[3] == 0x20 {
            proof {
                assert(tag@ =~= fmt_tag());
            }
            ChunkKind::Fmt
        } else if tag[0] == 0x64 && tag[1] == 0x61 && tag[2] == 0x74 && tag[3] == 0x61 {
            proof {
                assert(tag@ =~= data_tag());
            }
            ChunkKind::Data
        } else {
            proof {
                assert(tag@ != fmt_tag() && tag@ != data_tag());
            }
            ChunkKind::Unknown
        };
        proof {
            assert(orig.take(4) == tag@);
            assert(len == le32(orig.subrange(4, 8)));
            assert(reader.remaining() =~= orig.skip(8));
        }
        Ok(ChunkHeader { kind, len })
    }

    /// Interprets the plain PCM variant of the `fmt` chunk, whose declared
    /// length must be exactly 16 and whose bit depth must be 8 or 16.
    pub fn read_wave_format_pcm(chunk_len: u32, spec: WavSpec) -> (r: Result<WavSpecEx, Error>)
        ensures
            r == pcm_outcome(chunk_len as int, spec),
    {
        if chunk_len != 16 {
            return Err(Error::FormatError(FormatErrorKind::UnexpectedFmtChunkSize));
        }
        if spec.bits_per_sample != 8 && spec.bits_per_sample != 16 {
            return Err(Error::FormatError(FormatErrorKind::InvalidBitsPerSample));
        }
        Ok(WavSpecEx { spec, bytes_per_sample: spec.bits_per_sample / 8 })
    }

    /// Interprets the extensible variant of the `fmt` chunk: an extension
    /// of 22 more bytes holding the count of meaningful bits, a channel
    /// mask that is read and discarded, and a sub-format GUID that must be
    /// the canonical uncompressed-PCM one.
    pub fn read_wave_format_extensible(reader: &mut R, chunk_len: u32, spec: WavSpec) -> (r:
        Result<WavSpecEx, Error>)
        ensures
            match extensible_outcome(old(reader).remaining(), chunk_len as int, spec) {
                FmtOutcome::FmtParsed { spec_ex, rest } => r == Ok::<WavSpecEx, Error>(spec_ex)
                    && final(reader).remaining() == rest,
                FmtOutcome::FmtShort => r == Err::<WavSpecEx, Error>(Error::IoError)
                    && final(reader).remaining().len() == 0,
                FmtOutcome::FmtBad { kind, rest } => r == Err::<WavSpecEx, Error>(
                    Error::FormatError(kind),
                ) && final(reader).remaining() == rest,
                FmtOutcome::FmtUnsupported { rest } => r == Err::<WavSpecEx, Error>(
                    Error::Unsupported,
                ) && final(reader).remaining() == rest,
            },
    {
        let ghost orig = reader.remaining();
        if chunk_len < 40 {
            return Err(Error::FormatError(FormatErrorKind::UnexpectedFmtChunkSize));
        }
        let cb_size = match reader.read_le_u16() {
            Ok(v) => v,
            Err(e) => { return Err(e) },
        };
        if cb_size != 22 {
            return Err(Error::FormatError(FormatErrorKind::UnexpectedExtensionSize));
        }
        let valid_bits_per_sample = match reader.read_le_u16() {
            Ok(v) => v,
            Err(e) => { return Err(e) },
        };
        let _channel_mask = match reader.read_le_u32() {
            Ok(v) => v,
            Err(e) => { return Err(e) },
        };
        let subformat = match reader.read_bytes(16) {
            Ok(v) => v,
            Err(e) => { return Err(e) },
        };
        proof {
            assert(subformat@ =~= orig.subrange(8, 24));
            assert(valid_bits_per_sample == le16(orig.subrange(2, 4)));
            assert(reader.remaining() =~= orig.skip(24));
        }
        if !(subformat[0] == 0x01 && subformat[1] == 0x00 && subformat[2] == 0x00
            && subformat[3] == 0x00 && subformat[4] == 0x00 && subformat[5] == 0x00
            && subformat[6] == 0x10 && subformat[7] == 0x00 && subformat[8] == 0x80
            && subformat[9] == 0x00 && subformat[10] == 0x00 && subformat[11] == 0xaa
            && subformat[12] == 0x00 && subformat[13] == 0x38 && subformat[14] == 0x9b
            && subformat[15] == 0x71) {
            proof {
                assert(subformat@ != pcm_subformat_guid());
            }
            return Err(Error::Unsupported);
        }
        proof {
            assert(orig.subrange(8, 24) =~= pcm_subformat_guid());
        }
        Ok(
            WavSpecEx {
                spec: WavSpec { bits_per_sample: valid_bits_per_sample, ..spec },
                bytes_per_sample: spec.bits_per_sample / 8,
            },
        )
    }

    /// Reads the `fmt` chunk of the stream and returns the information it
    /// provides, after validating the redundant fields against each other.
    pub fn read_fmt_chunk(reader: &mut R, chunk_len: u32) -> (r: Result<WavSpecEx, Error>)
        ensures
            match parse_fmt(old(reader).remaining(), chunk_len as int) {
                FmtOutcome::FmtParsed { spec_ex, rest } => r == Ok::<WavSpecEx, Error>(spec_ex)
                    && final(reader).remaining() == rest,
                FmtOutcome::FmtShort => r == Err::<WavSpecEx, Error>(Error::IoError)
                    && final(reader).remaining().len() == 0,
                FmtOutcome::FmtBad { kind, rest } => r == Err::<WavSpecEx, Error>(
                    Error::FormatError(kind),
                ) && final(reader).remaining() == rest,
                FmtOutcome::FmtUnsupported { rest } => r == Err::<WavSpecEx, Error>(
                    Error::Unsupported,
                ) && final(reader).remaining() == rest,
            },
    {
        let ghost orig = reader.remaining();
        if chunk_len < 16 {
            return Err(Error::FormatError(FormatErrorKind::InvalidFmtChunkSize));
        }
        let format_tag = match reader.read_le_u16() {
            Ok(v) => v,
            Err(e) => { return Err(e) },
        };
        let n_channels = match reader.read_le_u16() {
            Ok(v) => v,
            Err(e) => { return Err(e) },
        };
        let n_samples_per_sec = match reader.read_le_u32() {
            Ok(v) => v,
            Err(e) => { return Err(e) },
        };
        let n_bytes_per_sec = match reader.read_le_u32() {
            Ok(v) => v,
            Err(e) => { return Err(e) },
        };
        let block_align = match reader.read_le_u16() {
            Ok(v) => v,
            Err(e) => { return Err(e) },
        };
        let bits_per_sample = match reader.read_le_u16() {
            Ok(v) => v,
            Err(e) => { return Err(e) },
        };
        proof {
            assert(n_channels == le16(orig.subrange(2, 4)));
            assert(n_samples_per_sec == le32(orig.subrange(4, 8)));
            assert(n_bytes_per_sec == le32(orig.subrange(8, 12)));
            assert(block_align == le16(orig.subrange(12, 14)));
            assert(bits_per_sample == le16(orig.subrange(14, 16)));
            assert(reader.remaining() =~= orig.skip(16));
        }

        // A channel count of zero would make the cross-check below
        // meaningless, so such chunks are rejected as inconsistent.
        if n_channels == 0 {
            return Err(Error::FormatError(FormatErrorKind::InconsistentFmtChunk));
        }

        // Two of the stored fields are redundant; they are validated to
        // fail early for ill-formed streams.
        let ba = block_align as u64;
        let sr = n_samples_per_sec as u64;
        proof {
            assert(ba * sr <= 0xffffu64 * 0xffffffffu64) by (nonlinear_arith)
                requires
                    ba <= 0xffff && sr <= 0xffffffff,
            ;
        }
        if bits_per_sample as u32 != (block_align as u32 / n_channels as u32) * 8
            || n_bytes_per_sec as u64 != ba * sr {
            return Err(Error::FormatError(FormatErrorKind::InconsistentFmtChunk));
        }

        // The bits per sample of the common fields count stored bits, so
        // they must fill a whole number of bytes.
        if bits_per_sample % 8 != 0 {
            return Err(Error::FormatError(FormatErrorKind::BitsPerSampleNotByteAligned));
        }

        let spec = WavSpec {
            channels: n_channels,
            sample_rate: n_samples_per_sec,
            bits_per_sample,
        };

        if format_tag == 0x0001 {
            Self::read_wave_format_pcm(chunk_len, spec)
        } else if format_tag == 0xfffe {
            // A storage width of zero would make samples occupy no bytes
            // at all, so it is rejected as inconsistent before the
            // extensible layout is interpreted.
            if bits_per_sample == 0 {
                return Err(Error::FormatError(FormatErrorKind::InconsistentFmtChunk));
            }
            Self::read_wave_format_extensible(reader, chunk_len, spec)
        } else {
            Err(Error::Unsupported)
        }
    }

    /// Reads chunks until a `data` chunk is encountered, interpreting the
    /// `fmt` chunk and skipping unknown chunks in full.
    ///
    /// Returns the information from the `fmt` chunk and the length of the
    /// `data` chunk in bytes; afterwards the source is positioned at the
    /// first content byte of the `data` chunk.
    pub fn read_until_data(reader: &mut R) -> (r: Result<(WavSpecEx, u32), Error>)
        ensures
            match scan_chunks(old(reader).remaining(), None::<WavSpecEx>) {
                ScanOutcome::ScanFound { spec_ex, data_len, rest } => {
                    &&& r matches Ok(p) && p.0 == spec_ex && p.1 == data_len
                    &&& spec_ex_wf(spec_ex)
                    &&& final(reader).remaining() == rest
                },
                ScanOutcome::ScanShort => r == Err::<(WavSpecEx, u32), Error>(Error::IoError),
                ScanOutcome::ScanBad { kind } => r == Err::<(WavSpecEx, u32), Error>(
                    Error::FormatError(kind),
                ),
                ScanOutcome::ScanUnsupported => r == Err::<(WavSpecEx, u32), Error>(
                    Error::Unsupported,
                ),
            },
    {
        let ghost orig = reader.remaining();
        let mut spec_opt: Option<WavSpecEx> = None;

        loop
            invariant
                orig == old(reader).remaining(),
                scan_chunks(reader.remaining(), spec_opt) == scan_chunks(
                    orig,
                    None::<WavSpecEx>,
                ),
                spec_opt matches Some(se) ==> spec_ex_wf(se),
            decreases reader.remaining().len(),
        {
            let ghost cur = reader.remaining();
            let header = match Self::read_chunk_header(reader) {
                Ok(h) => h,
                Err(e) => { return Err(e) },
            };
            proof {
                assert(reader.remaining() == cur.skip(8));
            }
            match header.kind {
                ChunkKind::Fmt => {
                    let ghost body = reader.remaining();
                    proof {
                        lemma_parse_fmt_parsed(body, header.len as int);
                    }
                    let spec_ex = match Self::read_fmt_chunk(reader, header.len) {
                        Ok(s) => s,
                        Err(e) => { return Err(e) },
                    };
                    spec_opt = Some(spec_ex);
                },
                ChunkKind::Data => {
                    match spec_opt {
                        Some(se) => {
                            return Ok((se, header.len));
                        },
                        None => {
                            return Err(Error::FormatError(FormatErrorKind::MissingFmtChunk));
                        },
                    }
                },
                ChunkKind::Unknown => {
                    match reader.read_bytes(header.len as usize) {
                        Ok(_) => {
                            proof {
                                assert(reader.remaining() =~= cur.skip(8).skip(
                                    header.len as int,
                                ));
                            }
                        },
                        Err(e) => { return Err(e) },
                    }
                },
            }
        }
    }

    /// Attempts to create a reader that decodes the WAVE format.
    ///
    /// The header is validated immediately; the samples of the `data`
    /// chunk are decoded on demand.
    pub fn new(reader: R) -> (r: Result<WavReader<R>, Error>)
        ensures
            match parse_wav(reader.remaining()) {
                OpenOutcome::Opened { spec, bytes_per_sample, num_samples, rest } => {
                    &&& r matches Ok(w)
                    &&& w.view_spec() == spec
                    &&& w.view_bytes_per_sample() == bytes_per_sample
                    &&& w.view_len() == num_samples
                    &&& w.view_samples_read() == 0
                    &&& w.view_remaining() == rest
                    &&& w.wf()
                },
                OpenOutcome::OpenShort => r matches Err(e) && e == Error::IoError,
                OpenOutcome::OpenBad { kind } => r matches Err(e) && e == Error::FormatError(
                    kind,
                ),
                OpenOutcome::OpenUnsupported => r matches Err(e) && e == Error::Unsupported,
            },
    {
        let mut reader = reader;
        match Self::read_wave_header(&mut reader) {
            Ok(_) => {},
            Err(e) => { return Err(e) },
        }
        let (spec_ex, data_len) = match Self::read_until_data(&mut reader) {
            Ok(p) => p,
            Err(e) => { return Err(e) },
        };

        let num_samples = data_len / spec_ex.bytes_per_sample as u32;

        // The number of samples must be a multiple of the number of
        // channels, otherwise the last inter-channel sample would not have
        // data for all channels.
        if num_samples % spec_ex.spec.channels as u32 != 0 {
            return Err(Error::FormatError(FormatErrorKind::InvalidDataChunkLength));
        }

        let wav_reader = WavReader {
            spec: spec_ex.spec,
            bytes_per_sample: spec_ex.bytes_per_sample,
            num_samples,
            samples_read: 0,
            reader,
        };

        Ok(wav_reader)
    }

    /// Returns information about the WAVE stream.
    pub fn spec(&self) -> (r: &WavSpec)
        ensures
            *r == self.view_spec(),
    {
        &self.spec
    }

    /// Returns the duration of the stream in samples.
    ///
    /// The duration is independent of the number of channels and of how
    /// many samples have been read already; it is expressed in units of
    /// samples per channel.
    pub fn duration(&self) -> (r: u32)
        requires
            self.wf(),
        ensures
            r == self.spec_duration(),
            r == self.view_len() / self.view_spec().channels as u32,
    {
        self.num_samples / self.spec.channels as u32
    }

    /// Returns the number of values that the sample sequence will yield in
    /// total: the duration times the number of channels, independent of
    /// how many samples have been read already.
    pub fn len(&self) -> (r: u32)
        ensures
            r == self.view_len(),
    {
        self.num_samples
    }
}

/// A sequence that yields samples of type `S` read from a `WavReader`.
///
/// The sequence borrows the reader exclusively, so only one sequence can
/// be active at a time; the position lives in the reader, so a sequence
/// acquired later continues where the previous one stopped.
pub struct WavSamples<'wr, R, S> {
    /// The exclusively borrowed reader that samples are decoded from.
    pub reader: &'wr mut WavReader<R>,
    /// Pins down the sample type the sequence yields.
    pub phantom_sample: core::marker::PhantomData<S>,
}

impl<R> WavReader<R> where R: ByteSource {
    /// Returns the sequence of all remaining samples.
    ///
    /// The channel data is interleaved. The sequence is streaming: reading
    /// a few samples, dropping the sequence, and acquiring a new one
    /// continues where the first sequence stopped.
    pub fn samples<'wr, S: Sample>(&'wr mut self) -> (r: WavSamples<'wr, R, S>)
        ensures
            r.view_reader() == *old(self),
            *final(self) == *final(r.reader),
    {
        WavSamples { reader: self, phantom_sample: core::marker::PhantomData }
    }
}

impl<'wr, R: ByteSource, S: Sample> WavSamples<'wr, R, S> {
    /// The state of the borrowed reader as the sequence currently sees it.
    pub closed spec fn view_reader(&self) -> WavReader<R> {
        *self.reader
    }

    /// Yields the next sample, or `None` once `len()` samples have been
    /// handed out in total.
    ///
    /// Every call made before exhaustion advances the count of read
    /// samples by exactly one, whether or not the decode succeeds.
    pub fn next(&mut self) -> (r: Option<Result<S, Error>>)
        requires
            old(self).view_reader().wf(),
        ensures
            final(self).view_reader().wf(),
            ({
                let w0 = old(self).view_reader();
                let w1 = final(self).view_reader();
                &&& w1.view_spec() == w0.view_spec()
                &&& w1.view_bytes_per_sample() == w0.view_bytes_per_sample()
                &&& w1.view_len() == w0.view_len()
                &&& if w0.view_samples_read() < w0.view_len() {
                    let bits = w0.view_spec().bits_per_sample;
                    &&& w1.view_samples_read() == w0.view_samples_read() + 1
                    &&& (!S::supports(bits) ==> r == Some(Err::<S, Error>(Error::Unsupported))
                        && w1.view_remaining() == w0.view_remaining())
                    &&& (S::supports(bits) && w0.view_remaining().len() >= S::width(bits) ==> r
                        == Some(Ok::<S, Error>(S::decode(bits, w0.view_remaining())))
                        && w1.view_remaining() == w0.view_remaining().skip(S::width(bits)))
                    &&& (S::supports(bits) && w0.view_remaining().len() < S::width(bits) ==> r
                        == Some(Err::<S, Error>(Error::IoError))
                        && w1.view_remaining().len() == 0)
                } else {
                    r is None && w1 == w0
                }
            }),
    {
        let reader = &mut *self.reader;
        if reader.samples_read < reader.num_samples {
            reader.samples_read = reader.samples_read + 1;
            let sample = S::read(&mut reader.reader, reader.spec.bits_per_sample);
            Some(sample)
        } else {
            None
        }
    }

    /// The number of samples the sequence has left: always exactly the
    /// reader's total count minus the samples already read.
    pub fn size_hint(&self) -> (r: (usize, Option<usize>))
        requires
            self.view_reader().wf(),
        ensures
            r.0 == self.view_reader().view_len() - self.view_reader().view_samples_read(),
            r.1 == Some(r.0),
    {
        let samples_left = self.reader.num_samples - self.reader.samples_read;
        (samples_left as usize, Some(samples_left as usize))
    }
}

} // verus!
