use hound::Cursor;
use hound::Error;
use hound::ReadExt;
use hound::FormatErrorKind;
use hound::WavReader;

/// Appends a chunk with the given tag, declared length, and body bytes.
fn push_chunk(out: &mut Vec<u8>, tag: &[u8; 4], declared_len: u32, body: &[u8]) {
    out.extend_from_slice(tag);
    out.extend_from_slice(&declared_len.to_le_bytes());
    out.extend_from_slice(body);
}

/// A 16-byte plain PCM `fmt` chunk body with consistent redundant fields.
fn pcm_fmt_body(channels: u16, sample_rate: u32, bits_per_sample: u16) -> Vec<u8> {
    let block_align = channels * (bits_per_sample / 8);
    let avg_bytes_per_sec = block_align as u32 * sample_rate;
    let mut body = Vec::new();
    body.extend_from_slice(&1u16.to_le_bytes());
    body.extend_from_slice(&channels.to_le_bytes());
    body.extend_from_slice(&sample_rate.to_le_bytes());
    body.extend_from_slice(&avg_bytes_per_sec.to_le_bytes());
    body.extend_from_slice(&block_align.to_le_bytes());
    body.extend_from_slice(&bits_per_sample.to_le_bytes());
    body
}

/// Wraps chunks in the 12-byte RIFF/WAVE preamble.
fn riff_wave(chunks: &[u8]) -> Vec<u8> {
    let mut out = Vec::new();
    out.extend_from_slice(b"RIFF");
    out.extend_from_slice(&(4 + chunks.len() as u32).to_le_bytes());
    out.extend_from_slice(b"WAVE");
    out.extend_from_slice(chunks);
    out
}

/// A whole PCM file with 16-bit samples.
fn pcm16_file(channels: u16, sample_rate: u32, samples: &[i16]) -> Vec<u8> {
    let mut chunks = Vec::new();
    push_chunk(&mut chunks, b"fmt ", 16, &pcm_fmt_body(channels, sample_rate, 16));
    let mut data = Vec::new();
    for s in samples {
        data.extend_from_slice(&s.to_le_bytes());
    }
    push_chunk(&mut chunks, b"data", data.len() as u32, &data);
    riff_wave(&chunks)
}

/// A whole PCM file with 8-bit samples.
fn pcm8_file(channels: u16, sample_rate: u32, samples: &[u8]) -> Vec<u8> {
    let mut chunks = Vec::new();
    push_chunk(&mut chunks, b"fmt ", 16, &pcm_fmt_body(channels, sample_rate, 8));
    push_chunk(&mut chunks, b"data", samples.len() as u32, samples);
    riff_wave(&chunks)
}

const PCM_GUID: [u8; 16] = [
    0x01, 0x00, 0x00, 0x00, 0x00, 0x00, 0x10, 0x00, 0x80, 0x00, 0x00, 0xaa, 0x00, 0x38, 0x9b,
    0x71,
];

/// A 40-byte extensible `fmt` chunk body.
fn extensible_fmt_body(
    channels: u16,
    sample_rate: u32,
    storage_bits: u16,
    valid_bits: u16,
    guid: &[u8; 16],
) -> Vec<u8> {
    let block_align = channels * (storage_bits / 8);
    let avg_bytes_per_sec = block_align as u32 * sample_rate;
    let mut body = Vec::new();
    body.extend_from_slice(&0xfffeu16.to_le_bytes());
    body.extend_from_slice(&channels.to_le_bytes());
    body.extend_from_slice(&sample_rate.to_le_bytes());
    body.extend_from_slice(&avg_bytes_per_sec.to_le_bytes());
    body.extend_from_slice(&block_align.to_le_bytes());
    body.extend_from_slice(&storage_bits.to_le_bytes());
    body.extend_from_slice(&22u16.to_le_bytes());
    body.extend_from_slice(&valid_bits.to_le_bytes());
    body.extend_from_slice(&0u32.to_le_bytes());
    body.extend_from_slice(guid);
    body
}

fn extensible16_file(channels: u16, sample_rate: u32, samples: &[i16]) -> Vec<u8> {
    let mut chunks = Vec::new();
    push_chunk(
        &mut chunks,
        b"fmt ",
        40,
        &extensible_fmt_body(channels, sample_rate, 16, 16, &PCM_GUID),
    );
    let mut data = Vec::new();
    for s in samples {
        data.extend_from_slice(&s.to_le_bytes());
    }
    push_chunk(&mut chunks, b"data", data.len() as u32, &data);
    riff_wave(&chunks)
}

fn open(bytes: Vec<u8>) -> Result<WavReader<Cursor>, Error> {
    WavReader::new(Cursor::new(bytes))
}

#[test]
fn duration_and_len_agree() {
    let files = &[
        pcm16_file(1, 44100, &[2, -3, 5, -7]),
        pcm16_file(2, 8000, &[1, 2, 3, 4, 5, 6]),
        extensible16_file(2, 48000, &[-1, 1, -2, 2]),
    ];

    for bytes in files {
        let reader = open(bytes.clone()).unwrap();
        assert_eq!(reader.spec().channels as u32 * reader.duration(), reader.len());
    }
}

/// Tests reading the most basic wav stream, one with only a plain PCM
/// `fmt` chunk.
#[test]
fn read_wav_waveformat() {
    let bytes = pcm16_file(1, 44100, &[2, -3, 5, -7]);
    let mut wav_reader = open(bytes).expect("failed to read header");

    assert_eq!(wav_reader.spec().channels, 1);
    assert_eq!(wav_reader.spec().sample_rate, 44100);
    assert_eq!(wav_reader.spec().bits_per_sample, 16);

    let mut samples: Vec<i16> = Vec::new();
    let mut sequence = wav_reader.samples::<i16>();
    while let Some(r) = sequence.next() {
        samples.push(r.ok().unwrap());
    }

    assert_eq!(&samples[..], &[2, -3, 5, -7]);
}

#[test]
fn read_wav_waveformat_ex() {
}

#[test]
fn read_wav_waveformat_extensible() {
}

#[test]
fn len_is_multiple_of_channels() {
    let reader = open(pcm16_file(2, 8000, &[1, 2, 3, 4, 5, 6])).unwrap();
    assert_eq!(reader.len() % reader.spec().channels as u32, 0);
    assert_eq!(reader.len(), 6);
    assert_eq!(reader.duration(), 3);
}

#[test]
fn no_riff_tag_fails() {
    let mut bytes = pcm16_file(1, 44100, &[2, -3]);
    bytes[0] = b'X';
    assert_eq!(open(bytes).unwrap_err(), Error::FormatError(FormatErrorKind::NoRiffTag));
}

#[test]
fn no_wave_tag_fails() {
    let mut bytes = pcm16_file(1, 44100, &[2, -3]);
    bytes[8] = b'X';
    assert_eq!(open(bytes).unwrap_err(), Error::FormatError(FormatErrorKind::NoWaveTag));
}

#[test]
fn fmt_chunk_too_small_fails() {
    let mut chunks = Vec::new();
    let body = pcm_fmt_body(1, 44100, 16);
    push_chunk(&mut chunks, b"fmt ", 14, &body[..14]);
    push_chunk(&mut chunks, b"data", 0, &[]);
    let err = open(riff_wave(&chunks)).unwrap_err();
    assert_eq!(err, Error::FormatError(FormatErrorKind::InvalidFmtChunkSize));
}

#[test]
fn pcm_fmt_chunk_len_other_than_16_fails() {
    let mut chunks = Vec::new();
    let mut body = pcm_fmt_body(1, 44100, 16);
    body.extend_from_slice(&0u16.to_le_bytes());
    push_chunk(&mut chunks, b"fmt ", 18, &body);
    push_chunk(&mut chunks, b"data", 0, &[]);
    let err = open(riff_wave(&chunks)).unwrap_err();
    assert_eq!(err, Error::FormatError(FormatErrorKind::UnexpectedFmtChunkSize));
}

#[test]
fn pcm_bits_other_than_8_or_16_fails() {
    let mut chunks = Vec::new();
    push_chunk(&mut chunks, b"fmt ", 16, &pcm_fmt_body(1, 44100, 24));
    push_chunk(&mut chunks, b"data", 0, &[]);
    let err = open(riff_wave(&chunks)).unwrap_err();
    assert_eq!(err, Error::FormatError(FormatErrorKind::InvalidBitsPerSample));
}

#[test]
fn unknown_format_tag_is_unsupported() {
    let mut chunks = Vec::new();
    let mut body = pcm_fmt_body(1, 44100, 16);
    body[0] = 0x03;
    push_chunk(&mut chunks, b"fmt ", 16, &body);
    push_chunk(&mut chunks, b"data", 0, &[]);
    assert_eq!(open(riff_wave(&chunks)).unwrap_err(), Error::Unsupported);
}

#[test]
fn wrong_subformat_guid_is_unsupported() {
    let mut guid = PCM_GUID;
    guid[15] = 0x72;
    let mut chunks = Vec::new();
    push_chunk(&mut chunks, b"fmt ", 40, &extensible_fmt_body(1, 44100, 16, 16, &guid));
    push_chunk(&mut chunks, b"data", 0, &[]);
    assert_eq!(open(riff_wave(&chunks)).unwrap_err(), Error::Unsupported);
}

#[test]
fn wrong_extension_size_fails() {
    let mut chunks = Vec::new();
    let mut body = extensible_fmt_body(1, 44100, 16, 16, &PCM_GUID);
    body[16] = 21;
    push_chunk(&mut chunks, b"fmt ", 40, &body);
    push_chunk(&mut chunks, b"data", 0, &[]);
    let err = open(riff_wave(&chunks)).unwrap_err();
    assert_eq!(err, Error::FormatError(FormatErrorKind::UnexpectedExtensionSize));
}

#[test]
fn inconsistent_fmt_chunk_fails() {
    let mut chunks = Vec::new();
    let mut body = pcm_fmt_body(1, 44100, 16);
    // Corrupt the average-bytes-per-second field.
    body[8] = body[8].wrapping_add(1);
    push_chunk(&mut chunks, b"fmt ", 16, &body);
    push_chunk(&mut chunks, b"data", 0, &[]);
    let err = open(riff_wave(&chunks)).unwrap_err();
    assert_eq!(err, Error::FormatError(FormatErrorKind::InconsistentFmtChunk));
}

#[test]
fn zero_channels_fails() {
    let mut chunks = Vec::new();
    let mut body = pcm_fmt_body(1, 44100, 16);
    body[2] = 0;
    body[3] = 0;
    push_chunk(&mut chunks, b"fmt ", 16, &body);
    push_chunk(&mut chunks, b"data", 0, &[]);
    let err = open(riff_wave(&chunks)).unwrap_err();
    assert_eq!(err, Error::FormatError(FormatErrorKind::InconsistentFmtChunk));
}

#[test]
fn data_before_fmt_fails() {
    let mut chunks = Vec::new();
    push_chunk(&mut chunks, b"data", 0, &[]);
    let err = open(riff_wave(&chunks)).unwrap_err();
    assert_eq!(err, Error::FormatError(FormatErrorKind::MissingFmtChunk));
}

#[test]
fn truncated_preamble_is_io_error() {
    assert_eq!(open(b"RIFF\x10".to_vec()).unwrap_err(), Error::IoError);
    assert_eq!(open(Vec::new()).unwrap_err(), Error::IoError);
}

#[test]
fn missing_data_chunk_is_io_error() {
    let mut chunks = Vec::new();
    push_chunk(&mut chunks, b"fmt ", 16, &pcm_fmt_body(1, 44100, 16));
    assert_eq!(open(riff_wave(&chunks)).unwrap_err(), Error::IoError);
}

#[test]
fn unknown_chunks_are_skipped() {
    let mut chunks = Vec::new();
    push_chunk(&mut chunks, b"LIST", 5, b"HELLO");
    push_chunk(&mut chunks, b"fmt ", 16, &pcm_fmt_body(1, 44100, 16));
    push_chunk(&mut chunks, b"tidy", 3, b"abc");
    push_chunk(&mut chunks, b"data", 4, &[9, 0, 7, 0]);
    let mut reader = open(riff_wave(&chunks)).unwrap();
    assert_eq!(reader.len(), 2);
    let mut sequence = reader.samples::<i16>();
    assert_eq!(sequence.next().unwrap().unwrap(), 9);
    assert_eq!(sequence.next().unwrap().unwrap(), 7);
    assert!(sequence.next().is_none());
}

#[test]
fn data_length_with_partial_frame_fails() {
    // Two channels of 16-bit samples, but the data chunk holds one lone
    // sample: the frame is incomplete.
    let mut chunks = Vec::new();
    push_chunk(&mut chunks, b"fmt ", 16, &pcm_fmt_body(2, 44100, 16));
    push_chunk(&mut chunks, b"data", 2, &[1, 0]);
    let err = open(riff_wave(&chunks)).unwrap_err();
    assert_eq!(err, Error::FormatError(FormatErrorKind::InvalidDataChunkLength));
}

#[test]
fn sequence_is_exhausted_after_len_samples() {
    let bytes = pcm16_file(2, 8000, &[10, -10, 20, -20]);
    let mut reader = open(bytes).unwrap();
    let total = reader.len();
    assert_eq!(total, 4);

    let mut yielded = 0u32;
    let mut sequence = reader.samples::<i16>();
    while let Some(r) = sequence.next() {
        r.unwrap();
        yielded += 1;
    }
    assert_eq!(yielded, total);
    assert!(sequence.next().is_none());

    // A sequence acquired later continues where the previous one stopped:
    // at the end.
    let mut again = reader.samples::<i16>();
    assert!(again.next().is_none());
    assert_eq!(again.size_hint(), (0, Some(0)));
}

#[test]
fn remaining_count_tracks_every_step() {
    let bytes = pcm16_file(1, 8000, &[1, 2, 3]);
    let mut reader = open(bytes).unwrap();
    let total = reader.len() as usize;
    let mut sequence = reader.samples::<i16>();
    for consumed in 0..total {
        assert_eq!(sequence.size_hint(), (total - consumed, Some(total - consumed)));
        assert!(sequence.next().is_some());
    }
    assert_eq!(sequence.size_hint(), (0, Some(0)));
}

#[test]
fn resumes_across_acquisitions() {
    let bytes = pcm16_file(1, 8000, &[4, 5, 6]);
    let mut reader = open(bytes).unwrap();
    {
        let mut first = reader.samples::<i16>();
        assert_eq!(first.next().unwrap().unwrap(), 4);
    }
    let mut second = reader.samples::<i16>();
    assert_eq!(second.next().unwrap().unwrap(), 5);
    assert_eq!(second.next().unwrap().unwrap(), 6);
    assert!(second.next().is_none());
}

#[test]
fn extensible_reports_valid_bits() {
    let bytes = extensible16_file(2, 48000, &[-1, 1, -2, 2]);
    let mut reader = open(bytes).unwrap();
    assert_eq!(reader.spec().channels, 2);
    assert_eq!(reader.spec().sample_rate, 48000);
    assert_eq!(reader.spec().bits_per_sample, 16);
    assert_eq!(reader.len(), 4);
    assert_eq!(reader.duration(), 2);
    let mut sequence = reader.samples::<i16>();
    let mut samples = Vec::new();
    while let Some(r) = sequence.next() {
        samples.push(r.unwrap());
    }
    assert_eq!(&samples[..], &[-1, 1, -2, 2]);
}

#[test]
fn eight_bit_samples_decode_as_i8() {
    let bytes = pcm8_file(1, 11025, &[1, 255, 128, 0]);
    let mut reader = open(bytes).unwrap();
    assert_eq!(reader.spec().bits_per_sample, 8);
    let mut sequence = reader.samples::<i8>();
    let mut samples = Vec::new();
    while let Some(r) = sequence.next() {
        samples.push(r.unwrap());
    }
    assert_eq!(&samples[..], &[1, -1, -128, 0]);
}

#[test]
fn wrong_sample_width_is_unsupported() {
    let bytes = pcm8_file(1, 11025, &[1, 2]);
    let mut reader = open(bytes).unwrap();
    let mut sequence = reader.samples::<i16>();
    assert_eq!(sequence.next().unwrap().unwrap_err(), Error::Unsupported);
}

#[test]
fn truncated_data_chunk_yields_io_error_items() {
    // The data chunk declares four bytes but the stream ends after one.
    let mut chunks = Vec::new();
    push_chunk(&mut chunks, b"fmt ", 16, &pcm_fmt_body(1, 8000, 16));
    push_chunk(&mut chunks, b"data", 4, &[1]);
    let mut reader = open(riff_wave(&chunks)).unwrap();
    assert_eq!(reader.len(), 2);
    let mut sequence = reader.samples::<i16>();
    assert_eq!(sequence.next().unwrap().unwrap_err(), Error::IoError);
    // The failed decode still advanced the position.
    assert_eq!(sequence.size_hint(), (1, Some(1)));
}

#[test]
fn error_messages_match_reasons() {
    let err = open(b"JUNKJUNKJUNK".to_vec()).unwrap_err();
    assert_eq!(err.message(), "no RIFF tag found");
    assert_eq!(Error::Unsupported.message(), "unsupported feature of the WAVE format");
    assert_eq!(Error::IoError.message(), "failed to read enough bytes");
}


#[test]
fn pcm_zero_bits_reports_invalid_bits() {
    // A zero bit depth passes the cross-checks (all derived fields are
    // zero), so the plain PCM branch rejects it as an invalid bit depth.
    let mut chunks = Vec::new();
    push_chunk(&mut chunks, b"fmt ", 16, &pcm_fmt_body(1, 44100, 0));
    push_chunk(&mut chunks, b"data", 0, &[]);
    let err = open(riff_wave(&chunks)).unwrap_err();
    assert_eq!(err, Error::FormatError(FormatErrorKind::InvalidBitsPerSample));
}

#[test]
fn extensible_zero_storage_width_fails() {
    // In the extensible layout the outer bit depth is the storage width;
    // zero would make samples occupy no bytes, so it is inconsistent.
    let mut chunks = Vec::new();
    push_chunk(&mut chunks, b"fmt ", 40, &extensible_fmt_body(1, 44100, 0, 16, &PCM_GUID));
    push_chunk(&mut chunks, b"data", 0, &[]);
    let err = open(riff_wave(&chunks)).unwrap_err();
    assert_eq!(err, Error::FormatError(FormatErrorKind::InconsistentFmtChunk));
}

#[test]
fn rejected_fmt_chunk_leaves_determined_position() {
    // A declared length below 16 is rejected before any byte is read.
    let mut c = Cursor::new(vec![0x11]);
    let err = WavReader::<Cursor>::read_fmt_chunk(&mut c, 15).unwrap_err();
    assert_eq!(err, Error::FormatError(FormatErrorKind::InvalidFmtChunkSize));
    assert_eq!(c.read_bytes(1).unwrap(), vec![0x11]);

    // An unknown format tag is rejected after exactly the 16 common bytes.
    let mut body = pcm_fmt_body(1, 44100, 16);
    body[0] = 0x03;
    body.extend_from_slice(&[0xab, 0xcd]);
    let mut c = Cursor::new(body);
    assert_eq!(WavReader::<Cursor>::read_fmt_chunk(&mut c, 16).unwrap_err(), Error::Unsupported);
    assert_eq!(c.read_bytes(2).unwrap(), vec![0xab, 0xcd]);

    // An extensible chunk whose declared length is below 40 is rejected
    // after the 16 common bytes, before any extension byte.
    let mut body = pcm_fmt_body(1, 44100, 16);
    body[0] = 0xfe;
    body[1] = 0xff;
    body.extend_from_slice(&[0x42]);
    let mut c = Cursor::new(body);
    let err = WavReader::<Cursor>::read_fmt_chunk(&mut c, 39).unwrap_err();
    assert_eq!(err, Error::FormatError(FormatErrorKind::UnexpectedFmtChunkSize));
    assert_eq!(c.read_bytes(1).unwrap(), vec![0x42]);
}
