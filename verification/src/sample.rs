//! The sample-decoding capability.
//!
//! A [`Sample`] type knows how to decode one value of itself from the next
//! few bytes of a byte source, given the count of meaningful bits per
//! sample that the stream declares. The container decoder treats this as a
//! capability: it decides *when* a sample may be decoded, the type decides
//! *how*.

use vstd::prelude::*;

use crate::source::le16;
use crate::source::signed16;
use crate::source::ByteSource;
use crate::source::ReadExt;
use crate::Error;

verus! {

/// Reinterprets an 8-bit unsigned value as a two's complement signed value.
pub open spec fn signed8(v: int) -> int {
    if v < 128 {
        v
    } else {
        v - 256
    }
}

/// A type that can be decoded from the sample bytes of a WAVE stream.
///
/// For a supported bit depth, `read` consumes exactly `width(bits)` bytes
/// and returns the value those bytes decode to; if too few bytes are left
/// it fails with [`Error::IoError`] after draining the source. For an
/// unsupported bit depth it fails with [`Error::Unsupported`] without
/// consuming anything.
pub trait Sample: Sized {
    /// Whether samples stored with `bits` meaningful bits can be decoded
    /// into this type.
    spec fn supports(bits: u16) -> bool;

    /// How many bytes one stored sample occupies.
    spec fn width(bits: u16) -> int;

    /// The value decoded from the first `width(bits)` bytes of `s`.
    spec fn decode(bits: u16, s: Seq<u8>) -> Self;

    /// Reads one sample of this type from the source.
    fn read<R: ByteSource>(reader: &mut R, bits: u16) -> (r: Result<Self, Error>)
        ensures
            !Self::supports(bits) ==> r == Err::<Self, Error>(Error::Unsupported)
                && final(reader).remaining() == old(reader).remaining(),
            Self::supports(bits) ==> {
                &&& Self::width(bits) >= 1
                &&& (r matches Ok(v) ==> {
                    &&& old(reader).remaining().len() >= Self::width(bits)
                    &&& v == Self::decode(bits, old(reader).remaining())
                    &&& final(reader).remaining() == old(reader).remaining().skip(
                        Self::width(bits),
                    )
                })
                &&& (r is Ok <==> old(reader).remaining().len() >= Self::width(bits))
                &&& (r is Err ==> r == Err::<Self, Error>(Error::IoError)
                    && final(reader).remaining().len() == 0)
            },
    ;
}

impl Sample for i16 {
    open spec fn supports(bits: u16) -> bool {
        bits == 16
    }

    open spec fn width(bits: u16) -> int {
        2
    }

    open spec fn decode(bits: u16, s: Seq<u8>) -> i16 {
        signed16(le16(s)) as i16
    }

    fn read<R: ByteSource>(reader: &mut R, bits: u16) -> (r: Result<i16, Error>) {
        if bits == 16 {
            reader.read_le_i16()
        } else {
            Err(Error::Unsupported)
        }
    }
}

impl Sample for i8 {
    open spec fn supports(bits: u16) -> bool {
        bits == 8
    }

    open spec fn width(bits: u16) -> int {
        1
    }

    open spec fn decode(bits: u16, s: Seq<u8>) -> i8 {
        signed8(s[0] as int) as i8
    }

    fn read<R: ByteSource>(reader: &mut R, bits: u16) -> (r: Result<i8, Error>) {
        if bits == 8 {
            match reader.read_bytes(1) {
                Ok(v) => {
                    let b = v[0];
                    proof {
                        assert(b < 128 ==> #[verifier::truncate] (b as i8) == b as int)
                            by (bit_vector);
                        assert(b >= 128 ==> #[verifier::truncate] (b as i8) == b as int - 256)
                            by (bit_vector);
                        assert(reader.remaining() =~= old(reader).remaining().skip(1));
                    }
                    Ok(#[verifier::truncate] (b as i8))
                },
                Err(e) => Err(e),
            }
        } else {
            Err(Error::Unsupported)
        }
    }
}

} // verus!
