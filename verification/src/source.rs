//! Byte sources and the primitive little-endian readers built on them.
//!
//! A [`ByteSource`] hands out bytes from the front of an abstract remaining
//! sequence; it may return fewer bytes than requested per call, but it makes
//! progress whenever bytes remain, so a short read means the source is
//! exhausted. [`ReadExt`] builds exact-count and little-endian integer reads
//! on that primitive; it is implemented for every byte source.

use vstd::prelude::*;

use crate::Error;

verus! {

/// The little-endian value of the first two bytes of `s`.
pub open spec fn le16(s: Seq<u8>) -> int {
    s[0] + 256 * s[1]
}

/// The little-endian value of the first four bytes of `s`.
pub open spec fn le32(s: Seq<u8>) -> int {
    s[0] + 256 * s[1] + 65536 * s[2] + 16777216 * s[3]
}

/// Reinterprets a 16-bit unsigned value as a two's complement signed value.
pub open spec fn signed16(v: int) -> int {
    if v < 32768 {
        v
    } else {
        v - 65536
    }
}

/// A source of bytes, consumed strictly from front to back.
///
/// The specification models the source as the sequence of bytes it has not
/// yet handed out. A call to `read` may deliver fewer bytes than requested,
/// but delivers at least one whenever any remain, so a return of zero
/// (with room in the buffer) signals that the source is exhausted.
pub trait ByteSource: Sized {
    /// The bytes that have not been handed out yet.
    spec fn remaining(&self) -> Seq<u8>;

    /// Reads up to `buf.len() - start` bytes into `buf[start..]`, returning
    /// how many were delivered.
    fn read(&mut self, buf: &mut Vec<u8>, start: usize) -> (n: usize)
        requires
            start <= old(buf).len(),
        ensures
            n <= old(buf)@.len() - start,
            n <= old(self).remaining().len(),
            final(buf)@.len() == old(buf)@.len(),
            final(buf)@ == old(buf)@.take(start as int) + old(self).remaining().take(n as int)
                + old(buf)@.skip(start + n),
            final(self).remaining() == old(self).remaining().skip(n as int),
            n == 0 && start < old(buf)@.len() ==> old(self).remaining().len() == 0,
    ;
}

/// Exact-count and little-endian reads on top of a [`ByteSource`].
///
/// Each method either delivers exactly what was asked for or fails with
/// [`Error::IoError`]; a failure happens precisely when the source holds
/// fewer bytes than requested, and it drains the source.
pub trait ReadExt: ByteSource {
    /// Fills all of `buf`, or fails after draining the source.
    fn read_into(&mut self, buf: &mut Vec<u8>) -> (r: Result<(), Error>)
        ensures
            final(buf)@.len() == old(buf)@.len(),
            r is Ok <==> old(buf)@.len() <= old(self).remaining().len(),
            r is Ok ==> final(buf)@ == old(self).remaining().take(old(buf)@.len() as int)
                && final(self).remaining() == old(self).remaining().skip(old(buf)@.len() as int),
            r is Err ==> r == Err::<(), Error>(Error::IoError)
                && final(self).remaining().len() == 0,
    ;

    /// Reads exactly `n` bytes and returns them in a vector.
    fn read_bytes(&mut self, n: usize) -> (r: Result<Vec<u8>, Error>)
        ensures
            r is Ok <==> n <= old(self).remaining().len(),
            r matches Ok(v) ==> v@ == old(self).remaining().take(n as int)
                && final(self).remaining() == old(self).remaining().skip(n as int),
            r is Err ==> r == Err::<Vec<u8>, Error>(Error::IoError)
                && final(self).remaining().len() == 0,
    ;

    /// Reads two bytes as a little-endian unsigned integer.
    fn read_le_u16(&mut self) -> (r: Result<u16, Error>)
        ensures
            r is Ok <==> old(self).remaining().len() >= 2,
            r matches Ok(v) ==> v == le16(old(self).remaining())
                && final(self).remaining() == old(self).remaining().skip(2),
            r is Err ==> r == Err::<u16, Error>(Error::IoError)
                && final(self).remaining().len() == 0,
    ;

    /// Reads two bytes as a little-endian signed integer.
    fn read_le_i16(&mut self) -> (r: Result<i16, Error>)
        ensures
            r is Ok <==> old(self).remaining().len() >= 2,
            r matches Ok(v) ==> v == signed16(le16(old(self).remaining()))
                && final(self).remaining() == old(self).remaining().skip(2),
            r is Err ==> r == Err::<i16, Error>(Error::IoError)
                && final(self).remaining().len() == 0,
    ;

    /// Reads four bytes as a little-endian unsigned integer.
    fn read_le_u32(&mut self) -> (r: Result<u32, Error>)
        ensures
            r is Ok <==> old(self).remaining().len() >= 4,
            r matches Ok(v) ==> v == le32(old(self).remaining())
                && final(self).remaining() == old(self).remaining().skip(4),
            r is Err ==> r == Err::<u32, Error>(Error::IoError)
                && final(self).remaining().len() == 0,
    ;
}

impl<R: ByteSource> ReadExt for R {
    fn read_into(&mut self, buf: &mut Vec<u8>) -> (r: Result<(), Error>) {
        let ghost orig = self.remaining();
        let mut n: usize = 0;
        while n < buf.len()
            invariant
                orig == old(self).remaining(),
                n <= buf@.len(),
                buf@.len() == old(buf)@.len(),
                n <= orig.len(),
                buf@.take(n as int) == orig.take(n as int),
                self.remaining() == orig.skip(n as int),
            decreases buf@.len() - n,
        {
            let progress = self.read(buf, n);
            if progress > 0 {
                proof {
                    assert(orig.skip(n as int).skip(progress as int)
                        =~= orig.skip(n + progress));
                    assert(buf@.take(n as int) + orig.skip(n as int).take(progress as int)
                        =~= orig.take(n + progress));
                    assert((orig.take(n + progress) + old(buf)@.skip(n + progress))
                        .take(n + progress) =~= orig.take(n + progress));
                }
                n += progress;
            } else {
                proof {
                    assert(orig.skip(n as int).len() == orig.len() - n);
                }
                return Err(Error::IoError);
            }
        }
        proof {
            assert(buf@.take(buf@.len() as int) =~= buf@);
        }
        Ok(())
    }

    fn read_bytes(&mut self, n: usize) -> (r: Result<Vec<u8>, Error>) {
        let mut buf: Vec<u8> = vec![0u8; n];
        match self.read_into(&mut buf) {
            Ok(()) => Ok(buf),
            Err(e) => Err(e),
        }
    }

    fn read_le_u16(&mut self) -> (r: Result<u16, Error>) {
        let mut buf: Vec<u8> = vec![0u8; 2];
        match self.read_into(&mut buf) {
            Ok(()) => Ok((buf[1] as u16) * 256 + (buf[0] as u16)),
            Err(e) => Err(e),
        }
    }

    fn read_le_i16(&mut self) -> (r: Result<i16, Error>) {
        match self.read_le_u16() {
            Ok(v) => {
                proof {
                    assert(v < 32768 ==> #[verifier::truncate] (v as i16) == v as int)
                        by (bit_vector);
                    assert(v >= 32768 ==> #[verifier::truncate] (v as i16) == v as int - 65536)
                        by (bit_vector);
                }
                Ok(#[verifier::truncate] (v as i16))
            },
            Err(e) => Err(e),
        }
    }

    fn read_le_u32(&mut self) -> (r: Result<u32, Error>) {
        let mut buf: Vec<u8> = vec![0u8; 4];
        match self.read_into(&mut buf) {
            Ok(()) => Ok(
                (buf[3] as u32) * 16777216 + (buf[2] as u32) * 65536 + (buf[1] as u32) * 256
                    + (buf[0] as u32),
            ),
            Err(e) => Err(e),
        }
    }
}

/// An in-memory byte source that hands out a vector of bytes front to back.
#[derive(Debug)]
pub struct Cursor {
    data: Vec<u8>,
    pos: usize,
}

impl Cursor {
    /// Wraps a vector of bytes in a source that will hand them all out.
    pub fn new(data: Vec<u8>) -> (r: Cursor)
        ensures
            r.remaining() == data@,
    {
        Cursor { data, pos: 0 }
    }
}

impl ByteSource for Cursor {
    closed spec fn remaining(&self) -> Seq<u8> {
        if self.pos <= self.data@.len() {
            self.data@.skip(self.pos as int)
        } else {
            Seq::empty()
        }
    }

    fn read(&mut self, buf: &mut Vec<u8>, start: usize) -> (n: usize) {
        if self.pos >= self.data.len() {
            proof {
                assert(buf@ =~= buf@.take(start as int) + self.remaining().take(0)
                    + buf@.skip(start as int));
            }
            return 0;
        }
        let avail: usize = self.data.len() - self.pos;
        let room: usize = buf.len() - start;
        let want: usize = if avail < room {
            avail
        } else {
            room
        };
        let ghost rem0 = self.remaining();
        let ghost buf0 = buf@;
        let mut i: usize = 0;
        while i < want
            invariant
                i <= want,
                start + want <= buf@.len(),
                buf@.len() <= usize::MAX,
                self.pos + want <= self.data@.len(),
                self.data@.len() <= usize::MAX,
                self.pos <= self.data@.len(),
                want <= rem0.len(),
                buf@.len() == buf0.len(),
                rem0 == self.data@.skip(self.pos as int),
                buf@ == buf0.take(start as int) + rem0.take(i as int)
                    + buf0.skip(start + i),
            decreases want - i,
        {
            let b = self.data[self.pos + i];
            buf.set(start + i, b);
            proof {
                assert(buf@ =~= buf0.take(start as int) + rem0.take(i + 1)
                    + buf0.skip(start + i + 1));
            }
            i += 1;
        }
        self.pos = self.pos + want;
        proof {
            assert(self.remaining() =~= rem0.skip(want as int));
        }
        want
    }
}

} // verus!
