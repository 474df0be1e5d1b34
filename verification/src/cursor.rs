//! Byte cursor, the primitive readers, and the shape every record decoder has.

use vstd::prelude::*;

verus! {

/// `n` bytes are present in `s` from offset `at` on.
pub open spec fn fits(s: Seq<u8>, at: int, n: int) -> bool {
    0 <= at && at + n <= s.len()
}

/// The little-endian 16-bit word that starts at `s[at]`.
pub open spec fn le_u16(s: Seq<u8>, at: int) -> int {
    s[at] as int + 256 * (s[at + 1] as int)
}

/// The little-endian 32-bit word that starts at `s[at]`.
pub open spec fn le_u32(s: Seq<u8>, at: int) -> int {
    s[at] as int + 256 * (s[at + 1] as int) + 65536 * (s[at + 2] as int) + 16777216 * (s[at
        + 3] as int)
}

/// The little-endian 64-bit word that starts at `s[at]`.
pub open spec fn le_u64(s: Seq<u8>, at: int) -> int {
    le_u32(s, at) + 4294967296 * le_u32(s, at + 4)
}

/// The big-endian 32-bit word that starts at `s[at]`.
pub open spec fn be_u32(s: Seq<u8>, at: int) -> int {
    16777216 * (s[at] as int) + 65536 * (s[at + 1] as int) + 256 * (s[at + 2] as int) + (s[at
        + 3] as int)
}

pub open spec fn parse_u8(s: Seq<u8>, at: int) -> Option<(u8, int)> {
    if fits(s, at, 1) {
        Some((s[at], at + 1))
    } else {
        None
    }
}

pub open spec fn parse_u16_le(s: Seq<u8>, at: int) -> Option<(u16, int)> {
    if fits(s, at, 2) {
        Some((le_u16(s, at) as u16, at + 2))
    } else {
        None
    }
}

pub open spec fn parse_u32_le(s: Seq<u8>, at: int) -> Option<(u32, int)> {
    if fits(s, at, 4) {
        Some((le_u32(s, at) as u32, at + 4))
    } else {
        None
    }
}

pub open spec fn parse_u64_le(s: Seq<u8>, at: int) -> Option<(u64, int)> {
    if fits(s, at, 8) {
        Some((le_u64(s, at) as u64, at + 8))
    } else {
        None
    }
}

pub open spec fn parse_u32_be(s: Seq<u8>, at: int) -> Option<(u32, int)> {
    if fits(s, at, 4) {
        Some((be_u32(s, at) as u32, at + 4))
    } else {
        None
    }
}

/// Skipping `n` bytes succeeds exactly when they are present.
pub open spec fn parse_skip(s: Seq<u8>, at: int, n: int) -> Option<int> {
    if fits(s, at, n) {
        Some(at + n)
    } else {
        None
    }
}

/// What a primitive read that yields `r` says of the cursor: where the spec
/// parser gives a value, that value and the offset behind it; where it gives
/// none, none, with the cursor where it was.
pub open spec fn primitive_read<V>(
    parsed: Option<(V, int)>,
    r: Option<V>,
    before: int,
    after: int,
) -> bool {
    match r {
        Some(v) => parsed == Some((v, after)),
        None => parsed is None && after == before,
    }
}

/// A read position over a borrowed byte buffer.
///
/// The position may lie beyond the end of the buffer; every read from such a
/// position fails. A failed primitive read leaves the position where it was.
pub struct Cursor<'a> {
    data: &'a [u8],
    pos: u64,
}

impl<'a> Cursor<'a> {
    /// The buffer the cursor reads from.
    pub closed spec fn bytes(&self) -> Seq<u8> {
        self.data@
    }

    /// The offset of the next byte to be read.
    pub closed spec fn offset(&self) -> int {
        self.pos as int
    }

    /// A cursor at the start of `data`.
    pub fn new(data: &'a [u8]) -> (c: Self)
        ensures
            c.bytes() == data@,
            c.offset() == 0,
    {
        Cursor { data, pos: 0 }
    }

    /// The offset of the next byte to be read.
    pub fn position(&self) -> (p: u64)
        ensures
            p == self.offset(),
    {
        self.pos
    }

    /// Moves to an absolute offset, which may lie beyond the end of the buffer.
    pub fn seek_to(&mut self, target: u64)
        ensures
            final(self).bytes() == old(self).bytes(),
            final(self).offset() == target,
    {
        self.pos = target;
    }

    /// Number of bytes between the position and the end of the buffer.
    pub fn remaining(&self) -> (n: u64)
        ensures
            n == if self.offset() <= self.bytes().len() {
                self.bytes().len() - self.offset()
            } else {
                0
            },
    {
        let len: u64 = self.data.len() as u64;
        if self.pos <= len {
            len - self.pos
        } else {
            0
        }
    }

    /// The next byte, without consuming it.
    pub fn peek_u8(&self) -> (r: Option<u8>)
        ensures
            r == match parse_u8(self.bytes(), self.offset()) {
                Some((b, _)) => Some(b),
                None => None,
            },
    {
        if self.remaining() < 1 {
            return None;
        }
        Some(self.data[self.pos as usize])
    }

    /// Reads one byte.
    pub fn read_u8(&mut self) -> (r: Option<u8>)
        ensures
            final(self).bytes() == old(self).bytes(),
            primitive_read(
                parse_u8(old(self).bytes(), old(self).offset()),
                r,
                old(self).offset(),
                final(self).offset(),
            ),
    {
        if self.remaining() < 1 {
            return None;
        }
        let v: u8 = self.data[self.pos as usize];
        self.pos = self.pos + 1;
        Some(v)
    }

    /// Reads a little-endian 16-bit word.
    pub fn read_u16_le(&mut self) -> (r: Option<u16>)
        ensures
            final(self).bytes() == old(self).bytes(),
            primitive_read(
                parse_u16_le(old(self).bytes(), old(self).offset()),
                r,
                old(self).offset(),
                final(self).offset(),
            ),
    {
        if self.remaining() < 2 {
            return None;
        }
        let i: usize = self.pos as usize;
        let b0: u16 = self.data[i] as u16;
        let b1: u16 = self.data[i + 1] as u16;
        self.pos = self.pos + 2;
        Some(b0 + b1 * 256)
    }

    /// Reads a little-endian 32-bit word.
    pub fn read_u32_le(&mut self) -> (r: Option<u32>)
        ensures
            final(self).bytes() == old(self).bytes(),
            primitive_read(
                parse_u32_le(old(self).bytes(), old(self).offset()),
                r,
                old(self).offset(),
                final(self).offset(),
            ),
    {
        if self.remaining() < 4 {
            return None;
        }
        let i: usize = self.pos as usize;
        let b0: u32 = self.data[i] as u32;
        let b1: u32 = self.data[i + 1] as u32;
        let b2: u32 = self.data[i + 2] as u32;
        let b3: u32 = self.data[i + 3] as u32;
        self.pos = self.pos + 4;
        Some(b0 + b1 * 256 + b2 * 65536 + b3 * 16777216)
    }

    /// Reads a little-endian 64-bit word.
    pub fn read_u64_le(&mut self) -> (r: Option<u64>)
        ensures
            final(self).bytes() == old(self).bytes(),
            primitive_read(
                parse_u64_le(old(self).bytes(), old(self).offset()),
                r,
                old(self).offset(),
                final(self).offset(),
            ),
    {
        if self.remaining() < 8 {
            return None;
        }
        let i: usize = self.pos as usize;
        let b0: u64 = self.data[i] as u64;
        let b1: u64 = self.data[i + 1] as u64;
        let b2: u64 = self.data[i + 2] as u64;
        let b3: u64 = self.data[i + 3] as u64;
        let b4: u64 = self.data[i + 4] as u64;
        let b5: u64 = self.data[i + 5] as u64;
        let b6: u64 = self.data[i + 6] as u64;
        let b7: u64 = self.data[i + 7] as u64;
        let lo: u64 = b0 + b1 * 256 + b2 * 65536 + b3 * 16777216;
        let hi: u64 = b4 + b5 * 256 + b6 * 65536 + b7 * 16777216;
        self.pos = self.pos + 8;
        Some(lo + hi * 4294967296)
    }

    /// Reads a big-endian 32-bit word.
    pub fn read_u32_be(&mut self) -> (r: Option<u32>)
        ensures
            final(self).bytes() == old(self).bytes(),
            primitive_read(
                parse_u32_be(old(self).bytes(), old(self).offset()),
                r,
                old(self).offset(),
                final(self).offset(),
            ),
    {
        if self.remaining() < 4 {
            return None;
        }
        let i: usize = self.pos as usize;
        let b0: u32 = self.data[i] as u32;
        let b1: u32 = self.data[i + 1] as u32;
        let b2: u32 = self.data[i + 2] as u32;
        let b3: u32 = self.data[i + 3] as u32;
        self.pos = self.pos + 4;
        Some(b0 * 16777216 + b1 * 65536 + b2 * 256 + b3)
    }

    /// Steps over `n` bytes that must be present.
    pub fn skip(&mut self, n: u64) -> (r: Option<()>)
        ensures
            final(self).bytes() == old(self).bytes(),
            match r {
                Some(_) => parse_skip(old(self).bytes(), old(self).offset(), n as int) == Some(
                    final(self).offset(),
                ),
                None => parse_skip(old(self).bytes(), old(self).offset(), n as int) is None
                    && final(self).offset() == old(self).offset(),
            },
    {
        let len: u64 = self.data.len() as u64;
        if self.pos > len || len - self.pos < n {
            return None;
        }
        self.pos = self.pos + n;
        Some(())
    }
}

} // verus!
