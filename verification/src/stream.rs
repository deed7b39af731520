//! A sequential little-endian byte stream and its decoding model.
//!
//! `ByteStream` owns the raw bytes of a map file and a read position. Each
//! `read_*` method consumes a fixed number of bytes and returns the decoded
//! value, or `MapError::TruncatedInput`, consuming nothing, when too few bytes
//! remain. The spec functions `le16`, `le32`, `signed8/16/32` give the
//! mathematical meaning of each decode, and the `*_byte` functions give the
//! inverse (the byte layout of a value), so that round trips can be stated and
//! proved.

use vstd::prelude::*;

verus! {

/// The ways an operation on a map can fail: the stream ran out of bytes
/// mid-record, or a derived computation was asked about a record index
/// beyond the populated sequence.
#[derive(Debug, Clone, Copy, PartialEq, Eq, Structural)]
pub enum MapError {
    TruncatedInput,
    IndexOutOfRange,
}

/// The unsigned value of the two little-endian bytes at `i`.
pub open spec fn le16(d: Seq<u8>, i: int) -> int {
    d[i] + 0x100 * d[i + 1]
}

/// The unsigned value of the four little-endian bytes at `i`.
pub open spec fn le32(d: Seq<u8>, i: int) -> int {
    d[i] + 0x100 * d[i + 1] + 0x1_0000 * d[i + 2] + 0x100_0000 * d[i + 3]
}

/// Two's-complement reading of an 8-bit unsigned value.
pub open spec fn signed8(v: int) -> int {
    if v < 0x80 {
        v
    } else {
        v - 0x100
    }
}

/// Two's-complement reading of a 16-bit unsigned value.
pub open spec fn signed16(v: int) -> int {
    if v < 0x8000 {
        v
    } else {
        v - 0x1_0000
    }
}

/// Two's-complement reading of a 32-bit unsigned value.
pub open spec fn signed32(v: int) -> int {
    if v < 0x8000_0000 {
        v
    } else {
        v - 0x1_0000_0000
    }
}

/// Byte `k` (0 = least significant) of the little-endian layout of `v`.
pub open spec fn u16_byte(v: u16, k: int) -> u8 {
    if k == 0 {
        (v % 0x100) as u8
    } else {
        (v / 0x100) as u8
    }
}

/// Byte `k` (0 = least significant) of the little-endian layout of `v`.
pub open spec fn u32_byte(v: u32, k: int) -> u8 {
    if k == 0 {
        (v % 0x100) as u8
    } else if k == 1 {
        ((v / 0x100) % 0x100) as u8
    } else if k == 2 {
        ((v / 0x1_0000) % 0x100) as u8
    } else {
        (v / 0x100_0000) as u8
    }
}

/// The unsigned 8-bit representative of a signed byte.
pub open spec fn u8_rep_i8(v: i8) -> u8 {
    if v >= 0 {
        v as u8
    } else {
        (v + 0x100) as u8
    }
}

/// The unsigned 16-bit representative of a signed 16-bit value.
pub open spec fn u16_rep_i16(v: i16) -> u16 {
    if v >= 0 {
        v as u16
    } else {
        (v + 0x1_0000) as u16
    }
}

/// The unsigned 32-bit representative of a signed 32-bit value.
pub open spec fn u32_rep_i32(v: i32) -> u32 {
    if v >= 0 {
        v as u32
    } else {
        (v + 0x1_0000_0000) as u32
    }
}

/// Byte `k` of the little-endian layout of a signed 16-bit value.
pub open spec fn i16_byte(v: i16, k: int) -> u8 {
    u16_byte(u16_rep_i16(v), k)
}

/// Byte `k` of the little-endian layout of a signed 32-bit value.
pub open spec fn i32_byte(v: i32, k: int) -> u8 {
    u32_byte(u32_rep_i32(v), k)
}

/// Decoding the two layout bytes of `v` gives back `v`.
pub proof fn lemma_u16_round_trip(v: u16)
    ensures
        u16_byte(v, 0) + 0x100 * u16_byte(v, 1) == v,
{
    assert(v % 0x100 + 0x100 * (v / 0x100) == v) by (bit_vector);
}

/// Decoding the four layout bytes of `v` gives back `v`.
pub proof fn lemma_u32_round_trip(v: u32)
    ensures
        u32_byte(v, 0) + 0x100 * u32_byte(v, 1) + 0x1_0000 * u32_byte(v, 2) + 0x100_0000 * u32_byte(
            v,
            3,
        ) == v,
{
    assert(v % 0x100 + 0x100 * ((v / 0x100) % 0x100) + 0x1_0000 * ((v / 0x1_0000) % 0x100)
        + 0x100_0000 * (v / 0x100_0000) == v) by (bit_vector);
}

/// The signed reading of the unsigned representative gives back `v`.
pub proof fn lemma_i8_round_trip(v: i8)
    ensures
        signed8(u8_rep_i8(v) as int) == v,
{
}

/// The signed reading of the unsigned representative gives back `v`.
pub proof fn lemma_i16_round_trip(v: i16)
    ensures
        signed16(u16_rep_i16(v) as int) == v,
{
}

/// The signed reading of the unsigned representative gives back `v`.
pub proof fn lemma_i32_round_trip(v: i32)
    ensures
        signed32(u32_rep_i32(v) as int) == v,
{
}

/// A byte buffer read strictly front to back: the whole input, plus the
/// position of the next unread byte.
pub struct ByteStream {
    data: Vec<u8>,
    pos: usize,
}

impl ByteStream {
    /// The bytes the stream was created over; reads never change them.
    pub closed spec fn bytes(&self) -> Seq<u8> {
        self.data@
    }

    /// The position of the next unread byte.
    pub closed spec fn spec_pos(&self) -> int {
        self.pos as int
    }

    /// Wraps a byte buffer as a stream positioned at its start.
    pub fn new(data: Vec<u8>) -> (s: ByteStream)
        ensures
            s.bytes() == data@,
            s.spec_pos() == 0,
    {
        ByteStream { data, pos: 0 }
    }

    /// The current read position, for checking how much a parse consumed.
    pub fn position(&self) -> (r: usize)
        ensures
            r == self.spec_pos(),
    {
        self.pos
    }

    /// Whether at least `n` unread bytes remain.
    pub fn has_bytes(&self, n: usize) -> (r: bool)
        ensures
            r == (self.spec_pos() + n <= self.bytes().len()),
    {
        self.pos <= self.data.len() && n <= self.data.len() - self.pos
    }

    /// Moves the read position, used to undo a partial parse on failure.
    pub(crate) fn set_pos(&mut self, p: usize)
        ensures
            final(self).bytes() == old(self).bytes(),
            final(self).spec_pos() == p,
    {
        self.pos = p;
    }

    /// Reads one unsigned byte.
    pub fn read_u8(&mut self) -> (r: Result<u8, MapError>)
        ensures
            final(self).bytes() == old(self).bytes(),
            old(self).spec_pos() + 1 <= old(self).bytes().len() ==> {
                &&& r is Ok
                &&& r->Ok_0 == old(self).bytes()[old(self).spec_pos()]
                &&& final(self).spec_pos() == old(self).spec_pos() + 1
            },
            old(self).spec_pos() + 1 > old(self).bytes().len() ==> {
                &&& r == Err::<u8, MapError>(MapError::TruncatedInput)
                &&& final(self).spec_pos() == old(self).spec_pos()
            },
    {
        if self.pos <= self.data.len() && 1 <= self.data.len() - self.pos {
            let b = self.data[self.pos];
            self.pos = self.pos + 1;
            Ok(b)
        } else {
            Err(MapError::TruncatedInput)
        }
    }

    /// Reads a little-endian unsigned 16-bit value.
    pub fn read_u16(&mut self) -> (r: Result<u16, MapError>)
        ensures
            final(self).bytes() == old(self).bytes(),
            old(self).spec_pos() + 2 <= old(self).bytes().len() ==> {
                &&& r is Ok
                &&& r->Ok_0 == le16(old(self).bytes(), old(self).spec_pos())
                &&& final(self).spec_pos() == old(self).spec_pos() + 2
            },
            old(self).spec_pos() + 2 > old(self).bytes().len() ==> {
                &&& r == Err::<u16, MapError>(MapError::TruncatedInput)
                &&& final(self).spec_pos() == old(self).spec_pos()
            },
    {
        if self.pos <= self.data.len() && 2 <= self.data.len() - self.pos {
            let b0 = self.data[self.pos];
            let b1 = self.data[self.pos + 1];
            self.pos = self.pos + 2;
            Ok(b0 as u16 + b1 as u16 * 0x100)
        } else {
            Err(MapError::TruncatedInput)
        }
    }

    /// Reads a little-endian unsigned 32-bit value.
    pub fn read_u32(&mut self) -> (r: Result<u32, MapError>)
        ensures
            final(self).bytes() == old(self).bytes(),
            old(self).spec_pos() + 4 <= old(self).bytes().len() ==> {
                &&& r is Ok
                &&& r->Ok_0 == le32(old(self).bytes(), old(self).spec_pos())
                &&& final(self).spec_pos() == old(self).spec_pos() + 4
            },
            old(self).spec_pos() + 4 > old(self).bytes().len() ==> {
                &&& r == Err::<u32, MapError>(MapError::TruncatedInput)
                &&& final(self).spec_pos() == old(self).spec_pos()
            },
    {
        if self.pos <= self.data.len() && 4 <= self.data.len() - self.pos {
            let b0 = self.data[self.pos];
            let b1 = self.data[self.pos + 1];
            let b2 = self.data[self.pos + 2];
            let b3 = self.data[self.pos + 3];
            self.pos = self.pos + 4;
            Ok(b0 as u32 + b1 as u32 * 0x100 + b2 as u32 * 0x1_0000 + b3 as u32 * 0x100_0000)
        } else {
            Err(MapError::TruncatedInput)
        }
    }

    /// Reads a signed byte (two's complement).
    pub fn read_i8(&mut self) -> (r: Result<i8, MapError>)
        ensures
            final(self).bytes() == old(self).bytes(),
            old(self).spec_pos() + 1 <= old(self).bytes().len() ==> {
                &&& r is Ok
                &&& r->Ok_0 == signed8(old(self).bytes()[old(self).spec_pos()] as int)
                &&& final(self).spec_pos() == old(self).spec_pos() + 1
            },
            old(self).spec_pos() + 1 > old(self).bytes().len() ==> {
                &&& r == Err::<i8, MapError>(MapError::TruncatedInput)
                &&& final(self).spec_pos() == old(self).spec_pos()
            },
    {
        match self.read_u8() {
            Ok(v) => {
                if v < 0x80 {
                    Ok(v as i8)
                } else {
                    let m: i16 = 0x100 - v as i16;
                    Ok(-m as i8)
                }
            },
            Err(e) => Err(e),
        }
    }

    /// Reads a little-endian signed 16-bit value (two's complement).
    pub fn read_i16(&mut self) -> (r: Result<i16, MapError>)
        ensures
            final(self).bytes() == old(self).bytes(),
            old(self).spec_pos() + 2 <= old(self).bytes().len() ==> {
                &&& r is Ok
                &&& r->Ok_0 == signed16(le16(old(self).bytes(), old(self).spec_pos()))
                &&& final(self).spec_pos() == old(self).spec_pos() + 2
            },
            old(self).spec_pos() + 2 > old(self).bytes().len() ==> {
                &&& r == Err::<i16, MapError>(MapError::TruncatedInput)
                &&& final(self).spec_pos() == old(self).spec_pos()
            },
    {
        match self.read_u16() {
            Ok(v) => {
                if v < 0x8000 {
                    Ok(v as i16)
                } else {
                    let m: i32 = 0x1_0000 - v as i32;
                    Ok(-m as i16)
                }
            },
            Err(e) => Err(e),
        }
    }

    /// Reads a little-endian signed 32-bit value (two's complement).
    pub fn read_i32(&mut self) -> (r: Result<i32, MapError>)
        ensures
            final(self).bytes() == old(self).bytes(),
            old(self).spec_pos() + 4 <= old(self).bytes().len() ==> {
                &&& r is Ok
                &&& r->Ok_0 == signed32(le32(old(self).bytes(), old(self).spec_pos()))
                &&& final(self).spec_pos() == old(self).spec_pos() + 4
            },
            old(self).spec_pos() + 4 > old(self).bytes().len() ==> {
                &&& r == Err::<i32, MapError>(MapError::TruncatedInput)
                &&& final(self).spec_pos() == old(self).spec_pos()
            },
    {
        match self.read_u32() {
            Ok(v) => {
                if v < 0x8000_0000 {
                    Ok(v as i32)
                } else {
                    let m: i64 = 0x1_0000_0000 - v as i64;
                    Ok(-m as i32)
                }
            },
            Err(e) => Err(e),
        }
    }
}

} // verus!
