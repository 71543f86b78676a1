//! A forward-only little-endian reader over a bridge datagram.

use vstd::prelude::*;

use super::error::DecodeError;
use crate::telemetry::model::Real;

verus! {

/// The little-endian value of four bytes.
pub open spec fn le_u32(s: Seq<u8>) -> int {
    s[0] + 256 * s[1] + 65536 * s[2] + 16777216 * s[3]
}

/// The little-endian value of eight bytes.
pub open spec fn le_u64(s: Seq<u8>) -> int {
    le_u32(s.subrange(0, 4)) + 4294967296 * le_u32(s.subrange(4, 8))
}

/// The two's-complement value of four little-endian bytes.
pub open spec fn le_i32(s: Seq<u8>) -> int {
    if le_u32(s) < 2147483648 {
        le_u32(s)
    } else {
        le_u32(s) - 4294967296
    }
}

/// A reader that takes fields from the front of a datagram in order.
#[derive(Debug, Clone)]
pub struct Cursor<'a> {
    bytes: &'a [u8],
    offset: usize,
}

impl<'a> Cursor<'a> {
    /// The datagram being read.
    pub closed spec fn data(&self) -> Seq<u8> {
        self.bytes@
    }

    /// How many bytes have been read.
    pub closed spec fn position(&self) -> nat {
        self.offset as nat
    }

    /// Whether the position lies within the datagram.
    pub closed spec fn wf(&self) -> bool {
        self.offset <= self.bytes@.len()
    }

    /// How many bytes are left to read.
    pub open spec fn left(&self) -> nat {
        (self.data().len() - self.position()) as nat
    }

    /// What reading `len` more bytes gives: the bytes at the position, or the
    /// shortfall at that offset.
    pub open spec fn taken(&self, len: nat) -> Result<Seq<u8>, DecodeError> {
        if self.left() < len {
            Err(DecodeError::UnexpectedEnd {
                offset: self.position() as usize,
                needed: len as usize,
                remaining: self.left() as usize,
            })
        } else {
            Ok(self.data().subrange(self.position() as int, (self.position() + len) as int))
        }
    }

    /// The reader after an attempt to read `len` bytes: advanced past them,
    /// or where it was when they were not there.
    pub open spec fn advanced(&self, len: nat) -> nat {
        if self.left() < len {
            self.position()
        } else {
            self.position() + len
        }
    }

    /// A reader at the start of `bytes`.
    pub fn new(bytes: &'a [u8]) -> (c: Cursor<'a>)
        ensures
            c.wf(),
            c.data() == bytes@,
            c.position() == 0,
    {
        Cursor { bytes, offset: 0 }
    }

    /// Takes the next `len` bytes.
    fn take(&mut self, len: usize) -> (r: Result<&'a [u8], DecodeError>)
        requires
            old(self).wf(),
        ensures
            final(self).wf(),
            final(self).data() == old(self).data(),
            final(self).position() == old(self).advanced(len as nat),
            match (r, old(self).taken(len as nat)) {
                (Ok(s), Ok(t)) => s@ == t,
                (Err(e), Err(t)) => e == t,
                _ => false,
            },
    {
        let remaining = self.bytes.len() - self.offset;
        if remaining < len {
            return Err(DecodeError::UnexpectedEnd { offset: self.offset, needed: len, remaining });
        }
        let end = self.offset + len;
        let taken = vstd::slice::slice_subrange(self.bytes, self.offset, end);
        self.offset = end;
        Ok(taken)
    }

    /// Reads the next `LENGTH` bytes as an array.
    pub fn read_array<const LENGTH: usize>(&mut self) -> (r: Result<[u8; LENGTH], DecodeError>)
        requires
            old(self).wf(),
        ensures
            final(self).wf(),
            final(self).data() == old(self).data(),
            final(self).position() == old(self).advanced(LENGTH as nat),
            match (r, old(self).taken(LENGTH as nat)) {
                (Ok(a), Ok(t)) => a@ == t,
                (Err(e), Err(t)) => e == t,
                _ => false,
            },
    {
        let taken = self.take(LENGTH)?;
        let mut value = [0u8; LENGTH];
        let mut i: usize = 0;
        while i < LENGTH
            invariant
                i <= LENGTH,
                taken@.len() == LENGTH,
                value@.len() == LENGTH,
                forall|j: int| 0 <= j < i ==> value@[j] == taken@[j],
            decreases LENGTH - i,
        {
            value.set(i, taken[i]);
            i = i + 1;
        }
        assert(value@ =~= taken@);
        Ok(value)
    }

    /// Reads one byte.
    pub fn read_u8(&mut self) -> (r: Result<u8, DecodeError>)
        requires
            old(self).wf(),
        ensures
            final(self).wf(),
            final(self).data() == old(self).data(),
            final(self).position() == old(self).advanced(1),
            match (r, old(self).taken(1)) {
                (Ok(v), Ok(t)) => v == t[0],
                (Err(e), Err(t)) => e == t,
                _ => false,
            },
    {
        let taken = self.take(1)?;
        Ok(taken[0])
    }

    /// Reads a little-endian `u32`.
    pub fn read_u32_le(&mut self) -> (r: Result<u32, DecodeError>)
        requires
            old(self).wf(),
        ensures
            final(self).wf(),
            final(self).data() == old(self).data(),
            final(self).position() == old(self).advanced(4),
            match (r, old(self).taken(4)) {
                (Ok(v), Ok(t)) => v == le_u32(t),
                (Err(e), Err(t)) => e == t,
                _ => false,
            },
    {
        let taken = self.take(4)?;
        Ok(u32_of(taken))
    }

    /// Reads a little-endian two's-complement `i32`.
    pub fn read_i32_le(&mut self) -> (r: Result<i32, DecodeError>)
        requires
            old(self).wf(),
        ensures
            final(self).wf(),
            final(self).data() == old(self).data(),
            final(self).position() == old(self).advanced(4),
            match (r, old(self).taken(4)) {
                (Ok(v), Ok(t)) => v == le_i32(t),
                (Err(e), Err(t)) => e == t,
                _ => false,
            },
    {
        let taken = self.take(4)?;
        let unsigned = u32_of(taken);
        if unsigned < 2147483648 {
            Ok(unsigned as i32)
        } else {
            let shifted: i64 = unsigned as i64 - 4294967296;
            Ok(shifted as i32)
        }
    }

    /// Reads a little-endian `u64`.
    pub fn read_u64_le(&mut self) -> (r: Result<u64, DecodeError>)
        requires
            old(self).wf(),
        ensures
            final(self).wf(),
            final(self).data() == old(self).data(),
            final(self).position() == old(self).advanced(8),
            match (r, old(self).taken(8)) {
                (Ok(v), Ok(t)) => v == le_u64(t),
                (Err(e), Err(t)) => e == t,
                _ => false,
            },
    {
        let taken = self.take(8)?;
        let low = u32_of(vstd::slice::slice_subrange(taken, 0, 4));
        let high = u32_of(vstd::slice::slice_subrange(taken, 4, 8));
        Ok(low as u64 + high as u64 * 4294967296)
    }

    /// Reads a little-endian `f32`, as its bit pattern.
    pub fn read_f32_le(&mut self) -> (r: Result<Real, DecodeError>)
        requires
            old(self).wf(),
        ensures
            final(self).wf(),
            final(self).data() == old(self).data(),
            final(self).position() == old(self).advanced(4),
            match (r, old(self).taken(4)) {
                (Ok(v), Ok(t)) => v.bits == le_u32(t),
                (Err(e), Err(t)) => e == t,
                _ => false,
            },
    {
        let bits = self.read_u32_le()?;
        Ok(Real { bits })
    }
}

/// The little-endian value of four bytes.
fn u32_of(s: &[u8]) -> (v: u32)
    requires
        s@.len() == 4,
    ensures
        v == le_u32(s@),
{
    s[0] as u32 + s[1] as u32 * 256 + s[2] as u32 * 65536 + s[3] as u32 * 16777216
}

} // verus!
