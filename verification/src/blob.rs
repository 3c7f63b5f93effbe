//! A cursor over the bytes of a class file. All multi-byte values are
//! big-endian. A read that would pass the end of the buffer fails with
//! `Truncated` and leaves the cursor where it was.

use vstd::prelude::*;
use vstd::utf8::{decode_utf8, valid_utf8};
use crate::errors::DecodeError;
use crate::text::text_from_utf8;

verus! {

/// The big-endian value of the two bytes at `at`.
pub open spec fn be16(bytes: Seq<u8>, at: int) -> int {
    bytes[at] as int * 0x100 + bytes[at + 1] as int
}

/// The big-endian value of the four bytes at `at`.
pub open spec fn be32(bytes: Seq<u8>, at: int) -> int {
    bytes[at] as int * 0x100_0000 + bytes[at + 1] as int * 0x1_0000 + bytes[at + 2] as int * 0x100
        + bytes[at + 3] as int
}

/// Whether `n` bytes can be read at `at`.
pub open spec fn in_bounds(bytes: Seq<u8>, at: int, n: int) -> bool {
    0 <= at && 0 <= n && at + n <= bytes.len()
}

pub struct Blob {
    pub data: Vec<u8>,
    pub offset: usize,
}

pub struct BlobView {
    pub bytes: Seq<u8>,
    pub offset: int,
}

impl View for Blob {
    type V = BlobView;

    open spec fn view(&self) -> BlobView {
        BlobView { bytes: self.data@, offset: self.offset as int }
    }
}

impl BlobView {
    /// The same bytes with the cursor `n` bytes further.
    pub open spec fn advanced(self, n: int) -> BlobView {
        BlobView { bytes: self.bytes, offset: self.offset + n }
    }
}

impl Blob {
    /// A cursor at the start of `data`.
    pub fn new(data: Vec<u8>) -> (blob: Blob)
        ensures
            blob@.bytes == data@,
            blob@.offset == 0,
    {
        Blob { data, offset: 0 }
    }

    /// Position of the cursor, in bytes from the start.
    pub fn get_offset(&self) -> (offset: usize)
        ensures
            offset == self@.offset,
    {
        self.offset
    }

    /// Puts the cursor back at the start.
    pub fn rewind(&mut self)
        ensures
            final(self)@.bytes == old(self)@.bytes,
            final(self)@.offset == 0,
    {
        self.offset = 0;
    }

    /// Whether at least one byte is left to read.
    pub fn has_more_data(&self) -> (more: bool)
        ensures
            more == in_bounds(self@.bytes, self@.offset, 1),
    {
        self.offset < self.data.len()
    }

    /// Whether `n` bytes are left to read.
    pub fn has(&self, n: usize) -> (enough: bool)
        ensures
            enough == in_bounds(self@.bytes, self@.offset, n as int),
            self@.bytes.len() <= usize::MAX,
    {
        let len: usize = self.data.len();
        self.offset <= len && n <= len - self.offset
    }

    /// Reads one byte.
    pub fn get_u8(&mut self) -> (r: Result<u8, DecodeError>)
        ensures
            match r {
                Ok(b) => in_bounds(old(self)@.bytes, old(self)@.offset, 1) && b == old(
                    self,
                )@.bytes[old(self)@.offset] && final(self)@ == old(self)@.advanced(1),
                Err(e) => !in_bounds(old(self)@.bytes, old(self)@.offset, 1) && e
                    == DecodeError::Truncated && final(self)@ == old(self)@,
            },
    {
        if !self.has(1) {
            return Err(DecodeError::Truncated);
        }
        let b: u8 = self.data[self.offset];
        self.offset = self.offset + 1;
        Ok(b)
    }

    /// Reads a big-endian 16-bit value.
    pub fn get_u16(&mut self) -> (r: Result<u16, DecodeError>)
        ensures
            match r {
                Ok(v) => in_bounds(old(self)@.bytes, old(self)@.offset, 2) && v == be16(
                    old(self)@.bytes,
                    old(self)@.offset,
                ) && final(self)@ == old(self)@.advanced(2),
                Err(e) => !in_bounds(old(self)@.bytes, old(self)@.offset, 2) && e
                    == DecodeError::Truncated && final(self)@ == old(self)@,
            },
    {
        if !self.has(2) {
            return Err(DecodeError::Truncated);
        }
        let hi: u16 = self.data[self.offset] as u16;
        let lo: u16 = self.data[self.offset + 1] as u16;
        self.offset = self.offset + 2;
        Ok(hi * 0x100 + lo)
    }

    /// Reads a big-endian 16-bit value as an index.
    pub fn get_u16size(&mut self) -> (r: Result<usize, DecodeError>)
        ensures
            match r {
                Ok(v) => in_bounds(old(self)@.bytes, old(self)@.offset, 2) && v == be16(
                    old(self)@.bytes,
                    old(self)@.offset,
                ) && final(self)@ == old(self)@.advanced(2),
                Err(e) => !in_bounds(old(self)@.bytes, old(self)@.offset, 2) && e
                    == DecodeError::Truncated && final(self)@ == old(self)@,
            },
    {
        match self.get_u16() {
            Ok(v) => Ok(v as usize),
            Err(e) => Err(e),
        }
    }

    /// Reads a big-endian 32-bit value.
    pub fn get_u32(&mut self) -> (r: Result<u32, DecodeError>)
        ensures
            match r {
                Ok(v) => in_bounds(old(self)@.bytes, old(self)@.offset, 4) && v == be32(
                    old(self)@.bytes,
                    old(self)@.offset,
                ) && final(self)@ == old(self)@.advanced(4),
                Err(e) => !in_bounds(old(self)@.bytes, old(self)@.offset, 4) && e
                    == DecodeError::Truncated && final(self)@ == old(self)@,
            },
    {
        if !self.has(4) {
            return Err(DecodeError::Truncated);
        }
        let a: u32 = self.data[self.offset] as u32;
        let b: u32 = self.data[self.offset + 1] as u32;
        let c: u32 = self.data[self.offset + 2] as u32;
        let d: u32 = self.data[self.offset + 3] as u32;
        self.offset = self.offset + 4;
        Ok(a * 0x100_0000 + b * 0x1_0000 + c * 0x100 + d)
    }

    /// Reads the next `n` bytes.
    pub fn get_bytes(&mut self, n: usize) -> (r: Result<Vec<u8>, DecodeError>)
        ensures
            match r {
                Ok(v) => in_bounds(old(self)@.bytes, old(self)@.offset, n as int) && v@ == old(
                    self,
                )@.bytes.subrange(old(self)@.offset, old(self)@.offset + n) && final(self)@ == old(
                    self,
                )@.advanced(n as int),
                Err(e) => !in_bounds(old(self)@.bytes, old(self)@.offset, n as int) && e
                    == DecodeError::Truncated && final(self)@ == old(self)@,
            },
    {
        if !self.has(n) {
            return Err(DecodeError::Truncated);
        }
        let start: usize = self.offset;
        let mut out: Vec<u8> = Vec::new();
        let mut i: usize = 0;
        while i < n
            invariant
                i <= n,
                start + n <= self.data.len(),
                out.len() == i,
                forall|k: int| 0 <= k < i ==> out@[k] == self.data@[start + k],
            decreases n - i,
        {
            out.push(self.data[start + i]);
            i += 1;
        }
        self.offset = start + n;
        assert(out@ =~= old(self)@.bytes.subrange(start as int, start + n));
        Ok(out)
    }

    /// Reads the next `n` bytes as a blob of their own, its cursor at its
    /// start.
    pub fn get_blob(&mut self, n: usize) -> (r: Result<Blob, DecodeError>)
        ensures
            match r {
                Ok(b) => in_bounds(old(self)@.bytes, old(self)@.offset, n as int) && b@.bytes
                    == old(self)@.bytes.subrange(old(self)@.offset, old(self)@.offset + n)
                    && b@.offset == 0 && final(self)@ == old(self)@.advanced(n as int),
                Err(e) => !in_bounds(old(self)@.bytes, old(self)@.offset, n as int) && e
                    == DecodeError::Truncated && final(self)@ == old(self)@,
            },
    {
        match self.get_bytes(n) {
            Ok(v) => Ok(Blob::new(v)),
            Err(e) => Err(e),
        }
    }

    /// Moves the cursor `n` bytes further.
    pub fn skip(&mut self, n: usize) -> (r: Result<(), DecodeError>)
        ensures
            match r {
                Ok(()) => in_bounds(old(self)@.bytes, old(self)@.offset, n as int) && final(self)@
                    == old(self)@.advanced(n as int),
                Err(e) => !in_bounds(old(self)@.bytes, old(self)@.offset, n as int) && e
                    == DecodeError::Truncated && final(self)@ == old(self)@,
            },
    {
        if !self.has(n) {
            return Err(DecodeError::Truncated);
        }
        self.offset = self.offset + n;
        Ok(())
    }

    /// Reads the next `n` bytes as UTF-8 text. Where the bytes are there but
    /// are not well-formed UTF-8, the cursor has passed them and the error is
    /// `InvalidUtf8`.
    pub fn get_string(&mut self, n: usize) -> (r: Result<String, DecodeError>)
        ensures
            match r {
                Ok(s) => in_bounds(old(self)@.bytes, old(self)@.offset, n as int) && valid_utf8(
                    old(self)@.bytes.subrange(old(self)@.offset, old(self)@.offset + n),
                ) && s@ == decode_utf8(
                    old(self)@.bytes.subrange(old(self)@.offset, old(self)@.offset + n),
                ) && final(self)@ == old(self)@.advanced(n as int),
                Err(e) => if in_bounds(old(self)@.bytes, old(self)@.offset, n as int) {
                    !valid_utf8(
                        old(self)@.bytes.subrange(old(self)@.offset, old(self)@.offset + n),
                    ) && e == DecodeError::InvalidUtf8 && final(self)@ == old(self)@.advanced(
                        n as int,
                    )
                } else {
                    e == DecodeError::Truncated && final(self)@ == old(self)@
                },
            },
    {
        match self.get_bytes(n) {
            Err(e) => Err(e),
            Ok(bytes) => match text_from_utf8(bytes) {
                Some(s) => Ok(s),
                None => Err(DecodeError::InvalidUtf8),
            },
        }
    }
}

} // verus!
