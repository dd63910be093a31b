//! Bounds-checked byte buffers: a write-only view and a read-only view over a
//! byte region, with offset-addressed little-endian primitive access.
//!
//! Every access is bounds-checked against the buffer's length by its
//! precondition; a verified caller can never access out of range.

use vstd::prelude::*;
use vstd::bytes::{u16_to_le_bytes, u32_to_le_bytes, u64_to_le_bytes};
use vstd::bytes::{u16_from_le_bytes, u32_from_le_bytes, u64_from_le_bytes};
use vstd::bytes::{spec_u16_to_le_bytes, spec_u32_to_le_bytes, spec_u64_to_le_bytes};
use vstd::slice::slice_subrange;
use crate::wire::{
    store_bytes, lemma_store_bytes, read_u8, read_i8, read_u16, read_i16, read_u32, read_i32,
    read_u64, read_i64, spec_i8_to_le_bytes, spec_i16_to_le_bytes, spec_i32_to_le_bytes,
    spec_i64_to_le_bytes,
};

verus! {

/// A write-only buffer owning a byte region.
#[derive(Debug)]
pub struct WriteBuf {
    data: Vec<u8>,
}

impl View for WriteBuf {
    type V = Seq<u8>;

    closed spec fn view(&self) -> Seq<u8> {
        self.data@
    }
}

impl WriteBuf {
    pub fn new(data: Vec<u8>) -> (r: WriteBuf)
        ensures
            r@ == data@,
    {
        WriteBuf { data }
    }

    /// Hands the written bytes back; the buffer is consumed.
    pub fn into_vec(self) -> (r: Vec<u8>)
        ensures
            r@ == self@,
    {
        self.data
    }

    pub fn len(&self) -> (r: usize)
        ensures
            r == self@.len(),
    {
        self.data.len()
    }

    pub fn put_slice_at(&mut self, offset: usize, value: &[u8])
        requires
            offset + value@.len() <= old(self)@.len(),
        ensures
            final(self)@ == store_bytes(old(self)@, offset as int, value@),
            final(self)@.len() == old(self)@.len(),
    {
        let n = self.data.len();
        assert(offset + value@.len() <= n);
        let mut i: usize = 0;
        while i < value.len()
            invariant
                i <= value@.len(),
                n == self@.len(),
                offset + value@.len() <= self@.len(),
                self@.len() == old(self)@.len(),
                forall|j: int| 0 <= j < i ==> self@[offset + j] == value@[j],
                forall|j: int|
                    0 <= j < self@.len() && !(offset <= j < offset + i) ==> self@[j] == old(
                        self,
                    )@[j],
            decreases value@.len() - i,
        {
            let b = value[i];
            self.data[offset + i] = b;
            i += 1;
        }
        proof {
            lemma_store_bytes(old(self)@, offset as int, value@);
            assert(self@ =~= store_bytes(old(self)@, offset as int, value@));
        }
    }

    pub fn put_u8_at(&mut self, offset: usize, value: u8)
        requires
            offset + 1 <= old(self)@.len(),
        ensures
            final(self)@ == store_bytes(old(self)@, offset as int, seq![value]),
            final(self)@.len() == old(self)@.len(),
    {
        self.data[offset] = value;
        proof {
            lemma_store_bytes(old(self)@, offset as int, seq![value]);
            assert(self@ =~= store_bytes(old(self)@, offset as int, seq![value]));
        }
    }

    pub fn put_i8_at(&mut self, offset: usize, value: i8)
        requires
            offset + 1 <= old(self)@.len(),
        ensures
            final(self)@ == store_bytes(old(self)@, offset as int, spec_i8_to_le_bytes(value)),
            final(self)@.len() == old(self)@.len(),
    {
        self.put_u8_at(offset, value as u8);
    }

    pub fn put_u16_at(&mut self, offset: usize, value: u16)
        requires
            offset + 2 <= old(self)@.len(),
        ensures
            final(self)@ == store_bytes(old(self)@, offset as int, spec_u16_to_le_bytes(value)),
            final(self)@.len() == old(self)@.len(),
    {
        let bytes = u16_to_le_bytes(value);
        self.put_slice_at(offset, bytes.as_slice());
    }

    pub fn put_i16_at(&mut self, offset: usize, value: i16)
        requires
            offset + 2 <= old(self)@.len(),
        ensures
            final(self)@ == store_bytes(old(self)@, offset as int, spec_i16_to_le_bytes(value)),
            final(self)@.len() == old(self)@.len(),
    {
        self.put_u16_at(offset, value as u16);
    }

    pub fn put_u32_at(&mut self, offset: usize, value: u32)
        requires
            offset + 4 <= old(self)@.len(),
        ensures
            final(self)@ == store_bytes(old(self)@, offset as int, spec_u32_to_le_bytes(value)),
            final(self)@.len() == old(self)@.len(),
    {
        let bytes = u32_to_le_bytes(value);
        self.put_slice_at(offset, bytes.as_slice());
    }

    pub fn put_i32_at(&mut self, offset: usize, value: i32)
        requires
            offset + 4 <= old(self)@.len(),
        ensures
            final(self)@ == store_bytes(old(self)@, offset as int, spec_i32_to_le_bytes(value)),
            final(self)@.len() == old(self)@.len(),
    {
        self.put_u32_at(offset, value as u32);
    }

    pub fn put_u64_at(&mut self, offset: usize, value: u64)
        requires
            offset + 8 <= old(self)@.len(),
        ensures
            final(self)@ == store_bytes(old(self)@, offset as int, spec_u64_to_le_bytes(value)),
            final(self)@.len() == old(self)@.len(),
    {
        let bytes = u64_to_le_bytes(value);
        self.put_slice_at(offset, bytes.as_slice());
    }

    pub fn put_i64_at(&mut self, offset: usize, value: i64)
        requires
            offset + 8 <= old(self)@.len(),
        ensures
            final(self)@ == store_bytes(old(self)@, offset as int, spec_i64_to_le_bytes(value)),
            final(self)@.len() == old(self)@.len(),
    {
        self.put_u64_at(offset, value as u64);
    }
}

/// A read-only buffer owning a byte region.
#[derive(Debug)]
pub struct ReadBuf {
    data: Vec<u8>,
}

impl View for ReadBuf {
    type V = Seq<u8>;

    closed spec fn view(&self) -> Seq<u8> {
        self.data@
    }
}

impl ReadBuf {
    pub fn new(data: Vec<u8>) -> (r: ReadBuf)
        ensures
            r@ == data@,
    {
        ReadBuf { data }
    }

    pub fn into_vec(self) -> (r: Vec<u8>)
        ensures
            r@ == self@,
    {
        self.data
    }

    pub fn len(&self) -> (r: usize)
        ensures
            r == self@.len(),
    {
        self.data.len()
    }

    pub fn get_slice_at(&self, offset: usize, len: usize) -> (r: &[u8])
        requires
            offset + len <= self@.len(),
        ensures
            r@ == self@.subrange(offset as int, offset + len),
    {
        let n = self.data.len();
        assert(offset + len <= n);
        slice_subrange(self.data.as_slice(), offset, offset + len)
    }

    pub fn get_u8_at(&self, offset: usize) -> (r: u8)
        requires
            offset + 1 <= self@.len(),
        ensures
            r == read_u8(self@, offset as int),
    {
        self.data[offset]
    }

    pub fn get_i8_at(&self, offset: usize) -> (r: i8)
        requires
            offset + 1 <= self@.len(),
        ensures
            r == read_i8(self@, offset as int),
    {
        self.get_u8_at(offset) as i8
    }

    pub fn get_u16_at(&self, offset: usize) -> (r: u16)
        requires
            offset + 2 <= self@.len(),
        ensures
            r == read_u16(self@, offset as int),
    {
        let n = self.data.len();
        assert(offset + 2 <= n);
        let s = slice_subrange(self.data.as_slice(), offset, offset + 2);
        u16_from_le_bytes(s)
    }

    pub fn get_i16_at(&self, offset: usize) -> (r: i16)
        requires
            offset + 2 <= self@.len(),
        ensures
            r == read_i16(self@, offset as int),
    {
        self.get_u16_at(offset) as i16
    }

    pub fn get_u32_at(&self, offset: usize) -> (r: u32)
        requires
            offset + 4 <= self@.len(),
        ensures
            r == read_u32(self@, offset as int),
    {
        let n = self.data.len();
        assert(offset + 4 <= n);
        let s = slice_subrange(self.data.as_slice(), offset, offset + 4);
        u32_from_le_bytes(s)
    }

    pub fn get_i32_at(&self, offset: usize) -> (r: i32)
        requires
            offset + 4 <= self@.len(),
        ensures
            r == read_i32(self@, offset as int),
    {
        self.get_u32_at(offset) as i32
    }

    pub fn get_u64_at(&self, offset: usize) -> (r: u64)
        requires
            offset + 8 <= self@.len(),
        ensures
            r == read_u64(self@, offset as int),
    {
        let n = self.data.len();
        assert(offset + 8 <= n);
        let s = slice_subrange(self.data.as_slice(), offset, offset + 8);
        u64_from_le_bytes(s)
    }

    pub fn get_i64_at(&self, offset: usize) -> (r: i64)
        requires
            offset + 8 <= self@.len(),
        ensures
            r == read_i64(self@, offset as int),
    {
        self.get_u64_at(offset) as i64
    }
}

} // verus!
