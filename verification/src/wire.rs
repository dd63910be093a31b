//! Mathematical model of the wire layout: writing and reading little-endian
//! fixed-width integers at byte offsets of a byte sequence.

use vstd::prelude::*;
use vstd::bytes::{spec_u16_from_le_bytes, spec_u32_from_le_bytes, spec_u64_from_le_bytes, spec_u16_to_le_bytes, spec_u32_to_le_bytes, spec_u64_to_le_bytes, lemma_auto_spec_u16_to_from_le_bytes, lemma_auto_spec_u32_to_from_le_bytes, lemma_auto_spec_u64_to_from_le_bytes};

verus! {

/// `s` with the bytes `b` written at offset `off`: the region
/// `[off, off + b.len())` holds `b`, every other byte keeps its value.
pub open spec fn store_bytes(s: Seq<u8>, off: int, b: Seq<u8>) -> Seq<u8> {
    s.subrange(0, off) + b + s.subrange(off + b.len(), s.len() as int)
}

pub open spec fn read_u8(s: Seq<u8>, off: int) -> u8 {
    s[off]
}

pub open spec fn read_u16(s: Seq<u8>, off: int) -> u16 {
    spec_u16_from_le_bytes(s.subrange(off, off + 2))
}

pub open spec fn read_u32(s: Seq<u8>, off: int) -> u32 {
    spec_u32_from_le_bytes(s.subrange(off, off + 4))
}

pub open spec fn read_u64(s: Seq<u8>, off: int) -> u64 {
    spec_u64_from_le_bytes(s.subrange(off, off + 8))
}

pub open spec fn read_i8(s: Seq<u8>, off: int) -> i8 {
    read_u8(s, off) as i8
}

pub open spec fn read_i16(s: Seq<u8>, off: int) -> i16 {
    read_u16(s, off) as i16
}

pub open spec fn read_i32(s: Seq<u8>, off: int) -> i32 {
    read_u32(s, off) as i32
}

pub open spec fn read_i64(s: Seq<u8>, off: int) -> i64 {
    read_u64(s, off) as i64
}

pub open spec fn spec_i8_to_le_bytes(x: i8) -> Seq<u8> {
    seq![x as u8]
}

pub open spec fn spec_i16_to_le_bytes(x: i16) -> Seq<u8> {
    spec_u16_to_le_bytes(x as u16)
}

pub open spec fn spec_i32_to_le_bytes(x: i32) -> Seq<u8> {
    spec_u32_to_le_bytes(x as u32)
}

pub open spec fn spec_i64_to_le_bytes(x: i64) -> Seq<u8> {
    spec_u64_to_le_bytes(x as u64)
}

/// Storing bytes keeps the length, places the stored bytes, and leaves every
/// byte outside the stored region unchanged.
pub proof fn lemma_store_bytes(s: Seq<u8>, off: int, b: Seq<u8>)
    requires
        0 <= off,
        off + b.len() <= s.len(),
    ensures
        store_bytes(s, off, b).len() == s.len(),
        forall|i: int|
            0 <= i < s.len() && !(off <= i < off + b.len()) ==> store_bytes(s, off, b)[i] == s[i],
        forall|i: int| 0 <= i < b.len() ==> store_bytes(s, off, b)[off + i] == b[i],
{
}

/// The stored region reads back as the stored bytes.
pub proof fn lemma_store_bytes_read_back(s: Seq<u8>, off: int, b: Seq<u8>)
    requires
        0 <= off,
        off + b.len() <= s.len(),
    ensures
        store_bytes(s, off, b).subrange(off, off + b.len()) == b,
{
    lemma_store_bytes(s, off, b);
    assert(store_bytes(s, off, b).subrange(off, off + b.len()) =~= b);
}

/// A subrange disjoint from the stored region is unchanged.
pub proof fn lemma_store_bytes_disjoint(s: Seq<u8>, off: int, b: Seq<u8>, lo: int, hi: int)
    requires
        0 <= off,
        off + b.len() <= s.len(),
        0 <= lo <= hi <= s.len(),
        hi <= off || off + b.len() <= lo,
    ensures
        store_bytes(s, off, b).subrange(lo, hi) == s.subrange(lo, hi),
{
    lemma_store_bytes(s, off, b);
    assert(store_bytes(s, off, b).subrange(lo, hi) =~= s.subrange(lo, hi));
}

/// A `u16` stored at `off` reads back as itself.
pub proof fn lemma_read_u16_store(s: Seq<u8>, off: int, v: u16)
    requires
        0 <= off,
        off + 2 <= s.len(),
    ensures
        read_u16(store_bytes(s, off, spec_u16_to_le_bytes(v)), off) == v,
{
    lemma_auto_spec_u16_to_from_le_bytes();
    lemma_store_bytes_read_back(s, off, spec_u16_to_le_bytes(v));
}

/// A `u32` stored at `off` reads back as itself.
pub proof fn lemma_read_u32_store(s: Seq<u8>, off: int, v: u32)
    requires
        0 <= off,
        off + 4 <= s.len(),
    ensures
        read_u32(store_bytes(s, off, spec_u32_to_le_bytes(v)), off) == v,
{
    lemma_auto_spec_u32_to_from_le_bytes();
    lemma_store_bytes_read_back(s, off, spec_u32_to_le_bytes(v));
}

/// A `u64` stored at `off` reads back as itself.
pub proof fn lemma_read_u64_store(s: Seq<u8>, off: int, v: u64)
    requires
        0 <= off,
        off + 8 <= s.len(),
    ensures
        read_u64(store_bytes(s, off, spec_u64_to_le_bytes(v)), off) == v,
{
    lemma_auto_spec_u64_to_from_le_bytes();
    lemma_store_bytes_read_back(s, off, spec_u64_to_le_bytes(v));
}

/// An `i32` stored at `off` reads back as itself.
pub proof fn lemma_read_i32_store(s: Seq<u8>, off: int, v: i32)
    requires
        0 <= off,
        off + 4 <= s.len(),
    ensures
        read_i32(store_bytes(s, off, spec_i32_to_le_bytes(v)), off) == v,
{
    lemma_read_u32_store(s, off, v as u32);
    assert((v as u32) as i32 == v) by (bit_vector);
}

/// An `i64` stored at `off` reads back as itself.
pub proof fn lemma_read_i64_store(s: Seq<u8>, off: int, v: i64)
    requires
        0 <= off,
        off + 8 <= s.len(),
    ensures
        read_i64(store_bytes(s, off, spec_i64_to_le_bytes(v)), off) == v,
{
    lemma_read_u64_store(s, off, v as u64);
    assert((v as u64) as i64 == v) by (bit_vector);
}

} // verus!
