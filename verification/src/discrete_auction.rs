//! Codec for the discrete-auction message: a fixed block of seven fields at
//! schema-defined offsets, followed by one count-prefixed repeating group
//! whose entries each carry one length-prefixed variable field.
//!
//! Encoders and decoders share one buffer and one advancing limit through an
//! ownership-transfer chain: wrapping a child consumes the parent, and the
//! parent is recovered by the child's one-time `parent` call.

use vstd::prelude::*;
use vstd::bytes::{spec_u16_to_le_bytes, spec_u64_to_le_bytes};
use vstd::bytes::{lemma_auto_spec_u16_to_from_le_bytes, lemma_auto_spec_u32_to_from_le_bytes,
    lemma_auto_spec_u64_to_from_le_bytes};
use crate::buf::{ReadBuf, WriteBuf};
use crate::error::{SbeErr, SbeResult};
use crate::header::{MessageHeaderDecoder, MessageHeaderEncoder, ENCODED_LENGTH};
use crate::wire::{
    lemma_read_i32_store, lemma_read_i64_store, lemma_read_u16_store, lemma_read_u64_store,
    lemma_store_bytes, lemma_store_bytes_disjoint, lemma_store_bytes_read_back, read_i32,
    read_i64, read_u16, read_u64,
    read_u8, spec_i32_to_le_bytes, spec_i64_to_le_bytes, store_bytes,
};

verus! {

pub const SBE_BLOCK_LENGTH: u16 = 44;

pub const SBE_TEMPLATE_ID: u16 = 13;

pub const SBE_SCHEMA_ID: u16 = 19780;

pub const SBE_SCHEMA_VERSION: u16 = 3;

/// The bytes of `s` after the four header fields are written at `off`.
pub open spec fn header_bytes(s: Seq<u8>, off: int) -> Seq<u8> {
    store_bytes(
        store_bytes(
            store_bytes(
                store_bytes(s, off, spec_u16_to_le_bytes(SBE_BLOCK_LENGTH)),
                off + 2,
                spec_u16_to_le_bytes(SBE_TEMPLATE_ID),
            ),
            off + 4,
            spec_u16_to_le_bytes(SBE_SCHEMA_ID),
        ),
        off + 6,
        spec_u16_to_le_bytes(SBE_SCHEMA_VERSION),
    )
}

/// The bytes of `s` after the seven fixed-block fields are written at `off`.
pub open spec fn fixed_block_bytes(
    s: Seq<u8>,
    off: int,
    trad_ses_open_time: u64,
    trad_ses_close_time_from: u64,
    trad_ses_close_time_till: u64,
    auction_id: i64,
    exchange_trading_session_id: i32,
    event_id_open: i32,
    event_id_close: i32,
) -> Seq<u8> {
    store_bytes(
        store_bytes(
            store_bytes(
                store_bytes(
                    store_bytes(
                        store_bytes(
                            store_bytes(s, off, spec_u64_to_le_bytes(trad_ses_open_time)),
                            off + 8,
                            spec_u64_to_le_bytes(trad_ses_close_time_from),
                        ),
                        off + 16,
                        spec_u64_to_le_bytes(trad_ses_close_time_till),
                    ),
                    off + 24,
                    spec_i64_to_le_bytes(auction_id),
                ),
                off + 32,
                spec_i32_to_le_bytes(exchange_trading_session_id),
            ),
            off + 36,
            spec_i32_to_le_bytes(event_id_open),
        ),
        off + 40,
        spec_i32_to_le_bytes(event_id_close),
    )
}

/// Encodes the fixed block of the message into a shared write buffer.
#[derive(Debug)]
pub struct DiscreteAuctionEncoder {
    buf: WriteBuf,
    initial_offset: usize,
    offset: usize,
    limit: usize,
}

impl DiscreteAuctionEncoder {
    pub closed spec fn bytes(&self) -> Seq<u8> {
        self.buf@
    }

    pub closed spec fn offset_spec(&self) -> int {
        self.offset as int
    }

    pub closed spec fn limit_spec(&self) -> int {
        self.limit as int
    }

    /// The codec invariant: the limit sits at or past the end of the fixed
    /// block and never leaves the buffer.
    pub closed spec fn wf(&self) -> bool {
        &&& self.offset + SBE_BLOCK_LENGTH <= self.limit
        &&& self.limit <= self.bytes().len()
    }

    pub fn wrap(self, buf: WriteBuf, offset: usize) -> (r: Self)
        requires
            offset + SBE_BLOCK_LENGTH <= buf@.len(),
        ensures
            r.wf(),
            r.bytes() == buf@,
            r.offset_spec() == offset,
            r.limit_spec() == offset + SBE_BLOCK_LENGTH,
    {
        let n = buf.len();
        assert(offset + SBE_BLOCK_LENGTH <= n);
        let limit = offset + SBE_BLOCK_LENGTH as usize;
        DiscreteAuctionEncoder { buf, initial_offset: offset, offset, limit }
    }

    /// Bytes covered by this message so far: fixed block plus everything the
    /// advancing limit has consumed.
    pub fn encoded_length(&self) -> (r: usize)
        requires
            self.wf(),
        ensures
            r == self.limit_spec() - self.offset_spec(),
    {
        self.limit - self.offset
    }

    pub fn buffer_len(&self) -> (r: usize)
        ensures
            r == self.bytes().len(),
    {
        self.buf.len()
    }

    /// Hands the underlying buffer's bytes back; the encoder is consumed.
    pub fn into_vec(self) -> (r: Vec<u8>)
        ensures
            r@ == self.bytes(),
    {
        self.buf.into_vec()
    }

    pub fn get_limit(&self) -> (r: usize)
        ensures
            r == self.limit_spec(),
    {
        self.limit
    }

    pub fn set_limit(&mut self, limit: usize)
        ensures
            final(self).bytes() == old(self).bytes(),
            final(self).offset_spec() == old(self).offset_spec(),
            final(self).limit_spec() == limit,
            old(self).offset_spec() + SBE_BLOCK_LENGTH <= limit && limit <= old(
                self,
            ).bytes().len() ==> final(self).wf(),
    {
        self.limit = limit;
    }

    /// Writes a raw little-endian `u16` into the shared buffer.
    pub fn put_u16_at(&mut self, offset: usize, value: u16)
        requires
            offset + 2 <= old(self).bytes().len(),
        ensures
            final(self).bytes() == store_bytes(
                old(self).bytes(),
                offset as int,
                spec_u16_to_le_bytes(value),
            ),
            final(self).bytes().len() == old(self).bytes().len(),
            final(self).offset_spec() == old(self).offset_spec(),
            final(self).limit_spec() == old(self).limit_spec(),
            old(self).wf() ==> final(self).wf(),
    {
        self.buf.put_u16_at(offset, value);
    }

    /// Writes a raw byte into the shared buffer.
    pub fn put_u8_at(&mut self, offset: usize, value: u8)
        requires
            offset + 1 <= old(self).bytes().len(),
        ensures
            final(self).bytes() == store_bytes(old(self).bytes(), offset as int, seq![value]),
            final(self).bytes().len() == old(self).bytes().len(),
            final(self).offset_spec() == old(self).offset_spec(),
            final(self).limit_spec() == old(self).limit_spec(),
            old(self).wf() ==> final(self).wf(),
    {
        self.buf.put_u8_at(offset, value);
    }

    /// Writes raw bytes into the shared buffer.
    pub fn put_slice_at(&mut self, offset: usize, value: &[u8])
        requires
            offset + value@.len() <= old(self).bytes().len(),
        ensures
            final(self).bytes() == store_bytes(old(self).bytes(), offset as int, value@),
            final(self).bytes().len() == old(self).bytes().len(),
            final(self).offset_spec() == old(self).offset_spec(),
            final(self).limit_spec() == old(self).limit_spec(),
            old(self).wf() ==> final(self).wf(),
    {
        self.buf.put_slice_at(offset, value);
    }

    /// Writes the four header fields at `offset` and returns the header
    /// codec, which holds this encoder until `parent` is called.
    pub fn header(self, offset: usize) -> (r: MessageHeaderEncoder)
        requires
            self.wf(),
            offset + ENCODED_LENGTH <= self.bytes().len(),
        ensures
            r.has_parent(),
            r.offset_spec() == offset,
            r.parent_spec().wf(),
            r.parent_spec().bytes() == header_bytes(self.bytes(), offset as int),
            r.parent_spec().offset_spec() == self.offset_spec(),
            r.parent_spec().limit_spec() == self.limit_spec(),
    {
        proof {
            lemma_auto_spec_u16_to_from_le_bytes();
        }
        let mut header = MessageHeaderEncoder::default().wrap(self, offset);
        header.block_length(SBE_BLOCK_LENGTH);
        header.template_id(SBE_TEMPLATE_ID);
        header.schema_id(SBE_SCHEMA_ID);
        header.version(SBE_SCHEMA_VERSION);
        header
    }

    /// Writes the 'TradSesOpenTime' field: `u64` at block offset 0.
    pub fn trad_ses_open_time(&mut self, value: u64)
        requires
            old(self).wf(),
        ensures
            final(self).field_put_u64(*old(self), 0, value),
    {
        let offset = self.offset;
        self.buf.put_u64_at(offset, value);
    }

    /// Writes the 'TradSesCloseTimeFrom' field: `u64` at block offset 8.
    pub fn trad_ses_close_time_from(&mut self, value: u64)
        requires
            old(self).wf(),
        ensures
            final(self).field_put_u64(*old(self), 8, value),
    {
        let offset = self.offset + 8;
        self.buf.put_u64_at(offset, value);
    }

    /// Writes the 'TradSesCloseTimeTill' field: `u64` at block offset 16.
    pub fn trad_ses_close_time_till(&mut self, value: u64)
        requires
            old(self).wf(),
        ensures
            final(self).field_put_u64(*old(self), 16, value),
    {
        let offset = self.offset + 16;
        self.buf.put_u64_at(offset, value);
    }

    /// Writes the 'AuctionID' field: `i64` at block offset 24.
    pub fn auction_id(&mut self, value: i64)
        requires
            old(self).wf(),
        ensures
            final(self).wf(),
            final(self).bytes() == store_bytes(
                old(self).bytes(),
                old(self).offset_spec() + 24,
                spec_i64_to_le_bytes(value),
            ),
            final(self).offset_spec() == old(self).offset_spec(),
            final(self).limit_spec() == old(self).limit_spec(),
    {
        let offset = self.offset + 24;
        self.buf.put_i64_at(offset, value);
    }

    /// Writes the 'ExchangeTradingSessionID' field: `i32` at block offset 32.
    pub fn exchange_trading_session_id(&mut self, value: i32)
        requires
            old(self).wf(),
        ensures
            final(self).field_put_i32(*old(self), 32, value),
    {
        let offset = self.offset + 32;
        self.buf.put_i32_at(offset, value);
    }

    /// Writes the 'EventIDOpen' field: `i32` at block offset 36.
    pub fn event_id_open(&mut self, value: i32)
        requires
            old(self).wf(),
        ensures
            final(self).field_put_i32(*old(self), 36, value),
    {
        let offset = self.offset + 36;
        self.buf.put_i32_at(offset, value);
    }

    /// Writes the 'EventIDClose' field: `i32` at block offset 40.
    pub fn event_id_close(&mut self, value: i32)
        requires
            old(self).wf(),
        ensures
            final(self).field_put_i32(*old(self), 40, value),
    {
        let offset = self.offset + 40;
        self.buf.put_i32_at(offset, value);
    }

    /// The state after a `u64` field write at block offset `rel`.
    pub open spec fn field_put_u64(&self, pre: Self, rel: int, value: u64) -> bool {
        &&& self.wf()
        &&& self.bytes() == store_bytes(
            pre.bytes(),
            pre.offset_spec() + rel,
            spec_u64_to_le_bytes(value),
        )
        &&& self.bytes().len() == pre.bytes().len()
        &&& self.offset_spec() == pre.offset_spec()
        &&& self.limit_spec() == pre.limit_spec()
    }

    /// The state after an `i32` field write at block offset `rel`.
    pub open spec fn field_put_i32(&self, pre: Self, rel: int, value: i32) -> bool {
        &&& self.wf()
        &&& self.bytes() == store_bytes(
            pre.bytes(),
            pre.offset_spec() + rel,
            spec_i32_to_le_bytes(value),
        )
        &&& self.bytes().len() == pre.bytes().len()
        &&& self.offset_spec() == pre.offset_spec()
        &&& self.limit_spec() == pre.limit_spec()
    }

    /// Starts the repeating group: writes its descriptor at the current limit
    /// and hands the buffer cursor to the group encoder.
    pub fn no_underlyings_encoder(self, count: u8, no_underlyings_encoder: NoUnderlyingsEncoder) -> (r:
        NoUnderlyingsEncoder)
        requires
            self.wf(),
            self.limit_spec() + 3 <= self.bytes().len(),
        ensures
            group_encoder_wrapped(r, self, count),
    {
        no_underlyings_encoder.wrap(self, count)
    }
}

impl Default for DiscreteAuctionEncoder {
    /// An empty encoder, to be armed with `wrap`.
    fn default() -> (r: Self)
        ensures
            r.bytes().len() == 0,
            r.offset_spec() == 0,
            r.limit_spec() == 0,
    {
        DiscreteAuctionEncoder { buf: WriteBuf::new(Vec::new()), initial_offset: 0, offset: 0, limit: 0 }
    }
}

/// The state of a group encoder that `wrap` just attached to `parent`: the
/// group descriptor (element block length 0, then `count`) stands at the old
/// limit, and the limit has advanced past it.
pub open spec fn group_encoder_wrapped(
    r: NoUnderlyingsEncoder,
    parent: DiscreteAuctionEncoder,
    count: u8,
) -> bool {
    &&& r.has_parent()
    &&& r.parent_spec().wf()
    &&& r.parent_spec().bytes() == store_bytes(
        store_bytes(parent.bytes(), parent.limit_spec(), spec_u16_to_le_bytes(0u16)),
        parent.limit_spec() + 2,
        seq![count],
    )
    &&& r.parent_spec().offset_spec() == parent.offset_spec()
    &&& r.parent_spec().limit_spec() == parent.limit_spec() + 3
    &&& r.parent_spec().bytes().len() == parent.bytes().len()
    &&& r.count_spec() == count
    &&& r.next_index() == 0
    &&& r.initial_limit_spec() == parent.limit_spec()
}

/// Encodes the entries of the repeating group; each entry's fixed block is
/// empty, and each entry carries one variable-length field.
#[derive(Debug)]
pub struct NoUnderlyingsEncoder {
    parent: Option<DiscreteAuctionEncoder>,
    count: u8,
    index: usize,
    offset: usize,
    initial_limit: usize,
}

impl NoUnderlyingsEncoder {
    pub closed spec fn parent_opt(&self) -> Option<DiscreteAuctionEncoder> {
        self.parent
    }

    pub open spec fn has_parent(&self) -> bool {
        self.parent_opt() is Some
    }

    pub open spec fn parent_spec(&self) -> DiscreteAuctionEncoder {
        self.parent_opt().unwrap()
    }

    pub closed spec fn count_spec(&self) -> u8 {
        self.count
    }

    pub closed spec fn index_spec(&self) -> usize {
        self.index
    }

    /// The 0-based index the next `advance` call would enter; the index
    /// field starts one below zero, represented as `usize::MAX`.
    pub open spec fn next_index(&self) -> int {
        if self.index_spec() == usize::MAX {
            0
        } else {
            self.index_spec() + 1
        }
    }

    pub closed spec fn initial_limit_spec(&self) -> int {
        self.initial_limit as int
    }

    /// Byte size of a group entry's fixed-field block.
    pub fn block_length() -> (r: u16)
        ensures
            r == 0,
    {
        0
    }

    /// Writes the group descriptor at the parent's limit and takes the parent.
    pub fn wrap(self, parent: DiscreteAuctionEncoder, count: u8) -> (r: Self)
        requires
            parent.wf(),
            parent.limit_spec() + 3 <= parent.bytes().len(),
        ensures
            group_encoder_wrapped(r, parent, count),
    {
        proof {
            lemma_auto_spec_u16_to_from_le_bytes();
        }
        let mut parent = parent;
        let initial_limit = parent.get_limit();
        let n = parent.buffer_len();
        assert(initial_limit + 3 <= n);
        parent.set_limit(initial_limit + 3);
        parent.put_u16_at(initial_limit, Self::block_length());
        parent.put_u8_at(initial_limit + 2, count);
        NoUnderlyingsEncoder {
            parent: Some(parent),
            count,
            index: usize::MAX,
            offset: usize::MAX,
            initial_limit,
        }
    }

    /// Hands the parent encoder back; a second call fails with `ParentNotSet`.
    pub fn parent(&mut self) -> (r: SbeResult<DiscreteAuctionEncoder>)
        ensures
            old(self).has_parent() ==> {
                &&& r matches Ok(p) && p == old(self).parent_spec()
                &&& !final(self).has_parent()
                &&& final(self).count_spec() == old(self).count_spec()
                &&& final(self).index_spec() == old(self).index_spec()
            },
            !old(self).has_parent() ==> r == Err::<DiscreteAuctionEncoder, SbeErr>(
                SbeErr::ParentNotSet,
            ) && *final(self) == *old(self),
    {
        match self.parent.take() {
            Some(p) => Ok(p),
            None => Err(SbeErr::ParentNotSet),
        }
    }

    /// Moves the cursor into the next entry. Returns `Ok(Some(index))` for
    /// each of the `count` entries in turn, then `Ok(None)` forever after;
    /// fails with `ParentNotSet` once the parent was taken.
    pub fn advance(&mut self) -> (r: SbeResult<Option<usize>>)
        ensures
            old(self).next_index() >= old(self).count_spec() ==> r == Ok::<Option<usize>, SbeErr>(
                None,
            ) && *final(self) == *old(self),
            old(self).next_index() < old(self).count_spec() && !old(self).has_parent() ==> r
                == Err::<Option<usize>, SbeErr>(SbeErr::ParentNotSet) && *final(self) == *old(self),
            old(self).next_index() < old(self).count_spec() && old(self).has_parent() ==> {
                &&& r matches Ok(i) && i == Some(old(self).next_index() as usize)
                &&& final(self).has_parent()
                &&& final(self).parent_spec() == old(self).parent_spec()
                &&& final(self).index_spec() == old(self).next_index()
                &&& final(self).count_spec() == old(self).count_spec()
            },
    {
        let index = if self.index == usize::MAX {
            0
        } else {
            self.index + 1
        };
        if index >= self.count as usize {
            return Ok(None);
        }
        if self.parent.is_some() {
            // entries have an empty fixed block, so the limit does not move
            let off = self.parent.as_ref().unwrap().get_limit();
            self.offset = off;
            self.index = index;
            Ok(Some(index))
        } else {
            Err(SbeErr::ParentNotSet)
        }
    }

    /// Writes one variable-length field at the current limit: a `u16` length
    /// prefix, then the raw payload bytes; the limit advances past both.
    pub fn underlying_symbol(&mut self, value: &[u8])
        requires
            old(self).has_parent(),
            old(self).parent_spec().wf(),
            value@.len() <= u16::MAX,
            old(self).parent_spec().limit_spec() + 2 + value@.len() <= old(
                self,
            ).parent_spec().bytes().len(),
        ensures
            final(self).has_parent(),
            final(self).parent_spec().wf(),
            final(self).parent_spec().bytes() == store_bytes(
                store_bytes(
                    old(self).parent_spec().bytes(),
                    old(self).parent_spec().limit_spec(),
                    spec_u16_to_le_bytes(value@.len() as u16),
                ),
                old(self).parent_spec().limit_spec() + 2,
                value@,
            ),
            final(self).parent_spec().bytes().len() == old(self).parent_spec().bytes().len(),
            final(self).parent_spec().offset_spec() == old(self).parent_spec().offset_spec(),
            final(self).parent_spec().limit_spec() == old(self).parent_spec().limit_spec() + 2
                + value@.len(),
            final(self).count_spec() == old(self).count_spec(),
            final(self).index_spec() == old(self).index_spec(),
    {
        proof {
            lemma_auto_spec_u16_to_from_le_bytes();
        }
        let mut p = self.parent.take().unwrap();
        let limit = p.get_limit();
        let n = p.buffer_len();
        let data_length = value.len();
        assert(limit + 2 + data_length <= n);
        p.set_limit(limit + 2 + data_length);
        p.put_u16_at(limit, data_length as u16);
        p.put_slice_at(limit + 2, value);
        self.parent = Some(p);
    }
}

impl Default for NoUnderlyingsEncoder {
    /// A detached group encoder, to be attached with `wrap`.
    fn default() -> (r: Self)
        ensures
            !r.has_parent(),
    {
        NoUnderlyingsEncoder { parent: None, count: 0, index: 0, offset: 0, initial_limit: 0 }
    }
}

/// Decodes the fixed block of the message from a shared read buffer.
#[derive(Debug)]
pub struct DiscreteAuctionDecoder {
    buf: ReadBuf,
    initial_offset: usize,
    offset: usize,
    limit: usize,
    pub acting_block_length: u16,
    pub acting_version: u16,
}

impl DiscreteAuctionDecoder {
    pub closed spec fn bytes(&self) -> Seq<u8> {
        self.buf@
    }

    pub closed spec fn offset_spec(&self) -> int {
        self.offset as int
    }

    pub closed spec fn limit_spec(&self) -> int {
        self.limit as int
    }

    pub closed spec fn acting_block_length_spec(&self) -> u16 {
        self.acting_block_length
    }

    pub closed spec fn acting_version_spec(&self) -> u16 {
        self.acting_version
    }

    /// The codec invariant: the limit sits at or past the end of the block
    /// this decoder was wrapped with.
    pub closed spec fn wf(&self) -> bool {
        self.offset + self.acting_block_length <= self.limit
    }

    pub fn wrap(
        self,
        buf: ReadBuf,
        offset: usize,
        acting_block_length: u16,
        acting_version: u16,
    ) -> (r: Self)
        requires
            offset + acting_block_length <= usize::MAX,
        ensures
            r.wf(),
            r.bytes() == buf@,
            r.offset_spec() == offset,
            r.limit_spec() == offset + acting_block_length,
            r.acting_block_length_spec() == acting_block_length,
            r.acting_version_spec() == acting_version,
    {
        let limit = offset + acting_block_length as usize;
        DiscreteAuctionDecoder {
            buf,
            initial_offset: offset,
            offset,
            limit,
            acting_block_length,
            acting_version,
        }
    }

    /// Bytes covered by this message so far: fixed block plus everything the
    /// advancing limit has consumed.
    pub fn encoded_length(&self) -> (r: usize)
        requires
            self.wf(),
        ensures
            r == self.limit_spec() - self.offset_spec(),
    {
        self.limit - self.offset
    }

    pub fn buffer_len(&self) -> (r: usize)
        ensures
            r == self.bytes().len(),
    {
        self.buf.len()
    }

    pub fn get_limit(&self) -> (r: usize)
        ensures
            r == self.limit_spec(),
    {
        self.limit
    }

    pub fn set_limit(&mut self, limit: usize)
        ensures
            final(self).bytes() == old(self).bytes(),
            final(self).offset_spec() == old(self).offset_spec(),
            final(self).limit_spec() == limit,
            final(self).acting_block_length_spec() == old(self).acting_block_length_spec(),
            final(self).acting_version_spec() == old(self).acting_version_spec(),
            old(self).offset_spec() + old(self).acting_block_length_spec() <= limit
                ==> final(self).wf(),
    {
        self.limit = limit;
    }

    /// Reads a raw little-endian `u16` from the shared buffer.
    pub fn get_u16_at(&self, offset: usize) -> (r: u16)
        requires
            offset + 2 <= self.bytes().len(),
        ensures
            r == read_u16(self.bytes(), offset as int),
    {
        self.buf.get_u16_at(offset)
    }

    /// Reads a raw byte from the shared buffer.
    pub fn get_u8_at(&self, offset: usize) -> (r: u8)
        requires
            offset + 1 <= self.bytes().len(),
        ensures
            r == read_u8(self.bytes(), offset as int),
    {
        self.buf.get_u8_at(offset)
    }

    /// Borrows raw bytes of the shared buffer.
    pub fn get_slice_at(&self, offset: usize, len: usize) -> (r: &[u8])
        requires
            offset + len <= self.bytes().len(),
        ensures
            r@ == self.bytes().subrange(offset as int, offset + len),
    {
        self.buf.get_slice_at(offset, len)
    }

    /// Positions this decoder right past a decoded header, taking the
    /// header's buffer and its block length and version. The caller must
    /// have checked that the header's template id selects this decoder.
    pub fn header(self, header: MessageHeaderDecoder) -> (r: Self)
        requires
            header.has_parent(),
            header.offset_spec() + ENCODED_LENGTH <= header.bytes().len(),
            read_u16(header.bytes(), header.offset_spec() + 2) == SBE_TEMPLATE_ID,
        ensures
            r.wf(),
            r.bytes() == header.bytes(),
            r.offset_spec() == ENCODED_LENGTH,
            r.acting_block_length_spec() == read_u16(header.bytes(), header.offset_spec()),
            r.acting_version_spec() == read_u16(header.bytes(), header.offset_spec() + 6),
            r.limit_spec() == ENCODED_LENGTH + r.acting_block_length_spec(),
    {
        let mut header = header;
        let acting_block_length = header.block_length();
        let acting_version = header.version();
        let buf = match header.parent() {
            Ok(b) => b,
            // never taken: the header still holds its buffer by precondition
            Err(_) => ReadBuf::new(Vec::new()),
        };
        self.wrap(buf, ENCODED_LENGTH, acting_block_length, acting_version)
    }

    /// Reads the 'TradSesOpenTime' field: `u64` at block offset 0.
    pub fn trad_ses_open_time(&self) -> (r: u64)
        requires
            self.offset_spec() + SBE_BLOCK_LENGTH <= self.bytes().len(),
        ensures
            r == read_u64(self.bytes(), self.offset_spec()),
    {
        let n = self.buf.len();
        assert(self.offset + SBE_BLOCK_LENGTH <= n);
        self.buf.get_u64_at(self.offset)
    }

    /// Reads the 'TradSesCloseTimeFrom' field: `u64` at block offset 8.
    pub fn trad_ses_close_time_from(&self) -> (r: u64)
        requires
            self.offset_spec() + SBE_BLOCK_LENGTH <= self.bytes().len(),
        ensures
            r == read_u64(self.bytes(), self.offset_spec() + 8),
    {
        let n = self.buf.len();
        assert(self.offset + SBE_BLOCK_LENGTH <= n);
        self.buf.get_u64_at(self.offset + 8)
    }

    /// Reads the 'TradSesCloseTimeTill' field: `u64` at block offset 16.
    pub fn trad_ses_close_time_till(&self) -> (r: u64)
        requires
            self.offset_spec() + SBE_BLOCK_LENGTH <= self.bytes().len(),
        ensures
            r == read_u64(self.bytes(), self.offset_spec() + 16),
    {
        let n = self.buf.len();
        assert(self.offset + SBE_BLOCK_LENGTH <= n);
        self.buf.get_u64_at(self.offset + 16)
    }

    /// Reads the 'AuctionID' field: `i64` at block offset 24.
    pub fn auction_id(&self) -> (r: i64)
        requires
            self.offset_spec() + SBE_BLOCK_LENGTH <= self.bytes().len(),
        ensures
            r == read_i64(self.bytes(), self.offset_spec() + 24),
    {
        let n = self.buf.len();
        assert(self.offset + SBE_BLOCK_LENGTH <= n);
        self.buf.get_i64_at(self.offset + 24)
    }

    /// Reads the 'ExchangeTradingSessionID' field: `i32` at block offset 32.
    pub fn exchange_trading_session_id(&self) -> (r: i32)
        requires
            self.offset_spec() + SBE_BLOCK_LENGTH <= self.bytes().len(),
        ensures
            r == read_i32(self.bytes(), self.offset_spec() + 32),
    {
        let n = self.buf.len();
        assert(self.offset + SBE_BLOCK_LENGTH <= n);
        self.buf.get_i32_at(self.offset + 32)
    }

    /// Reads the 'EventIDOpen' field: `i32` at block offset 36.
    pub fn event_id_open(&self) -> (r: i32)
        requires
            self.offset_spec() + SBE_BLOCK_LENGTH <= self.bytes().len(),
        ensures
            r == read_i32(self.bytes(), self.offset_spec() + 36),
    {
        let n = self.buf.len();
        assert(self.offset + SBE_BLOCK_LENGTH <= n);
        self.buf.get_i32_at(self.offset + 36)
    }

    /// Reads the 'EventIDClose' field: `i32` at block offset 40.
    pub fn event_id_close(&self) -> (r: i32)
        requires
            self.offset_spec() + SBE_BLOCK_LENGTH <= self.bytes().len(),
        ensures
            r == read_i32(self.bytes(), self.offset_spec() + 40),
    {
        let n = self.buf.len();
        assert(self.offset + SBE_BLOCK_LENGTH <= n);
        self.buf.get_i32_at(self.offset + 40)
    }

    /// Opens the repeating group at the current limit: reads its descriptor
    /// and hands the buffer cursor to the group decoder.
    pub fn no_underlyings_decoder(self) -> (r: NoUnderlyingsDecoder)
        requires
            self.limit_spec() + 3 <= self.bytes().len(),
        ensures
            group_decoder_wrapped(r, self),
    {
        let acting_version = self.acting_version;
        NoUnderlyingsDecoder::default().wrap(self, acting_version as usize)
    }
}

impl Default for DiscreteAuctionDecoder {
    /// An empty decoder, to be armed with `wrap` or `header`.
    fn default() -> (r: Self)
        ensures
            r.bytes().len() == 0,
            r.offset_spec() == 0,
            r.limit_spec() == 0,
    {
        DiscreteAuctionDecoder {
            buf: ReadBuf::new(Vec::new()),
            initial_offset: 0,
            offset: 0,
            limit: 0,
            acting_block_length: 0,
            acting_version: 0,
        }
    }
}

/// The state of a group decoder that `wrap` just attached to `parent`: the
/// element block length and the entry count are read from the descriptor at
/// the old limit, and the limit has advanced past the descriptor.
pub open spec fn group_decoder_wrapped(r: NoUnderlyingsDecoder, parent: DiscreteAuctionDecoder) -> bool {
    &&& r.has_parent()
    &&& r.parent_spec().bytes() == parent.bytes()
    &&& r.parent_spec().offset_spec() == parent.offset_spec()
    &&& r.parent_spec().limit_spec() == parent.limit_spec() + 3
    &&& r.parent_spec().acting_block_length_spec() == parent.acting_block_length_spec()
    &&& r.parent_spec().acting_version_spec() == parent.acting_version_spec()
    &&& r.block_length_spec() == read_u16(parent.bytes(), parent.limit_spec())
    &&& r.count_spec() == read_u8(parent.bytes(), parent.limit_spec() + 2)
    &&& r.next_index() == 0
}

/// Decodes the entries of the repeating group.
#[derive(Debug)]
pub struct NoUnderlyingsDecoder {
    parent: Option<DiscreteAuctionDecoder>,
    block_length: usize,
    acting_version: usize,
    count: u8,
    index: usize,
    offset: usize,
}

impl NoUnderlyingsDecoder {
    pub closed spec fn parent_opt(&self) -> Option<DiscreteAuctionDecoder> {
        self.parent
    }

    pub open spec fn has_parent(&self) -> bool {
        self.parent_opt() is Some
    }

    pub open spec fn parent_spec(&self) -> DiscreteAuctionDecoder {
        self.parent_opt().unwrap()
    }

    pub closed spec fn block_length_spec(&self) -> int {
        self.block_length as int
    }

    pub closed spec fn count_spec(&self) -> u8 {
        self.count
    }

    pub closed spec fn index_spec(&self) -> usize {
        self.index
    }

    /// The 0-based index the next `advance` call would enter; the index
    /// field starts one below zero, represented as `usize::MAX`.
    pub open spec fn next_index(&self) -> int {
        if self.index_spec() == usize::MAX {
            0
        } else {
            self.index_spec() + 1
        }
    }

    /// Reads the group descriptor at the parent's limit and takes the parent.
    pub fn wrap(self, parent: DiscreteAuctionDecoder, acting_version: usize) -> (r: Self)
        requires
            parent.limit_spec() + 3 <= parent.bytes().len(),
        ensures
            group_decoder_wrapped(r, parent),
    {
        let mut parent = parent;
        let initial_offset = parent.get_limit();
        let n = parent.buffer_len();
        assert(initial_offset + 3 <= n);
        let block_length = parent.get_u16_at(initial_offset) as usize;
        let count = parent.get_u8_at(initial_offset + 2);
        parent.set_limit(initial_offset + 3);
        NoUnderlyingsDecoder {
            parent: Some(parent),
            block_length,
            acting_version,
            count,
            index: usize::MAX,
            offset: 0,
        }
    }

    /// Hands the parent decoder back; a second call fails with `ParentNotSet`.
    pub fn parent(&mut self) -> (r: SbeResult<DiscreteAuctionDecoder>)
        ensures
            old(self).has_parent() ==> {
                &&& r matches Ok(p) && p == old(self).parent_spec()
                &&& !final(self).has_parent()
                &&& final(self).count_spec() == old(self).count_spec()
                &&& final(self).index_spec() == old(self).index_spec()
            },
            !old(self).has_parent() ==> r == Err::<DiscreteAuctionDecoder, SbeErr>(
                SbeErr::ParentNotSet,
            ) && *final(self) == *old(self),
    {
        match self.parent.take() {
            Some(p) => Ok(p),
            None => Err(SbeErr::ParentNotSet),
        }
    }

    /// Number of entries the group descriptor announced.
    pub fn count(&self) -> (r: u8)
        ensures
            r == self.count_spec(),
    {
        self.count
    }

    /// Moves the cursor into the next entry. Returns `Ok(Some(index))` for
    /// each of the `count` entries in turn, then `Ok(None)` forever after;
    /// fails with `ParentNotSet` once the parent was taken.
    pub fn advance(&mut self) -> (r: SbeResult<Option<usize>>)
        requires
            old(self).has_parent() && old(self).next_index() < old(self).count_spec() ==> old(
                self,
            ).parent_spec().limit_spec() + old(self).block_length_spec() <= usize::MAX,
        ensures
            old(self).next_index() >= old(self).count_spec() ==> r == Ok::<Option<usize>, SbeErr>(
                None,
            ) && *final(self) == *old(self),
            old(self).next_index() < old(self).count_spec() && !old(self).has_parent() ==> r
                == Err::<Option<usize>, SbeErr>(SbeErr::ParentNotSet) && *final(self) == *old(self),
            old(self).next_index() < old(self).count_spec() && old(self).has_parent() ==> {
                &&& r matches Ok(i) && i == Some(old(self).next_index() as usize)
                &&& final(self).has_parent()
                &&& final(self).parent_spec().bytes() == old(self).parent_spec().bytes()
                &&& final(self).parent_spec().offset_spec() == old(self).parent_spec().offset_spec()
                &&& final(self).parent_spec().limit_spec() == old(self).parent_spec().limit_spec()
                    + old(self).block_length_spec()
                &&& final(self).index_spec() == old(self).next_index()
                &&& final(self).count_spec() == old(self).count_spec()
                &&& final(self).block_length_spec() == old(self).block_length_spec()
                &&& final(self).entry_offset() == old(self).parent_spec().limit_spec()
            },
    {
        let index = if self.index == usize::MAX {
            0
        } else {
            self.index + 1
        };
        if index >= self.count as usize {
            return Ok(None);
        }
        if self.parent.is_some() {
            let mut p = self.parent.take().unwrap();
            let off = p.get_limit();
            p.set_limit(off + self.block_length);
            self.parent = Some(p);
            self.offset = off;
            self.index = index;
            Ok(Some(index))
        } else {
            Err(SbeErr::ParentNotSet)
        }
    }

    /// Offset of the entry the cursor last advanced into.
    pub closed spec fn entry_offset(&self) -> int {
        self.offset as int
    }

    /// Reads one variable-length field at the current limit: the `u16`
    /// length prefix, then the payload's position. Returns the pair
    /// (payload offset, payload length); the limit advances past both, and
    /// the payload bytes themselves are not copied.
    pub fn underlying_symbol_decoder(&mut self) -> (r: (usize, usize))
        requires
            old(self).has_parent(),
            old(self).parent_spec().limit_spec() + 2 <= old(self).parent_spec().bytes().len(),
            old(self).parent_spec().limit_spec() + 2 + read_u16(
                old(self).parent_spec().bytes(),
                old(self).parent_spec().limit_spec(),
            ) <= usize::MAX,
        ensures
            r.0 == old(self).parent_spec().limit_spec() + 2,
            r.1 == read_u16(old(self).parent_spec().bytes(), old(self).parent_spec().limit_spec()),
            final(self).has_parent(),
            final(self).parent_spec().bytes() == old(self).parent_spec().bytes(),
            final(self).parent_spec().offset_spec() == old(self).parent_spec().offset_spec(),
            final(self).parent_spec().limit_spec() == old(self).parent_spec().limit_spec() + 2
                + r.1,
            final(self).count_spec() == old(self).count_spec(),
            final(self).index_spec() == old(self).index_spec(),
            final(self).block_length_spec() == old(self).block_length_spec(),
    {
        let mut p = self.parent.take().unwrap();
        let offset = p.get_limit();
        let n = p.buffer_len();
        assert(offset + 2 <= n);
        let data_length = p.get_u16_at(offset) as usize;
        p.set_limit(offset + 2 + data_length);
        self.parent = Some(p);
        (offset + 2, data_length)
    }

    /// Borrows the payload bytes a prior `underlying_symbol_decoder` call
    /// located, without copying them.
    pub fn underlying_symbol_slice(&self, coordinates: (usize, usize)) -> (r: &[u8])
        requires
            self.has_parent(),
            coordinates.0 + coordinates.1 <= self.parent_spec().bytes().len(),
        ensures
            r@ == self.parent_spec().bytes().subrange(
                coordinates.0 as int,
                coordinates.0 + coordinates.1,
            ),
    {
        let p = self.parent.as_ref().unwrap();
        p.get_slice_at(coordinates.0, coordinates.1)
    }
}

impl Default for NoUnderlyingsDecoder {
    /// A detached group decoder, to be attached with `wrap`.
    fn default() -> (r: Self)
        ensures
            !r.has_parent(),
    {
        NoUnderlyingsDecoder {
            parent: None,
            block_length: 0,
            acting_version: 0,
            count: 0,
            index: 0,
            offset: 0,
        }
    }
}


/// Round trip of a full message: with the four header fields encoded at `h`
/// and the seven fixed-block fields encoded at `b`, every field decodes to
/// exactly the value that was encoded, header fields included.
pub proof fn lemma_message_round_trip(
    s: Seq<u8>,
    h: int,
    b: int,
    open_time: u64,
    close_from: u64,
    close_till: u64,
    auction: i64,
    session: i32,
    ev_open: i32,
    ev_close: i32,
)
    requires
        0 <= h,
        h + 8 <= b,
        b + 44 <= s.len(),
    ensures
        ({
            let e = fixed_block_bytes(
                header_bytes(s, h),
                b,
                open_time,
                close_from,
                close_till,
                auction,
                session,
                ev_open,
                ev_close,
            );
            &&& e.len() == s.len()
            &&& read_u16(e, h) == SBE_BLOCK_LENGTH
            &&& read_u16(e, h + 2) == SBE_TEMPLATE_ID
            &&& read_u16(e, h + 4) == SBE_SCHEMA_ID
            &&& read_u16(e, h + 6) == SBE_SCHEMA_VERSION
            &&& read_u64(e, b) == open_time
            &&& read_u64(e, b + 8) == close_from
            &&& read_u64(e, b + 16) == close_till
            &&& read_i64(e, b + 24) == auction
            &&& read_i32(e, b + 32) == session
            &&& read_i32(e, b + 36) == ev_open
            &&& read_i32(e, b + 40) == ev_close
        }),
{
    lemma_auto_spec_u16_to_from_le_bytes();
    lemma_auto_spec_u32_to_from_le_bytes();
    lemma_auto_spec_u64_to_from_le_bytes();
    let t0 = s;
    let t1 = store_bytes(t0, h + 0, spec_u16_to_le_bytes(SBE_BLOCK_LENGTH));
    let t2 = store_bytes(t1, h + 2, spec_u16_to_le_bytes(SBE_TEMPLATE_ID));
    let t3 = store_bytes(t2, h + 4, spec_u16_to_le_bytes(SBE_SCHEMA_ID));
    let t4 = store_bytes(t3, h + 6, spec_u16_to_le_bytes(SBE_SCHEMA_VERSION));
    let t5 = store_bytes(t4, b + 0, spec_u64_to_le_bytes(open_time));
    let t6 = store_bytes(t5, b + 8, spec_u64_to_le_bytes(close_from));
    let t7 = store_bytes(t6, b + 16, spec_u64_to_le_bytes(close_till));
    let t8 = store_bytes(t7, b + 24, spec_i64_to_le_bytes(auction));
    let t9 = store_bytes(t8, b + 32, spec_i32_to_le_bytes(session));
    let t10 = store_bytes(t9, b + 36, spec_i32_to_le_bytes(ev_open));
    let t11 = store_bytes(t10, b + 40, spec_i32_to_le_bytes(ev_close));
    lemma_store_bytes(t0, h + 0, spec_u16_to_le_bytes(SBE_BLOCK_LENGTH));
    lemma_store_bytes(t1, h + 2, spec_u16_to_le_bytes(SBE_TEMPLATE_ID));
    lemma_store_bytes(t2, h + 4, spec_u16_to_le_bytes(SBE_SCHEMA_ID));
    lemma_store_bytes(t3, h + 6, spec_u16_to_le_bytes(SBE_SCHEMA_VERSION));
    lemma_store_bytes(t4, b + 0, spec_u64_to_le_bytes(open_time));
    lemma_store_bytes(t5, b + 8, spec_u64_to_le_bytes(close_from));
    lemma_store_bytes(t6, b + 16, spec_u64_to_le_bytes(close_till));
    lemma_store_bytes(t7, b + 24, spec_i64_to_le_bytes(auction));
    lemma_store_bytes(t8, b + 32, spec_i32_to_le_bytes(session));
    lemma_store_bytes(t9, b + 36, spec_i32_to_le_bytes(ev_open));
    lemma_store_bytes(t10, b + 40, spec_i32_to_le_bytes(ev_close));
    lemma_read_u16_store(t0, h + 0, SBE_BLOCK_LENGTH);
    lemma_store_bytes_disjoint(t1, h + 2, spec_u16_to_le_bytes(SBE_TEMPLATE_ID), h + 0, h + 0 + 2);
    lemma_store_bytes_disjoint(t2, h + 4, spec_u16_to_le_bytes(SBE_SCHEMA_ID), h + 0, h + 0 + 2);
    lemma_store_bytes_disjoint(t3, h + 6, spec_u16_to_le_bytes(SBE_SCHEMA_VERSION), h + 0, h + 0 + 2);
    lemma_store_bytes_disjoint(t4, b + 0, spec_u64_to_le_bytes(open_time), h + 0, h + 0 + 2);
    lemma_store_bytes_disjoint(t5, b + 8, spec_u64_to_le_bytes(close_from), h + 0, h + 0 + 2);
    lemma_store_bytes_disjoint(t6, b + 16, spec_u64_to_le_bytes(close_till), h + 0, h + 0 + 2);
    lemma_store_bytes_disjoint(t7, b + 24, spec_i64_to_le_bytes(auction), h + 0, h + 0 + 2);
    lemma_store_bytes_disjoint(t8, b + 32, spec_i32_to_le_bytes(session), h + 0, h + 0 + 2);
    lemma_store_bytes_disjoint(t9, b + 36, spec_i32_to_le_bytes(ev_open), h + 0, h + 0 + 2);
    lemma_store_bytes_disjoint(t10, b + 40, spec_i32_to_le_bytes(ev_close), h + 0, h + 0 + 2);
    lemma_read_u16_store(t1, h + 2, SBE_TEMPLATE_ID);
    lemma_store_bytes_disjoint(t2, h + 4, spec_u16_to_le_bytes(SBE_SCHEMA_ID), h + 2, h + 2 + 2);
    lemma_store_bytes_disjoint(t3, h + 6, spec_u16_to_le_bytes(SBE_SCHEMA_VERSION), h + 2, h + 2 + 2);
    lemma_store_bytes_disjoint(t4, b + 0, spec_u64_to_le_bytes(open_time), h + 2, h + 2 + 2);
    lemma_store_bytes_disjoint(t5, b + 8, spec_u64_to_le_bytes(close_from), h + 2, h + 2 + 2);
    lemma_store_bytes_disjoint(t6, b + 16, spec_u64_to_le_bytes(close_till), h + 2, h + 2 + 2);
    lemma_store_bytes_disjoint(t7, b + 24, spec_i64_to_le_bytes(auction), h + 2, h + 2 + 2);
    lemma_store_bytes_disjoint(t8, b + 32, spec_i32_to_le_bytes(session), h + 2, h + 2 + 2);
    lemma_store_bytes_disjoint(t9, b + 36, spec_i32_to_le_bytes(ev_open), h + 2, h + 2 + 2);
    lemma_store_bytes_disjoint(t10, b + 40, spec_i32_to_le_bytes(ev_close), h + 2, h + 2 + 2);
    lemma_read_u16_store(t2, h + 4, SBE_SCHEMA_ID);
    lemma_store_bytes_disjoint(t3, h + 6, spec_u16_to_le_bytes(SBE_SCHEMA_VERSION), h + 4, h + 4 + 2);
    lemma_store_bytes_disjoint(t4, b + 0, spec_u64_to_le_bytes(open_time), h + 4, h + 4 + 2);
    lemma_store_bytes_disjoint(t5, b + 8, spec_u64_to_le_bytes(close_from), h + 4, h + 4 + 2);
    lemma_store_bytes_disjoint(t6, b + 16, spec_u64_to_le_bytes(close_till), h + 4, h + 4 + 2);
    lemma_store_bytes_disjoint(t7, b + 24, spec_i64_to_le_bytes(auction), h + 4, h + 4 + 2);
    lemma_store_bytes_disjoint(t8, b + 32, spec_i32_to_le_bytes(session), h + 4, h + 4 + 2);
    lemma_store_bytes_disjoint(t9, b + 36, spec_i32_to_le_bytes(ev_open), h + 4, h + 4 + 2);
    lemma_store_bytes_disjoint(t10, b + 40, spec_i32_to_le_bytes(ev_close), h + 4, h + 4 + 2);
    lemma_read_u16_store(t3, h + 6, SBE_SCHEMA_VERSION);
    lemma_store_bytes_disjoint(t4, b + 0, spec_u64_to_le_bytes(open_time), h + 6, h + 6 + 2);
    lemma_store_bytes_disjoint(t5, b + 8, spec_u64_to_le_bytes(close_from), h + 6, h + 6 + 2);
    lemma_store_bytes_disjoint(t6, b + 16, spec_u64_to_le_bytes(close_till), h + 6, h + 6 + 2);
    lemma_store_bytes_disjoint(t7, b + 24, spec_i64_to_le_bytes(auction), h + 6, h + 6 + 2);
    lemma_store_bytes_disjoint(t8, b + 32, spec_i32_to_le_bytes(session), h + 6, h + 6 + 2);
    lemma_store_bytes_disjoint(t9, b + 36, spec_i32_to_le_bytes(ev_open), h + 6, h + 6 + 2);
    lemma_store_bytes_disjoint(t10, b + 40, spec_i32_to_le_bytes(ev_close), h + 6, h + 6 + 2);
    lemma_read_u64_store(t4, b + 0, open_time);
    lemma_store_bytes_disjoint(t5, b + 8, spec_u64_to_le_bytes(close_from), b + 0, b + 0 + 8);
    lemma_store_bytes_disjoint(t6, b + 16, spec_u64_to_le_bytes(close_till), b + 0, b + 0 + 8);
    lemma_store_bytes_disjoint(t7, b + 24, spec_i64_to_le_bytes(auction), b + 0, b + 0 + 8);
    lemma_store_bytes_disjoint(t8, b + 32, spec_i32_to_le_bytes(session), b + 0, b + 0 + 8);
    lemma_store_bytes_disjoint(t9, b + 36, spec_i32_to_le_bytes(ev_open), b + 0, b + 0 + 8);
    lemma_store_bytes_disjoint(t10, b + 40, spec_i32_to_le_bytes(ev_close), b + 0, b + 0 + 8);
    lemma_read_u64_store(t5, b + 8, close_from);
    lemma_store_bytes_disjoint(t6, b + 16, spec_u64_to_le_bytes(close_till), b + 8, b + 8 + 8);
    lemma_store_bytes_disjoint(t7, b + 24, spec_i64_to_le_bytes(auction), b + 8, b + 8 + 8);
    lemma_store_bytes_disjoint(t8, b + 32, spec_i32_to_le_bytes(session), b + 8, b + 8 + 8);
    lemma_store_bytes_disjoint(t9, b + 36, spec_i32_to_le_bytes(ev_open), b + 8, b + 8 + 8);
    lemma_store_bytes_disjoint(t10, b + 40, spec_i32_to_le_bytes(ev_close), b + 8, b + 8 + 8);
    lemma_read_u64_store(t6, b + 16, close_till);
    lemma_store_bytes_disjoint(t7, b + 24, spec_i64_to_le_bytes(auction), b + 16, b + 16 + 8);
    lemma_store_bytes_disjoint(t8, b + 32, spec_i32_to_le_bytes(session), b + 16, b + 16 + 8);
    lemma_store_bytes_disjoint(t9, b + 36, spec_i32_to_le_bytes(ev_open), b + 16, b + 16 + 8);
    lemma_store_bytes_disjoint(t10, b + 40, spec_i32_to_le_bytes(ev_close), b + 16, b + 16 + 8);
    lemma_read_i64_store(t7, b + 24, auction);
    lemma_store_bytes_disjoint(t8, b + 32, spec_i32_to_le_bytes(session), b + 24, b + 24 + 8);
    lemma_store_bytes_disjoint(t9, b + 36, spec_i32_to_le_bytes(ev_open), b + 24, b + 24 + 8);
    lemma_store_bytes_disjoint(t10, b + 40, spec_i32_to_le_bytes(ev_close), b + 24, b + 24 + 8);
    lemma_read_i32_store(t8, b + 32, session);
    lemma_store_bytes_disjoint(t9, b + 36, spec_i32_to_le_bytes(ev_open), b + 32, b + 32 + 4);
    lemma_store_bytes_disjoint(t10, b + 40, spec_i32_to_le_bytes(ev_close), b + 32, b + 32 + 4);
    lemma_read_i32_store(t9, b + 36, ev_open);
    lemma_store_bytes_disjoint(t10, b + 40, spec_i32_to_le_bytes(ev_close), b + 36, b + 36 + 4);
    lemma_read_i32_store(t10, b + 40, ev_close);
}

/// Round trip of the group descriptor: the element block length (zero for
/// this group) and the entry count written at `off` read back as themselves.
pub proof fn lemma_group_descriptor_round_trip(s: Seq<u8>, off: int, count: u8)
    requires
        0 <= off,
        off + 3 <= s.len(),
    ensures
        ({
            let e = store_bytes(
                store_bytes(s, off, spec_u16_to_le_bytes(0u16)),
                off + 2,
                seq![count],
            );
            &&& e.len() == s.len()
            &&& read_u16(e, off) == 0
            &&& read_u8(e, off + 2) == count
        }),
{
    lemma_auto_spec_u16_to_from_le_bytes();
    let t1 = store_bytes(s, off, spec_u16_to_le_bytes(0u16));
    lemma_store_bytes(s, off, spec_u16_to_le_bytes(0u16));
    lemma_store_bytes(t1, off + 2, seq![count]);
    lemma_read_u16_store(s, off, 0u16);
    lemma_store_bytes_disjoint(t1, off + 2, seq![count], off, off + 2);
}

/// Round trip of one variable-length field: the length prefix reads back as
/// the payload's length and the payload bytes read back unchanged, for any
/// length from zero up to what the prefix and the buffer can hold.
pub proof fn lemma_var_data_round_trip(s: Seq<u8>, off: int, payload: Seq<u8>)
    requires
        0 <= off,
        payload.len() <= u16::MAX,
        off + 2 + payload.len() <= s.len(),
    ensures
        ({
            let e = store_bytes(
                store_bytes(s, off, spec_u16_to_le_bytes(payload.len() as u16)),
                off + 2,
                payload,
            );
            &&& e.len() == s.len()
            &&& read_u16(e, off) == payload.len()
            &&& e.subrange(off + 2, off + 2 + payload.len()) == payload
        }),
{
    lemma_auto_spec_u16_to_from_le_bytes();
    let t1 = store_bytes(s, off, spec_u16_to_le_bytes(payload.len() as u16));
    lemma_store_bytes(s, off, spec_u16_to_le_bytes(payload.len() as u16));
    lemma_store_bytes(t1, off + 2, payload);
    lemma_read_u16_store(s, off, payload.len() as u16);
    lemma_store_bytes_disjoint(t1, off + 2, payload, off, off + 2);
    lemma_store_bytes_read_back(t1, off + 2, payload);
}

} // verus!
