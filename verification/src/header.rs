//! Message header codec: every message starts with four little-endian `u16`
//! fields — block length, template id, schema id, schema version — at offsets
//! 0, 2, 4 and 6 from the header's start.

use vstd::prelude::*;
use vstd::bytes::spec_u16_to_le_bytes;
use crate::buf::ReadBuf;
use crate::discrete_auction::DiscreteAuctionEncoder;
use crate::error::{SbeErr, SbeResult};
use crate::wire::{read_u16, store_bytes};

verus! {

/// Byte size of the message header.
pub const ENCODED_LENGTH: usize = 8;

/// Encodes the four header fields through its parent encoder's buffer.
#[derive(Debug)]
pub struct MessageHeaderEncoder {
    parent: Option<DiscreteAuctionEncoder>,
    offset: usize,
}

impl MessageHeaderEncoder {
    pub closed spec fn parent_opt(&self) -> Option<DiscreteAuctionEncoder> {
        self.parent
    }

    pub open spec fn has_parent(&self) -> bool {
        self.parent_opt() is Some
    }

    pub open spec fn parent_spec(&self) -> DiscreteAuctionEncoder {
        self.parent_opt().unwrap()
    }

    pub closed spec fn offset_spec(&self) -> int {
        self.offset as int
    }

    pub fn wrap(self, parent: DiscreteAuctionEncoder, offset: usize) -> (r: Self)
        ensures
            r.has_parent(),
            r.parent_spec() == parent,
            r.offset_spec() == offset,
    {
        MessageHeaderEncoder { parent: Some(parent), offset }
    }

    /// Writes the block-length field at header offset 0.
    pub fn block_length(&mut self, value: u16)
        requires
            old(self).has_parent(),
            old(self).offset_spec() + 2 <= old(self).parent_spec().bytes().len(),
        ensures
            final(self).header_field_put(*old(self), 0, value),
    {
        self.put_field(0, value);
    }

    /// Writes the template-id field at header offset 2.
    pub fn template_id(&mut self, value: u16)
        requires
            old(self).has_parent(),
            old(self).offset_spec() + 4 <= old(self).parent_spec().bytes().len(),
        ensures
            final(self).header_field_put(*old(self), 2, value),
    {
        self.put_field(2, value);
    }

    /// Writes the schema-id field at header offset 4.
    pub fn schema_id(&mut self, value: u16)
        requires
            old(self).has_parent(),
            old(self).offset_spec() + 6 <= old(self).parent_spec().bytes().len(),
        ensures
            final(self).header_field_put(*old(self), 4, value),
    {
        self.put_field(4, value);
    }

    /// Writes the schema-version field at header offset 6.
    pub fn version(&mut self, value: u16)
        requires
            old(self).has_parent(),
            old(self).offset_spec() + 8 <= old(self).parent_spec().bytes().len(),
        ensures
            final(self).header_field_put(*old(self), 6, value),
    {
        self.put_field(6, value);
    }

    /// The state after writing `value` at `rel` bytes past the header start:
    /// only those two bytes of the parent's buffer change.
    pub open spec fn header_field_put(&self, pre: Self, rel: int, value: u16) -> bool {
        &&& self.has_parent()
        &&& self.offset_spec() == pre.offset_spec()
        &&& self.parent_spec().bytes() == store_bytes(
            pre.parent_spec().bytes(),
            pre.offset_spec() + rel,
            spec_u16_to_le_bytes(value),
        )
        &&& self.parent_spec().bytes().len() == pre.parent_spec().bytes().len()
        &&& self.parent_spec().offset_spec() == pre.parent_spec().offset_spec()
        &&& self.parent_spec().limit_spec() == pre.parent_spec().limit_spec()
        &&& (pre.parent_spec().wf() ==> self.parent_spec().wf())
    }

    fn put_field(&mut self, rel: usize, value: u16)
        requires
            old(self).has_parent(),
            old(self).offset_spec() + rel + 2 <= old(self).parent_spec().bytes().len(),
        ensures
            final(self).has_parent(),
            final(self).offset_spec() == old(self).offset_spec(),
            final(self).parent_spec().bytes() == store_bytes(
                old(self).parent_spec().bytes(),
                old(self).offset_spec() + rel,
                spec_u16_to_le_bytes(value),
            ),
            final(self).parent_spec().bytes().len() == old(self).parent_spec().bytes().len(),
            final(self).parent_spec().offset_spec() == old(self).parent_spec().offset_spec(),
            final(self).parent_spec().limit_spec() == old(self).parent_spec().limit_spec(),
            (old(self).parent_spec().wf() ==> final(self).parent_spec().wf()),
    {
        let mut p = self.parent.take().unwrap();
        let n = p.buffer_len();
        assert(self.offset + rel + 2 <= n);
        p.put_u16_at(self.offset + rel, value);
        self.parent = Some(p);
    }

    /// Hands the parent encoder back; a second call fails with `ParentNotSet`.
    pub fn parent(&mut self) -> (r: SbeResult<DiscreteAuctionEncoder>)
        ensures
            old(self).has_parent() ==> {
                &&& r matches Ok(p) && p == old(self).parent_spec()
                &&& !final(self).has_parent()
                &&& final(self).offset_spec() == old(self).offset_spec()
            },
            !old(self).has_parent() ==> r == Err::<DiscreteAuctionEncoder, SbeErr>(
                SbeErr::ParentNotSet,
            ) && *final(self) == *old(self),
    {
        match self.parent.take() {
            Some(p) => Ok(p),
            None => Err(SbeErr::ParentNotSet),
        }
    }
}

impl Default for MessageHeaderEncoder {
    /// A detached header encoder, to be attached with `wrap`.
    fn default() -> (r: Self)
        ensures
            !r.has_parent(),
    {
        MessageHeaderEncoder { parent: None, offset: 0 }
    }
}

/// Decodes the four header fields from a read buffer.
#[derive(Debug)]
pub struct MessageHeaderDecoder {
    parent: Option<ReadBuf>,
    offset: usize,
}

impl MessageHeaderDecoder {
    pub closed spec fn parent_opt(&self) -> Option<ReadBuf> {
        self.parent
    }

    pub open spec fn has_parent(&self) -> bool {
        self.parent_opt() is Some
    }

    pub open spec fn bytes(&self) -> Seq<u8> {
        self.parent_opt().unwrap()@
    }

    pub closed spec fn offset_spec(&self) -> int {
        self.offset as int
    }

    pub fn wrap(self, buf: ReadBuf, offset: usize) -> (r: Self)
        ensures
            r.has_parent(),
            r.bytes() == buf@,
            r.offset_spec() == offset,
    {
        MessageHeaderDecoder { parent: Some(buf), offset }
    }

    /// Reads the block-length field at header offset 0.
    pub fn block_length(&self) -> (r: u16)
        requires
            self.has_parent(),
            self.offset_spec() + ENCODED_LENGTH <= self.bytes().len(),
        ensures
            r == read_u16(self.bytes(), self.offset_spec()),
    {
        self.get_field(0)
    }

    /// Reads the template-id field at header offset 2.
    pub fn template_id(&self) -> (r: u16)
        requires
            self.has_parent(),
            self.offset_spec() + ENCODED_LENGTH <= self.bytes().len(),
        ensures
            r == read_u16(self.bytes(), self.offset_spec() + 2),
    {
        self.get_field(2)
    }

    /// Reads the schema-id field at header offset 4.
    pub fn schema_id(&self) -> (r: u16)
        requires
            self.has_parent(),
            self.offset_spec() + ENCODED_LENGTH <= self.bytes().len(),
        ensures
            r == read_u16(self.bytes(), self.offset_spec() + 4),
    {
        self.get_field(4)
    }

    /// Reads the schema-version field at header offset 6.
    pub fn version(&self) -> (r: u16)
        requires
            self.has_parent(),
            self.offset_spec() + ENCODED_LENGTH <= self.bytes().len(),
        ensures
            r == read_u16(self.bytes(), self.offset_spec() + 6),
    {
        self.get_field(6)
    }

    fn get_field(&self, rel: usize) -> (r: u16)
        requires
            self.has_parent(),
            rel + 2 <= ENCODED_LENGTH,
            self.offset_spec() + ENCODED_LENGTH <= self.bytes().len(),
        ensures
            r == read_u16(self.bytes(), self.offset_spec() + rel),
    {
        let p = self.parent.as_ref().unwrap();
        let n = p.len();
        assert(self.offset + rel + 2 <= n);
        p.get_u16_at(self.offset + rel)
    }

    /// Hands the read buffer back; a second call fails with `ParentNotSet`.
    pub fn parent(&mut self) -> (r: SbeResult<ReadBuf>)
        ensures
            old(self).has_parent() ==> {
                &&& r matches Ok(b) && b@ == old(self).bytes()
                &&& !final(self).has_parent()
                &&& final(self).offset_spec() == old(self).offset_spec()
            },
            !old(self).has_parent() ==> r == Err::<ReadBuf, SbeErr>(SbeErr::ParentNotSet)
                && *final(self) == *old(self),
    {
        match self.parent.take() {
            Some(p) => Ok(p),
            None => Err(SbeErr::ParentNotSet),
        }
    }
}

impl Default for MessageHeaderDecoder {
    /// A detached header decoder, to be attached with `wrap`.
    fn default() -> (r: Self)
        ensures
            !r.has_parent(),
    {
        MessageHeaderDecoder { parent: None, offset: 0 }
    }
}

} // verus!
