//! The binary layout of one userdata block and the operations on its header.
//!
//! A block is a single byte buffer: an 8-byte header followed by a payload
//! region of a fixed size.  The header is, byte-addressed and little-endian:
//!
//! - byte 0: the borrow count, a signed 8-bit value.  Nonnegative means no
//!   exclusive access is outstanding.  The field is checked before every
//!   access but never incremented or decremented: it is an advisory guard
//!   against illegal aliasing in native logic, kept at its initial value of
//!   zero for the whole life of the block.
//! - byte 1: the frozen flag, zero while the payload is mutable; setting it
//!   is a one-way transition and no operation ever clears it.
//! - bytes 2-7: the owning descriptor's 48-bit type tag.
//!
//! Destroying a block overwrites the whole buffer with a poison pattern (the
//! header becomes all ones, the payload all `0xFF`), so a destroyed block
//! carries the sentinel tag and validates against no well-formed descriptor.

use vstd::prelude::*;

use crate::tag::{TAG_MASK, TAG_POISON};

verus! {

/// Size in bytes of the block header that precedes the payload region.
pub const HEADER_SIZE: usize = 8;

/// Mathematical model of one block: the decoded header fields, the payload
/// bytes, and the name of the metatable attached when the block was created.
#[verifier::ext_equal]
pub ghost struct BlockModel {
    /// Byte 0 of the header, the borrow count (a signed byte held raw).
    pub borrow: u8,
    /// Byte 1 of the header; nonzero means permanently frozen.
    pub frozen: u8,
    /// Bytes 2-7 of the header, decoded little-endian.
    pub tag: u64,
    /// The payload region, exactly as laid out behind the header.
    pub payload: Seq<u8>,
    /// Name under which the block's metatable is registered.
    pub metatable: Seq<char>,
}

/// The 48-bit tag held little-endian in bytes 2-7 of a block's buffer.
pub open spec fn header_tag(b: Seq<u8>) -> u64 {
    ((b[2] as int) + (b[3] as int) * 0x100 + (b[4] as int) * 0x1_0000 + (b[5] as int)
        * 0x100_0000 + (b[6] as int) * 0x1_0000_0000 + (b[7] as int) * 0x100_0000_0000) as u64
}

/// The borrow count is nonnegative when read as a signed byte: no exclusive
/// access is outstanding.
pub open spec fn borrow_nonneg(m: BlockModel) -> bool {
    m.borrow < 0x80
}

/// Every reachable block keeps its borrow count at the initial value zero
/// until it is destroyed, when the whole header becomes the all-ones poison
/// pattern.  No operation ever increments or decrements the count.
pub open spec fn block_inv(m: BlockModel) -> bool {
    m.borrow == 0 || (m.borrow == 0xFF && m.frozen == 0xFF)
}

/// What freezing does to a block: a no-op when the frozen flag is already
/// set, otherwise the flag is set to one.  Monotone and idempotent; the
/// payload, the tag and the borrow count are untouched.
pub open spec fn spec_freeze(m: BlockModel) -> BlockModel {
    if m.frozen != 0 {
        m
    } else {
        BlockModel { frozen: 1u8, ..m }
    }
}

/// What destroying does to a block: the header becomes all ones (so the tag
/// reads as the poison sentinel) and every payload byte becomes `0xFF`.
pub open spec fn spec_destroy(m: BlockModel) -> BlockModel {
    BlockModel {
        borrow: 0xFFu8,
        frozen: 0xFFu8,
        tag: TAG_POISON,
        payload: Seq::new(m.payload.len(), |i: int| 0xFFu8),
        metatable: m.metatable,
    }
}

/// One userdata block: the raw header-plus-payload buffer, and the name of
/// the metatable the interpreter attached to the block when it was created.
pub struct Block {
    bytes: Vec<u8>,
    metatable: String,
}

impl View for Block {
    type V = BlockModel;

    closed spec fn view(&self) -> BlockModel {
        BlockModel {
            borrow: self.bytes@[0],
            frozen: self.bytes@[1],
            tag: header_tag(self.bytes@),
            payload: self.bytes@.skip(8),
            metatable: self.metatable@,
        }
    }
}

impl Block {
    /// The buffer is at least a header long, and the borrow count obeys
    /// [`block_inv`].
    pub closed spec fn wf(&self) -> bool {
        &&& self.bytes@.len() >= 8
        &&& self.bytes@.len() == 8 + self@.payload.len()
        &&& block_inv(self@)
    }

    /// Facts every well-formed block guarantees: its borrow invariant, and
    /// that the 6-byte tag slot can only hold a 48-bit value.
    pub proof fn lemma_wf_facts(&self)
        requires
            self.wf(),
        ensures
            block_inv(self@),
            self@.tag <= TAG_MASK,
    {
        assert(self@.tag <= TAG_MASK) by {
            assert(self.bytes@[2] <= 0xFF && self.bytes@[3] <= 0xFF && self.bytes@[4] <= 0xFF
                && self.bytes@[5] <= 0xFF && self.bytes@[6] <= 0xFF && self.bytes@[7] <= 0xFF);
        }
    }

    /// Lays out a fresh block for a type with the given tag: borrow count
    /// zero, frozen flag clear, the tag little-endian in bytes 2-7, and the
    /// payload immediately behind the header.  Records the metatable name
    /// the interpreter attached to the new block.
    pub fn new(tag: u64, payload: Vec<u8>, metatable: String) -> (b: Block)
        requires
            tag <= TAG_MASK,
            payload@.len() <= usize::MAX - 8,
        ensures
            b.wf(),
            b@.borrow == 0,
            b@.frozen == 0,
            b@.tag == tag,
            b@.payload == payload@,
            b@.metatable == metatable@,
    {
        proof {
            assert((tag & 0xFF) < 0x100 && ((tag >> 8) & 0xFF) < 0x100 && ((tag >> 16) & 0xFF)
                < 0x100 && ((tag >> 24) & 0xFF) < 0x100 && ((tag >> 32) & 0xFF) < 0x100 && ((tag
                >> 40) & 0xFF) < 0x100) by (bit_vector);
            assert((tag & 0xFF) + ((tag >> 8) & 0xFF) * 0x100 + ((tag >> 16) & 0xFF) * 0x1_0000 + (
            (tag >> 24) & 0xFF) * 0x100_0000 + ((tag >> 32) & 0xFF) * 0x1_0000_0000 + ((tag >> 40)
                & 0xFF) * 0x100_0000_0000 == tag) by (bit_vector)
                requires
                    tag <= 0xFFFF_FFFF_FFFFu64,
            ;
        }
        let mut bytes: Vec<u8> = Vec::new();
        bytes.push(0);
        bytes.push(0);
        bytes.push((tag & 0xFF) as u8);
        bytes.push(((tag >> 8) & 0xFF) as u8);
        bytes.push(((tag >> 16) & 0xFF) as u8);
        bytes.push(((tag >> 24) & 0xFF) as u8);
        bytes.push(((tag >> 32) & 0xFF) as u8);
        bytes.push(((tag >> 40) & 0xFF) as u8);
        let mut rest = payload;
        bytes.append(&mut rest);
        let b = Block { bytes, metatable };
        proof {
            assert(b@.payload =~= payload@);
        }
        b
    }

    /// Reads the type tag out of bytes 2-7 of the header.
    pub fn tag(&self) -> (t: u64)
        requires
            self.wf(),
        ensures
            t == self@.tag,
            t <= TAG_MASK,
    {
        proof {
            self.lemma_wf_facts();
        }
        (self.bytes[2] as u64) + (self.bytes[3] as u64) * 0x100 + (self.bytes[4] as u64) * 0x1_0000
            + (self.bytes[5] as u64) * 0x100_0000 + (self.bytes[6] as u64) * 0x1_0000_0000 + (
        self.bytes[7] as u64) * 0x100_0000_0000
    }

    /// Reads the frozen flag out of byte 1 of the header.
    pub fn is_frozen(&self) -> (f: bool)
        requires
            self.wf(),
        ensures
            f == (self@.frozen != 0),
    {
        self.bytes[1] != 0
    }

    /// The raw buffer, exactly as the layout prescribes: the 8-byte header
    /// (borrow byte, frozen byte, 48-bit little-endian tag) immediately
    /// followed by the payload region.
    pub fn as_bytes(&self) -> (r: &[u8])
        requires
            self.wf(),
        ensures
            r@.len() == HEADER_SIZE + self@.payload.len(),
            r@[0] == self@.borrow,
            r@[1] == self@.frozen,
            header_tag(r@) == self@.tag,
            r@.skip(8) == self@.payload,
    {
        self.bytes.as_slice()
    }

    /// The metatable name recorded when the block was created.
    pub fn metatable_name(&self) -> (n: &String)
        ensures
            n@ == self@.metatable,
    {
        &self.metatable
    }

    /// Sets the frozen flag unless it is already set; a one-way transition.
    ///
    /// Before setting the flag the borrow count must be nonnegative; that is
    /// the borrow-count assertion of the design, and it holds of every
    /// reachable block because the count never leaves zero while the block is
    /// alive.
    pub fn freeze(&mut self)
        requires
            old(self).wf(),
        ensures
            final(self).wf(),
            final(self)@ == spec_freeze(old(self)@),
            final(self)@.frozen != 0,
    {
        if self.bytes[1] == 0 {
            proof {
                // The fatal assertion of the design: the borrow count is
                // nonnegative whenever the flag is about to be set.
                assert(self@.borrow == 0);
                assert(borrow_nonneg(self@));
            }
            self.bytes.set(1, 1);
            proof {
                assert(self@ =~= spec_freeze(old(self)@));
            }
        }
    }

    /// Copies the payload region out of the buffer.
    pub fn read_payload(&self) -> (p: Vec<u8>)
        requires
            self.wf(),
        ensures
            p@ == self@.payload,
    {
        let n = self.bytes.len();
        let mut p: Vec<u8> = Vec::new();
        let mut i: usize = 8;
        while i < n
            invariant
                8 <= i <= n,
                n == self.bytes@.len(),
                self.bytes@.len() >= 8,
                p@ == self.bytes@.subrange(8, i as int),
            decreases n - i,
        {
            p.push(self.bytes[i]);
            proof {
                assert(self.bytes@.subrange(8, i + 1) =~= self.bytes@.subrange(8, i as int).push(
                    self.bytes@[i as int],
                ));
            }
            i = i + 1;
        }
        proof {
            assert(p@ =~= self@.payload);
        }
        p
    }

    /// Overwrites the payload region in place; the header is untouched.
    ///
    /// This is the raw buffer write behind the handle operations; the freeze
    /// flag and the borrow count are checked by the callers that expose it.
    pub(crate) fn write_payload(&mut self, v: &Vec<u8>)
        requires
            old(self).wf(),
            v@.len() == old(self)@.payload.len(),
        ensures
            final(self).wf(),
            final(self)@ == (BlockModel { payload: v@, ..old(self)@ }),
    {
        let total = self.bytes.len();
        let n = v.len();
        proof {
            assert(total == 8 + n);
        }
        let mut i: usize = 0;
        while i < n
            invariant
                0 <= i <= n,
                n == v@.len(),
                n <= usize::MAX - 8,
                self.bytes@.len() == old(self).bytes@.len(),
                old(self).bytes@.len() == 8 + n,
                forall|j: int| 0 <= j < 8 ==> self.bytes@[j] == old(self).bytes@[j],
                forall|j: int| 8 <= j < 8 + i ==> self.bytes@[j] == v@[j - 8],
                forall|j: int| 8 + i <= j < 8 + n ==> self.bytes@[j] == old(self).bytes@[j],
                self.metatable == old(self).metatable,
            decreases n - i,
        {
            self.bytes.set(8 + i, v[i]);
            i = i + 1;
        }
        proof {
            assert(self@ =~= (BlockModel { payload: v@, ..old(self)@ }));
        }
    }

    /// Overwrites the whole buffer with the poison pattern: all-ones header,
    /// `0xFF` in every payload byte.  Any later validation attempt reads the
    /// sentinel tag and fails against every well-formed descriptor.
    pub fn destroy(&mut self)
        requires
            old(self).wf(),
        ensures
            final(self).wf(),
            final(self)@ == spec_destroy(old(self)@),
    {
        let n = self.bytes.len();
        let mut i: usize = 0;
        while i < n
            invariant
                0 <= i <= n,
                n == self.bytes@.len(),
                self.bytes@.len() == old(self).bytes@.len(),
                old(self).bytes@.len() >= 8,
                forall|j: int| 0 <= j < i ==> self.bytes@[j] == 0xFF,
                self.metatable == old(self).metatable,
            decreases n - i,
        {
            self.bytes.set(i, 0xFF);
            i = i + 1;
        }
        proof {
            assert(self@.payload =~= spec_destroy(old(self)@).payload);
            assert(self@ =~= spec_destroy(old(self)@));
        }
    }
}

/// Freezing is idempotent: the second application changes nothing, and
/// neither application touches the payload, the tag or the borrow count.
pub proof fn lemma_freeze_idempotent(m: BlockModel)
    ensures
        spec_freeze(spec_freeze(m)) == spec_freeze(m),
        spec_freeze(m).payload == m.payload,
        spec_freeze(m).tag == m.tag,
        spec_freeze(m).borrow == m.borrow,
{
}

} // verus!
