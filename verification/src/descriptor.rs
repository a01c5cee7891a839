//! Static per-type metadata for a native type bound into the interpreter.
//!
//! Exactly one descriptor exists per bound native type; it is created once at
//! startup and is read-only afterwards.  Its display name is used verbatim in
//! script-visible type-error messages and as the key of the type's metatable
//! in the interpreter registry; its tag is written into the header of every
//! block created under it.

use vstd::prelude::*;

use crate::tag::{TAG_MASK, TAG_POISON};

verus! {

/// Static metadata of one bound native type: display name, exact payload size
/// in bytes, and the 48-bit identity tag written into block headers.
pub struct Descriptor {
    /// Display name, used in type-error messages and as the metatable's
    /// registry key.
    pub name: String,
    /// Exact byte size of the payload region of a block of this type.
    pub payload_size: usize,
    /// 48-bit identity tag; blocks validate against this descriptor exactly
    /// when their header carries this value.
    pub tag: u64,
}

impl Descriptor {
    /// A descriptor is well formed when its tag fits the 48-bit header slot
    /// and is not the destroyed-block sentinel, and a block of its payload
    /// size can be laid out behind the 8-byte header.
    pub open spec fn wf(&self) -> bool {
        &&& self.tag <= TAG_MASK
        &&& self.tag != TAG_POISON
        &&& self.payload_size <= usize::MAX - 8
    }

    /// Creates the descriptor of one bound native type.
    ///
    /// The tag must fit 48 bits and must not be the destroyed-block sentinel;
    /// a caller deriving it with [`crate::tag::mk_user_magic_raw`] checks the
    /// sentinel case, whose probability is negligible, before binding the
    /// type.
    pub fn new(name: String, payload_size: usize, tag: u64) -> (d: Descriptor)
        requires
            tag <= TAG_MASK,
            tag != TAG_POISON,
            payload_size <= usize::MAX - 8,
        ensures
            d.name == name,
            d.payload_size == payload_size,
            d.tag == tag,
            d.wf(),
    {
        Descriptor { name, payload_size, tag }
    }
}

} // verus!
