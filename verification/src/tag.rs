//! Derivation of the compact per-type identity tag stored in a block header.
//!
//! A tag is a 48-bit value obtained by folding a wider 64-bit type identity:
//! the upper 16 bits are xor-ed into the lower bits and the result is masked
//! to fit the 6-byte slot of the header.  The all-ones value is reserved as
//! the sentinel written into the header of a destroyed block, so no live
//! descriptor may carry it.

use vstd::prelude::*;

verus! {

/// Mask of the 48 bits a tag may occupy in the block header.
pub const TAG_MASK: u64 = 0xFFFF_FFFF_FFFF;

/// Header tag of a destroyed block: the all-ones sentinel.  Validation of a
/// destroyed block must fail against every descriptor, so descriptors never
/// carry this value.
pub const TAG_POISON: u64 = 0xFFFF_FFFF_FFFF;

/// What [`mk_user_magic_raw`] computes: the upper 16 bits of the identity are
/// folded (xor) into the lower 48 and the result is truncated to 48 bits.
pub open spec fn spec_mk_user_magic_raw(m: u64) -> u64 {
    ((m ^ (m >> 48)) << 16) >> 16
}

/// Folds a 64-bit type identity into the 48-bit tag slot of a block header.
///
/// The result always fits in 48 bits; it equals the identity xor-ed with its
/// own upper 16 bits, masked to the lower 48.
#[verifier::when_used_as_spec(spec_mk_user_magic_raw)]
pub fn mk_user_magic_raw(m: u64) -> (r: u64)
    ensures
        r == spec_mk_user_magic_raw(m),
        r == (m ^ (m >> 48)) & TAG_MASK,
        r <= TAG_MASK,
{
    proof {
        assert(((m ^ (m >> 48)) << 16) >> 16 == (m ^ (m >> 48)) & 0xFFFF_FFFF_FFFFu64)
            by (bit_vector);
        assert((m ^ (m >> 48)) & 0xFFFF_FFFF_FFFFu64 <= 0xFFFF_FFFF_FFFFu64) by (bit_vector);
    }
    ((m ^ (m >> 48)) << 16) >> 16
}

} // verus!
