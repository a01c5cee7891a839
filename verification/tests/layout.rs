//! Tests of the tag fold and the raw block layout.

use userdata::block::Block;
use userdata::tag::{mk_user_magic_raw, TAG_MASK, TAG_POISON};

#[test]
fn magic_fold_examples() {
    assert_eq!(mk_user_magic_raw(0x1234_5678_9ABC_DEF0), 0x5678_9ABC_CCC4);
    assert_eq!(mk_user_magic_raw(0xFFFF_FFFF_FFFF_FFFF), 0xFFFF_FFFF_0000);
    assert_eq!(mk_user_magic_raw(0x0000_1111_2222_3333), 0x1111_2222_3333);
    assert_eq!(mk_user_magic_raw(0), 0);
}

#[test]
fn magic_fold_fits_48_bits() {
    for m in [0u64, 1, 0xFFFF, u64::MAX, 0x8000_0000_0000_0000, 0x1234_5678_9ABC_DEF0] {
        assert!(mk_user_magic_raw(m) <= TAG_MASK);
        assert_eq!(mk_user_magic_raw(m), (m ^ (m >> 48)) & TAG_MASK);
    }
}

#[test]
fn block_header_starts_unfrozen() {
    let b = Block::new(0x7777, vec![1, 2, 3], String::from("Thing"));
    assert_eq!(b.tag(), 0x7777);
    assert!(!b.is_frozen());
    assert_eq!(b.read_payload(), vec![1, 2, 3]);
    assert_eq!(b.metatable_name().as_str(), "Thing");
}

#[test]
fn block_empty_payload() {
    let b = Block::new(5, Vec::new(), String::from("Unit"));
    assert_eq!(b.tag(), 5);
    assert_eq!(b.read_payload(), Vec::<u8>::new());
}

#[test]
fn block_tag_roundtrip_large() {
    // The largest tag a live descriptor may carry: one below the sentinel.
    let tag = TAG_POISON - 1;
    let b = Block::new(tag, vec![0], String::from("Big"));
    assert_eq!(b.tag(), tag);
}

#[test]
fn block_bytes_are_little_endian_layout() {
    let mut b = Block::new(0x0BAD_C0DE, vec![0xAA, 0xBB], String::from("Pair"));
    assert_eq!(
        b.as_bytes(),
        &[0x00, 0x00, 0xDE, 0xC0, 0xAD, 0x0B, 0x00, 0x00, 0xAA, 0xBB]
    );
    b.freeze();
    assert_eq!(b.as_bytes()[1], 0x01);
    b.destroy();
    assert_eq!(b.as_bytes(), &[0xFF; 10]);
}

#[test]
fn block_freeze_idempotent() {
    let mut b = Block::new(9, vec![4, 5], String::from("Pair"));
    b.freeze();
    assert!(b.is_frozen());
    let once = b.read_payload();
    b.freeze();
    assert!(b.is_frozen());
    assert_eq!(b.read_payload(), once);
    assert_eq!(b.tag(), 9);
}

#[test]
fn block_destroy_poisons_everything() {
    let mut b = Block::new(0x1234, vec![10, 20, 30, 40], String::from("Quad"));
    b.destroy();
    assert_eq!(b.tag(), TAG_POISON);
    assert!(b.is_frozen());
    assert_eq!(b.read_payload(), vec![0xFF, 0xFF, 0xFF, 0xFF]);
}
