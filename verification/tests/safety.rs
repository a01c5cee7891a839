//! Tests of validation, handles, freezing and destruction.

use userdata::descriptor::Descriptor;
use userdata::handle::{check_self_only, check_self_plus_n, ud_push, ud_push_raw, UserPtr};
use userdata::interp::{Interp, LuaError, Value};
use userdata::registry::{register_metatable, RegEntry, Registry};

fn sentinel() -> RegEntry {
    RegEntry { name: None, func: None }
}

fn registered(name: &str) -> (Registry, Descriptor, usize, u64) {
    let size = 2;
    let tag = match name {
        "Point" => 7,
        _ => 9,
    };
    let d = Descriptor::new(String::from(name), size, tag);
    let mut reg = Registry::new();
    let r = register_metatable(&mut reg, String::from(name), &vec![sentinel()]);
    assert!(r.is_ok());
    (reg, d, size, tag)
}

#[test]
fn cross_validation_fails() {
    // A block created under one descriptor never validates against a
    // descriptor with a different tag.
    let (reg, point, _, _) = registered("Point");
    let other = Descriptor::new(String::from("Other"), 2, 9);
    let mut interp = Interp::new();
    let idx = ud_push(&mut interp, &reg, &point, vec![1, 2]);
    assert!(UserPtr::try_new(&interp, idx, &point).is_some());
    assert!(UserPtr::try_new(&interp, idx, &other).is_none());
    assert!(UserPtr::try_new_fud(&interp, idx, &other).is_none());
}

#[test]
fn point_scenario() {
    // Create Point{1,2}; write (3,4); read (3,4); freeze; a further write
    // raises the frozen-write error and the payload stays (3,4).
    let (reg, point, _, _) = registered("Point");
    let mut interp = Interp::new();
    let idx = ud_push(&mut interp, &reg, &point, vec![1, 2]);
    let h = UserPtr::try_new(&interp, idx, &point).unwrap();

    assert!(h.write(&mut interp, &vec![3, 4], idx).is_ok());
    assert_eq!(h.read(&interp), vec![3, 4]);

    h.freeze(&mut interp);

    match h.write(&mut interp, &vec![9, 9], idx) {
        Err(LuaError::FrozenWrite { index }) => assert_eq!(index, idx),
        _ => panic!("a write to a frozen block must raise the frozen-write error"),
    }
    assert_eq!(h.read(&interp), vec![3, 4]);
}

#[test]
fn freeze_is_idempotent_through_handle() {
    let (reg, point, _, _) = registered("Point");
    let mut interp = Interp::new();
    let idx = ud_push(&mut interp, &reg, &point, vec![1, 2]);
    let h = UserPtr::try_new(&interp, idx, &point).unwrap();
    h.freeze(&mut interp);
    let once = h.read(&interp);
    h.freeze(&mut interp);
    assert_eq!(h.read(&interp), once);
    assert!(UserPtr::try_new(&interp, idx, &point).is_some());
}

#[test]
fn plain_number_is_not_a_point() {
    // A plain number where a Point is expected: require-style validation
    // raises a type error naming Point, try-style returns nothing.
    let (_, point, _, _) = registered("Point");
    let mut interp = Interp::new();
    interp.push(Value::Int(5));
    assert!(UserPtr::try_new(&interp, 0, &point).is_none());
    match UserPtr::new_or_error(&interp, 0, &point) {
        Err(LuaError::TypeMismatch { index, expected }) => {
            assert_eq!(index, 0);
            assert!(expected.contains("Point"));
        },
        _ => panic!("validating a number as Point must raise a type error"),
    }
}

#[test]
fn wrong_type_block_names_descriptor() {
    let (reg, point, _, _) = registered("Point");
    let other = Descriptor::new(String::from("Other"), 2, 9);
    let mut interp = Interp::new();
    let idx = ud_push(&mut interp, &reg, &point, vec![1, 2]);
    match UserPtr::new_or_error_fud(&interp, idx, &other) {
        Err(LuaError::TypeMismatch { index, expected }) => {
            assert_eq!(index, idx);
            assert_eq!(expected.as_str(), "Other");
        },
        _ => panic!("a Point block must not validate as Other"),
    }
}

#[test]
fn destroy_invalidates_against_every_descriptor() {
    let (reg, point, _, _) = registered("Point");
    let other = Descriptor::new(String::from("Other"), 2, 9);
    let mut interp = Interp::new();
    let idx = ud_push(&mut interp, &reg, &point, vec![1, 2]);
    let h = UserPtr::try_new(&interp, idx, &point).unwrap();
    h.drop(&mut interp);
    assert!(UserPtr::try_new(&interp, idx, &point).is_none());
    assert!(UserPtr::try_new(&interp, idx, &other).is_none());
    assert!(UserPtr::try_new_fud(&interp, idx, &point).is_none());
    assert!(UserPtr::new_or_error(&interp, idx, &point).is_err());
}

#[test]
fn read_with_passes_result_through() {
    let (reg, point, _, _) = registered("Point");
    let mut interp = Interp::new();
    let idx = ud_push(&mut interp, &reg, &point, vec![3, 4]);
    let h = UserPtr::try_new(&interp, idx, &point).unwrap();
    let sum = h.read_with(&interp, |p: Vec<u8>| p[0] as u32 + p[1] as u32);
    assert_eq!(sum, 7);
}

#[test]
fn write_with_maps_payload() {
    let (reg, point, _, _) = registered("Point");
    let mut interp = Interp::new();
    let idx = ud_push(&mut interp, &reg, &point, vec![3, 4]);
    let h = UserPtr::try_new(&interp, idx, &point).unwrap();
    let r = h.write_with(
        &mut interp,
        |p: Vec<u8>| {
            let doubled: Vec<u8> = p.iter().map(|x| x * 2).collect();
            (doubled, p[0])
        },
        idx,
    );
    assert_eq!(r.unwrap(), 3);
    assert_eq!(h.read(&interp), vec![6, 8]);
}

#[test]
fn write_with_respects_freeze() {
    let (reg, point, _, _) = registered("Point");
    let mut interp = Interp::new();
    let idx = ud_push(&mut interp, &reg, &point, vec![3, 4]);
    let h = UserPtr::try_new(&interp, idx, &point).unwrap();
    h.freeze(&mut interp);
    let r = h.write_with(&mut interp, |p: Vec<u8>| (p, ()), idx);
    assert!(matches!(r, Err(LuaError::FrozenWrite { index: 0 })));
    assert_eq!(h.read(&interp), vec![3, 4]);
}

#[test]
fn push_raw_zero_fills() {
    let (reg, point, size, tag) = registered("Point");
    let mut interp = Interp::new();
    let idx = ud_push_raw(&mut interp, &reg, &point);
    match &interp.slots[idx] {
        Value::Block(b) => {
            assert_eq!(b.tag(), tag);
            assert_eq!(b.read_payload(), vec![0u8; size]);
            assert_eq!(b.metatable_name().as_str(), "Point");
            assert!(!b.is_frozen());
        },
        _ => panic!("the pushed slot must hold a block"),
    }
}

#[test]
fn check_self_validates_receiver() {
    let (reg, point, _, _) = registered("Point");
    let mut interp = Interp::new();
    ud_push(&mut interp, &reg, &point, vec![1, 2]);
    let h = check_self_only(&interp, &point).unwrap();
    assert_eq!(h.read(&interp), vec![1, 2]);

    interp.push(Value::Nil);
    match check_self_only(&interp, &point) {
        Err(LuaError::Arity { expected, got }) => {
            assert_eq!(expected, 1);
            assert_eq!(got, 2);
        },
        _ => panic!("two arguments must fail the self-only arity check"),
    }
    assert!(check_self_plus_n(&interp, &point, 1).is_ok());

    let mut wrong = Interp::new();
    wrong.push(Value::Bool(true));
    match check_self_only(&wrong, &point) {
        Err(LuaError::TypeMismatch { index, expected }) => {
            assert_eq!(index, 0);
            assert_eq!(expected.as_str(), "Point");
        },
        _ => panic!("a boolean receiver must fail validation"),
    }
}
