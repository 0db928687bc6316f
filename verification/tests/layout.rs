use std::rc::Rc;

use ferrum::lang::enums::{FerrumEnum, FerrumEnumMember};
use ferrum::lang::structs::{FerrumStruct, FerrumStructMember};
use ferrum::lang::tuple::FerrumTuple;
use ferrum::lang::types::{FerrumType, POINTER_SIZE};

fn u32_type() -> FerrumType {
    FerrumType::Elementary(4)
}

fn u8_type() -> FerrumType {
    FerrumType::Elementary(1)
}

fn pair_struct() -> FerrumStruct {
    FerrumStruct::new(
        String::from("Pair"),
        String::from("demo"),
        vec![
            FerrumStructMember::new(String::from("wide"), u32_type()),
            FerrumStructMember::new(String::from("narrow"), u8_type()),
        ],
        0,
    )
}

#[test]
fn struct_fields_are_packed_in_declared_order() {
    let s = pair_struct();
    assert_eq!(s.len(), 2);
    assert_eq!(s.field_offset(0), Some(0));
    assert_eq!(s.field_offset(1), Some(4));
    assert_eq!(s.field_offset(2), None);
    assert_eq!(s.size(), 5);
}

#[test]
fn struct_order_decides_offsets() {
    let s = FerrumStruct::new(
        String::from("Pair"),
        String::from("demo"),
        vec![
            FerrumStructMember::new(String::from("narrow"), u8_type()),
            FerrumStructMember::new(String::from("wide"), u32_type()),
        ],
        0,
    );
    assert_eq!(s.field_offset(0), Some(0));
    assert_eq!(s.field_offset(1), Some(1));
    assert_eq!(s.size(), 5);
}

#[test]
fn struct_align_twice_changes_nothing() {
    let mut s = pair_struct();
    s.align();
    assert_eq!(s.field_offset(0), Some(0));
    assert_eq!(s.field_offset(1), Some(4));
    assert_eq!(s.size(), 5);
    s.align();
    assert_eq!(s.field_offset(0), Some(0));
    assert_eq!(s.field_offset(1), Some(4));
    assert_eq!(s.size(), 5);
}

#[test]
fn empty_struct_has_size_zero() {
    let s = FerrumStruct::new(String::from("Unit"), String::from("demo"), Vec::new(), 0);
    assert_eq!(s.len(), 0);
    assert_eq!(s.size(), 0);
}

#[test]
fn enum_size_is_largest_payload() {
    let e = FerrumEnum::new(
        String::from("E"),
        String::from("demo"),
        vec![
            FerrumEnumMember::new(String::from("A"), 0, vec![u32_type()]),
            FerrumEnumMember::new(String::from("B"), 1, vec![u8_type(), u8_type()]),
        ],
        0,
    );
    assert_eq!(e.len(), 2);
    assert_eq!(e.size(), 4);
    assert_eq!(e.arg_offset(0, 0), Some(0));
    assert_eq!(e.arg_offset(1, 0), Some(0));
    assert_eq!(e.arg_offset(1, 1), Some(1));
    assert_eq!(e.arg_offset(1, 2), None);
    assert_eq!(e.arg_offset(2, 0), None);
}

#[test]
fn enum_align_twice_changes_nothing() {
    let mut e = FerrumEnum::new(
        String::from("E"),
        String::from("demo"),
        vec![
            FerrumEnumMember::new(String::from("A"), 0, vec![u32_type()]),
            FerrumEnumMember::new(String::from("B"), 1, vec![u8_type(), u8_type()]),
        ],
        0,
    );
    e.align();
    e.align();
    assert_eq!(e.size(), 4);
    assert_eq!(e.arg_offset(1, 1), Some(1));
}

#[test]
fn enum_without_variants_has_size_zero() {
    let e = FerrumEnum::new(String::from("Never"), String::from("demo"), Vec::new(), 0);
    assert_eq!(e.size(), 0);
}

#[test]
fn tuple_members_are_packed_in_order() {
    let mut t = FerrumTuple::new(vec![u8_type(), u32_type(), u8_type()]);
    assert_eq!(t.len(), 3);
    assert_eq!(t.member_offset(0), Some(0));
    assert_eq!(t.member_offset(1), Some(1));
    assert_eq!(t.member_offset(2), Some(5));
    assert_eq!(t.member_offset(3), None);
    assert_eq!(t.size(), 6);
    t.align();
    assert_eq!(t.member_offset(2), Some(5));
    assert_eq!(t.size(), 6);
    assert_eq!(t.member_type(1), Some(&u32_type()));
}

#[test]
fn sizes_of_types() {
    assert_eq!(FerrumType::Elementary(4).size(), 4);
    assert_eq!(FerrumType::Elementary(16).size(), 16);
    assert_eq!(POINTER_SIZE, 8);
    assert_eq!(FerrumType::Ref(Box::new(u8_type())).size(), 8);
    assert_eq!(FerrumType::MutRef(Box::new(u8_type())).size(), 8);
    assert_eq!(FerrumType::Ptr(Box::new(u32_type())).size(), 8);
    assert_eq!(FerrumType::MutPtr(Box::new(u32_type())).size(), 8);
    assert_eq!(FerrumType::Struct(Rc::new(pair_struct())).size(), 5);
    let t = FerrumTuple::new(vec![u8_type(), u32_type()]);
    assert_eq!(FerrumType::Tuple(Rc::new(t)).size(), 5);
}

#[test]
fn nested_aggregate_uses_recorded_size() {
    let inner = FerrumType::Struct(Rc::new(pair_struct()));
    let outer = FerrumStruct::new(
        String::from("Outer"),
        String::from("demo"),
        vec![
            FerrumStructMember::new(String::from("a"), inner.clone()),
            FerrumStructMember::new(String::from("b"), FerrumType::Ref(Box::new(inner))),
            FerrumStructMember::new(String::from("c"), u8_type()),
        ],
        0,
    );
    assert_eq!(outer.field_offset(0), Some(0));
    assert_eq!(outer.field_offset(1), Some(5));
    assert_eq!(outer.field_offset(2), Some(13));
    assert_eq!(outer.size(), 14);
}

#[test]
fn type_equality_is_nominal_for_structs() {
    let a = FerrumType::Struct(Rc::new(pair_struct()));
    let same_name = FerrumType::Struct(Rc::new(FerrumStruct::new(
        String::from("Pair"),
        String::from("demo"),
        Vec::new(),
        0,
    )));
    let other_fingerprint = FerrumType::Struct(Rc::new(FerrumStruct::new(
        String::from("Pair"),
        String::from("demo"),
        Vec::new(),
        1,
    )));
    let other_namespace = FerrumType::Struct(Rc::new(FerrumStruct::new(
        String::from("Pair"),
        String::from("other"),
        Vec::new(),
        0,
    )));
    assert!(a == same_name);
    assert!(a != other_fingerprint);
    assert!(a != other_namespace);
    assert!(a != u32_type());
}

#[test]
fn type_equality_is_structural_for_the_rest() {
    assert!(u32_type() == FerrumType::Elementary(4));
    assert!(u32_type() != u8_type());
    assert!(FerrumType::Ref(Box::new(u8_type())) == FerrumType::Ref(Box::new(u8_type())));
    assert!(FerrumType::Ref(Box::new(u8_type())) != FerrumType::MutRef(Box::new(u8_type())));
    assert!(FerrumType::Ref(Box::new(u8_type())) != FerrumType::Ptr(Box::new(u8_type())));
    assert!(FerrumType::Ref(Box::new(u8_type())) != FerrumType::Ref(Box::new(u32_type())));
    let t1 = FerrumType::Tuple(Rc::new(FerrumTuple::new(vec![u8_type(), u32_type()])));
    let t2 = FerrumType::Tuple(Rc::new(FerrumTuple::new(vec![u8_type(), u32_type()])));
    let t3 = FerrumType::Tuple(Rc::new(FerrumTuple::new(vec![u32_type(), u8_type()])));
    let t4 = FerrumType::Tuple(Rc::new(FerrumTuple::new(vec![u8_type()])));
    assert!(t1 == t2);
    assert!(t1 != t3);
    assert!(t1 != t4);
    let e1 = FerrumType::Enum(Rc::new(FerrumEnum::new(
        String::from("E"),
        String::from("demo"),
        Vec::new(),
        7,
    )));
    let s1 = FerrumType::Struct(Rc::new(FerrumStruct::new(
        String::from("E"),
        String::from("demo"),
        Vec::new(),
        7,
    )));
    assert!(e1 != s1);
    assert!(e1 == e1.clone());
}
