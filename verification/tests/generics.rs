use std::rc::Rc;

use ferrum::lang::cache::{InstantiationCache, InstantiationError};
use ferrum::lang::enums::{FerrumEnumMemberTemplate, FerrumEnumTemplate};
use ferrum::lang::function::{FerrumFunctionHeaderTemplate, FerrumFunctionTemplate};
use ferrum::lang::structs::{FerrumStruct, FerrumStructMember, FerrumStructTemplate, FerrumStructTemplateMember};
use ferrum::lang::tuple::{FerrumTuple, FerrumTupleTemplate};
use ferrum::lang::types::{
    FerrumGenericType, FerrumGenerics, FerrumGenericsTable, FerrumType, GenericTemplate,
    TemplateType,
};
use ferrum::lang::variable::{FerrumVarDeclare, FerrumVarDeclareTemplate};

fn u32_type() -> FerrumType {
    FerrumType::Elementary(4)
}

fn u8_type() -> FerrumType {
    FerrumType::Elementary(1)
}

fn one_generic() -> FerrumGenerics {
    FerrumGenerics::new(vec![FerrumGenericType::new(String::from("T"), 0)])
}

fn boxed_template() -> FerrumStructTemplate {
    FerrumStructTemplate::new(
        String::from("Boxed"),
        String::from("demo"),
        one_generic(),
        vec![
            TemplateType::Typed(FerrumStructMember::new(String::from("tag"), u8_type())),
            TemplateType::Templated(FerrumStructTemplateMember::new(String::from("value"), 0)),
            TemplateType::Typed(FerrumStructMember::new(String::from("end"), u8_type())),
        ],
    )
}

#[test]
fn equal_tables_have_equal_fingerprints() {
    let a = FerrumGenericsTable::new(vec![u32_type(), u8_type()]);
    let b = FerrumGenericsTable::new(vec![u32_type(), u8_type()]);
    assert_eq!(a.fingerprint(), b.fingerprint());
}

#[test]
fn different_tables_have_different_fingerprints() {
    let tables = vec![
        FerrumGenericsTable::new(Vec::new()),
        FerrumGenericsTable::new(vec![u32_type()]),
        FerrumGenericsTable::new(vec![u8_type()]),
        FerrumGenericsTable::new(vec![u32_type(), u8_type()]),
        FerrumGenericsTable::new(vec![u8_type(), u32_type()]),
        FerrumGenericsTable::new(vec![FerrumType::Ref(Box::new(u32_type()))]),
        FerrumGenericsTable::new(vec![FerrumType::MutRef(Box::new(u32_type()))]),
        FerrumGenericsTable::new(vec![FerrumType::Ptr(Box::new(u32_type()))]),
        FerrumGenericsTable::new(vec![FerrumType::MutPtr(Box::new(u32_type()))]),
        FerrumGenericsTable::new(vec![FerrumType::Tuple(Rc::new(FerrumTuple::new(vec![
            u32_type(),
        ])))]),
        FerrumGenericsTable::new(vec![FerrumType::Tuple(Rc::new(FerrumTuple::new(Vec::new())))]),
        FerrumGenericsTable::new(vec![FerrumType::Struct(Rc::new(FerrumStruct::new(
            String::from("ab"),
            String::from("c"),
            Vec::new(),
            0,
        )))]),
        FerrumGenericsTable::new(vec![FerrumType::Struct(Rc::new(FerrumStruct::new(
            String::from("a"),
            String::from("bc"),
            Vec::new(),
            0,
        )))]),
        FerrumGenericsTable::new(vec![FerrumType::Struct(Rc::new(FerrumStruct::new(
            String::from("a"),
            String::from("bc"),
            Vec::new(),
            1,
        )))]),
    ];
    for i in 0..tables.len() {
        for j in 0..tables.len() {
            if i != j {
                assert_ne!(tables[i].fingerprint(), tables[j].fingerprint());
            }
        }
    }
}

#[test]
fn fingerprint_looks_at_identity_only() {
    let with_fields = FerrumStruct::new(
        String::from("S"),
        String::from("demo"),
        vec![FerrumStructMember::new(String::from("x"), u32_type())],
        3,
    );
    let without_fields = FerrumStruct::new(String::from("S"), String::from("demo"), Vec::new(), 3);
    let a = FerrumGenericsTable::new(vec![FerrumType::Struct(Rc::new(with_fields))]);
    let b = FerrumGenericsTable::new(vec![FerrumType::Struct(Rc::new(without_fields))]);
    assert_eq!(a.fingerprint(), b.fingerprint());
}

#[test]
fn join_is_the_table_of_both() {
    let a = FerrumGenericsTable::new(vec![u32_type()]);
    let b = FerrumGenericsTable::new(vec![u8_type(), u32_type()]);
    let joined = a.join(&b);
    let whole = FerrumGenericsTable::new(vec![u32_type(), u8_type(), u32_type()]);
    assert_eq!(joined.len(), 3);
    assert_eq!(joined.get(0), Some(&u32_type()));
    assert_eq!(joined.get(1), Some(&u8_type()));
    assert_eq!(joined.get(2), Some(&u32_type()));
    assert_eq!(joined.get(3), None);
    assert_eq!(joined.fingerprint(), whole.fingerprint());
    assert_ne!(joined.fingerprint(), a.fingerprint());
    let copy = joined.clone();
    assert_eq!(copy.fingerprint(), joined.fingerprint());
    assert_eq!(copy.len(), 3);
}

#[test]
fn generic_parameter_reads_its_slot() {
    let table = FerrumGenericsTable::new(vec![u32_type(), u8_type()]);
    assert_eq!(FerrumGenericType::new(String::from("T"), 1).generate_type(&table), Some(u8_type()));
    assert_eq!(FerrumGenericType::new(String::from("T"), 2).generate_type(&table), None);
}

#[test]
fn template_type_clones_or_generates() {
    let table = FerrumGenericsTable::new(vec![u32_type()]);
    let typed: TemplateType<FerrumType, FerrumGenericType> = TemplateType::Typed(u8_type());
    let templated: TemplateType<FerrumType, FerrumGenericType> =
        TemplateType::Templated(FerrumGenericType::new(String::from("T"), 0));
    let missing: TemplateType<FerrumType, FerrumGenericType> =
        TemplateType::Templated(FerrumGenericType::new(String::from("U"), 1));
    assert_eq!(typed.try_generate_type(&table), Some(u8_type()));
    assert_eq!(templated.try_generate_type(&table), Some(u32_type()));
    assert_eq!(missing.try_generate_type(&table), None);
}

#[test]
fn struct_template_makes_a_laid_out_struct() {
    let table = FerrumGenericsTable::new(vec![u32_type()]);
    let s = boxed_template().generate_type(&table).unwrap();
    assert_eq!(s.name(), "Boxed");
    assert_eq!(s.namespace(), "demo");
    assert_eq!(s.generic_fingerprint(), *table.fingerprint());
    assert!(s.matches_generics(&table));
    assert_eq!(s.len(), 3);
    assert_eq!(s.field_type(1), Some(&u32_type()));
    assert_eq!(s.field_offset(0), Some(0));
    assert_eq!(s.field_offset(1), Some(1));
    assert_eq!(s.field_offset(2), Some(5));
    assert_eq!(s.size(), 6);
}

#[test]
fn struct_template_fails_on_missing_slot() {
    let table = FerrumGenericsTable::new(Vec::new());
    assert!(boxed_template().generate_type(&table).is_none());
}

#[test]
fn same_template_same_substitutions_same_type() {
    let a = FerrumGenericsTable::new(vec![u32_type()]);
    let b = FerrumGenericsTable::new(vec![u32_type()]);
    let c = FerrumGenericsTable::new(vec![u8_type()]);
    let template = boxed_template();
    let x = template.generate_type(&a).unwrap();
    let y = template.generate_type(&b).unwrap();
    let z = template.generate_type(&c).unwrap();
    assert_eq!(x.generic_fingerprint(), y.generic_fingerprint());
    assert!(x == y);
    assert!(x.matches_generics(&b));
    assert_ne!(x.generic_fingerprint(), z.generic_fingerprint());
    assert!(x != z);
    assert!(!z.matches_generics(&a));
    assert_eq!(z.size(), 3);
}

#[test]
fn enum_template_makes_a_laid_out_enum() {
    let template = FerrumEnumTemplate::new(
        String::from("Maybe"),
        String::from("demo"),
        vec![
            FerrumEnumMemberTemplate::new(
                String::from("Some"),
                0,
                vec![
                    TemplateType::Templated(FerrumGenericType::new(String::from("T"), 0)),
                    TemplateType::Typed(u8_type()),
                ],
            ),
            FerrumEnumMemberTemplate::new(String::from("Nothing"), 1, Vec::new()),
        ],
        one_generic(),
    );
    let table = FerrumGenericsTable::new(vec![u32_type()]);
    let e = template.generate_type(&table).unwrap();
    assert_eq!(e.name(), "Maybe");
    assert_eq!(e.namespace(), "demo");
    assert!(e.matches_generics(&table));
    assert_eq!(e.len(), 2);
    assert_eq!(e.arg_offset(0, 0), Some(0));
    assert_eq!(e.arg_offset(0, 1), Some(4));
    assert_eq!(e.arg_offset(1, 0), None);
    assert_eq!(e.size(), 5);
    assert!(template.generate_type(&FerrumGenericsTable::new(Vec::new())).is_none());
}

#[test]
fn tuple_template_makes_a_laid_out_tuple() {
    let template = FerrumTupleTemplate::new(vec![
        TemplateType::Typed(u8_type()),
        TemplateType::Templated(FerrumGenericType::new(String::from("T"), 1)),
    ]);
    let table = FerrumGenericsTable::new(vec![u8_type(), u32_type()]);
    let t = template.generate_type(&table).unwrap();
    assert_eq!(t.len(), 2);
    assert_eq!(t.member_type(1), Some(&u32_type()));
    assert_eq!(t.member_offset(1), Some(1));
    assert_eq!(t.size(), 5);
    assert!(template.generate_type(&FerrumGenericsTable::new(vec![u8_type()])).is_none());
}

#[test]
fn variable_declaration_template_reads_its_slot() {
    let template = FerrumVarDeclareTemplate::new(String::from("x"), 0, true);
    let table = FerrumGenericsTable::new(vec![u32_type()]);
    let declare = template.generate_type(&table).unwrap();
    assert_eq!(declare.name(), "x");
    assert_eq!(declare.get_type(), &u32_type());
    assert!(declare.is_mutable());
    assert!(template.generate_type(&FerrumGenericsTable::new(Vec::new())).is_none());
}

#[test]
fn function_template_makes_a_function() {
    let header = FerrumFunctionHeaderTemplate::new(
        String::from("id"),
        String::from("demo"),
        vec![
            TemplateType::Templated(FerrumVarDeclareTemplate::new(String::from("x"), 0, false)),
            TemplateType::Typed(FerrumVarDeclare::new(String::from("n"), u8_type(), true)),
        ],
        TemplateType::Templated(FerrumGenericType::new(String::from("T"), 0)),
        one_generic(),
    );
    let template = FerrumFunctionTemplate::new(header);
    let table = FerrumGenericsTable::new(vec![u32_type()]);
    let function = template.generate_type(&table).unwrap();
    assert!(function.matches_generics(&table));
    assert!(function.header().matches_generics(&table));
    assert!(!function.matches_generics(&FerrumGenericsTable::new(vec![u8_type()])));
    assert_eq!(function.header().return_value(), &u32_type());
    assert_eq!(function.header().params().len(), 2);
    assert_eq!(function.header().params()[0].name(), "x");
    assert_eq!(function.header().params()[0].get_type(), &u32_type());
    assert!(!function.header().params()[0].is_mutable());
    assert_eq!(function.header().params()[1].name(), "n");
    assert!(template.generate_type(&FerrumGenericsTable::new(Vec::new())).is_none());
}

#[test]
fn cache_hands_out_the_first_instantiation() {
    let mut cache = InstantiationCache::new();
    let template = boxed_template();
    let a = FerrumGenericsTable::new(vec![u32_type()]);
    let b = FerrumGenericsTable::new(vec![u32_type()]);
    let c = FerrumGenericsTable::new(vec![u8_type()]);
    let first = cache.instantiate_struct(&template, &a).unwrap();
    let second = cache.instantiate_struct(&template, &b).unwrap();
    let third = cache.instantiate_struct(&template, &c).unwrap();
    assert!(Rc::ptr_eq(&first, &second));
    assert!(!Rc::ptr_eq(&first, &third));
    assert_eq!(first.size(), 6);
    assert_eq!(third.size(), 3);
}

#[test]
fn cache_reports_malformed_generics() {
    let mut cache = InstantiationCache::new();
    let template = boxed_template();
    let empty = FerrumGenericsTable::new(Vec::new());
    assert_eq!(
        cache.instantiate_struct(&template, &empty).err(),
        Some(InstantiationError::MalformedGenerics)
    );
    let table = FerrumGenericsTable::new(vec![u32_type()]);
    assert!(cache.instantiate_struct(&template, &table).is_ok());
}

#[test]
fn cache_holds_enums_too() {
    let mut cache = InstantiationCache::new();
    let template = FerrumEnumTemplate::new(
        String::from("Maybe"),
        String::from("demo"),
        vec![FerrumEnumMemberTemplate::new(
            String::from("Some"),
            0,
            vec![TemplateType::Templated(FerrumGenericType::new(String::from("T"), 0))],
        )],
        one_generic(),
    );
    let a = FerrumGenericsTable::new(vec![u32_type()]);
    let first = cache.instantiate_enum(&template, &a).unwrap();
    let second = cache.instantiate_enum(&template, &a).unwrap();
    assert!(Rc::ptr_eq(&first, &second));
    assert_eq!(first.size(), 4);
    assert_eq!(
        cache.instantiate_enum(&template, &FerrumGenericsTable::new(Vec::new())).err(),
        Some(InstantiationError::MalformedGenerics)
    );
}
