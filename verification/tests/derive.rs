use resource_bound::expand_resource;
use resource_bound::resource_derive;
use resource_bound::AttrInput;
use resource_bound::AttrValue;
use resource_bound::Diagnostic;
use resource_bound::FieldTy;
use resource_bound::TargetKind;
use resource_bound::TypeDef;

fn plain_field(text: &str) -> FieldTy {
    FieldTy { text: text.to_string(), borrow_lifetime: None }
}

fn borrowed_field(text: &str, lifetime: &str) -> FieldTy {
    FieldTy { text: text.to_string(), borrow_lifetime: Some(lifetime.to_string()) }
}

fn size_limit_attr(digits: &str) -> AttrInput {
    AttrInput { key: "size_limit".to_string(), value: AttrValue::IntLit(digits.to_string()) }
}

fn allow_heap_attr(value: bool) -> AttrInput {
    AttrInput { key: "allow_heap".to_string(), value: AttrValue::BoolLit(value) }
}

fn struct_def(name: &str, attrs: Vec<AttrInput>, fields: Vec<FieldTy>) -> TypeDef {
    TypeDef {
        kind: TargetKind::Struct,
        name: name.to_string(),
        lifetimes: Vec::new(),
        attrs,
        fields,
    }
}

const SIZE_CONST: &str = "__RESOURCE_BOUND_ASSERTION_FAILED_BECAUSE_THE_STRUCT_SIZE_IS_MORE_THAN_THE_EXPLICITLY_DEFINED_VALUE";

#[test]
fn single_i32_field_generates_both_assertions() {
    let def = struct_def("Foo", vec![size_limit_attr("4")], vec![plain_field("i32")]);
    let code = expand_resource(&def).unwrap();
    let expected = format!(
        "const FIELD1FOO: () = {{ const fn assert_fn1foo<T: StackOnly>() {{}} assert_fn1foo::<i32>(); () }};\nimpl<> Foo<> {{ #[doc(hidden)] const {}: [(); 0] = [(); (core::mem::size_of::<Self>() <= 4) as usize - 1]; }}\n",
        SIZE_CONST
    );
    assert_eq!(code, expected);
}

#[test]
fn heap_owning_field_assertion_left_to_host_compiler() {
    let def = struct_def(
        "Holder",
        vec![size_limit_attr("24")],
        vec![plain_field("i32"), plain_field("String")],
    );
    let code = expand_resource(&def).unwrap();
    assert!(code.contains("const FIELD1HOLDER"));
    assert!(code.contains("assert_fn2holder::<String>();"));
    assert!(resource_bound::registry_contains("i32"));
    assert!(!resource_bound::registry_contains("String"));
}

#[test]
fn enum_target_rejected() {
    let def = TypeDef {
        kind: TargetKind::Enum,
        name: "Choice".to_string(),
        lifetimes: Vec::new(),
        attrs: vec![size_limit_attr("8"), allow_heap_attr(true)],
        fields: Vec::new(),
    };
    let d = expand_resource(&def).unwrap_err();
    assert_eq!(d, Diagnostic::UnsupportedTargetKind { kind: TargetKind::Enum });
}

#[test]
fn union_target_rejected() {
    let def = TypeDef {
        kind: TargetKind::Union,
        name: "Raw".to_string(),
        lifetimes: Vec::new(),
        attrs: Vec::new(),
        fields: vec![plain_field("i32")],
    };
    let d = expand_resource(&def).unwrap_err();
    assert_eq!(d, Diagnostic::UnsupportedTargetKind { kind: TargetKind::Union });
}

#[test]
fn enum_rejection_renders_compile_error() {
    let def = TypeDef {
        kind: TargetKind::Enum,
        name: "Choice".to_string(),
        lifetimes: Vec::new(),
        attrs: Vec::new(),
        fields: Vec::new(),
    };
    let code = resource_derive(&def);
    assert_eq!(
        code,
        "::core::compile_error! { \"ResourceBound cannot be derived for enums\" }\n"
    );
}

#[test]
fn borrowed_field_without_allowance_rejected() {
    let def = struct_def(
        "Demo",
        vec![size_limit_attr("16")],
        vec![plain_field("i32"), borrowed_field("&'a str", "'a")],
    );
    let d = expand_resource(&def).unwrap_err();
    assert_eq!(d, Diagnostic::BorrowWithoutHeapAllowance { field_index: 1 });
}

#[test]
fn first_borrowed_field_is_cited() {
    let def = struct_def(
        "Demo",
        Vec::new(),
        vec![
            plain_field("u8"),
            borrowed_field("&'x u32", "'x"),
            borrowed_field("&'y bool", "'y"),
        ],
    );
    let d = expand_resource(&def).unwrap_err();
    assert_eq!(d, Diagnostic::BorrowWithoutHeapAllowance { field_index: 1 });
}

#[test]
fn borrow_rejection_message_cites_lifetime_and_type_name() {
    let def = struct_def("Demo", Vec::new(), vec![borrowed_field("&'a str", "'a")]);
    let code = resource_derive(&def);
    let expected = "::core::compile_error! { \"if you are borrowing '&T'\n'a then allocating mechanism is unknown even if `T` implements `StackOnly`\n , so struct Demo must be annotated with  `allow_heap=true`.\n \n consider feature :\n #[allow_heap=true]\" }\n";
    assert_eq!(code, expected);
}

#[test]
fn heap_allowance_skips_all_field_assertions() {
    let def = struct_def(
        "Demo",
        vec![size_limit_attr("16"), allow_heap_attr(true)],
        vec![plain_field("String"), borrowed_field("&'a str", "'a")],
    );
    let code = expand_resource(&def).unwrap();
    let expected = format!(
        "impl<> Demo<> {{ #[doc(hidden)] const {}: [(); 0] = [(); (core::mem::size_of::<Self>() <= 16) as usize - 1]; }}\n",
        SIZE_CONST
    );
    assert_eq!(code, expected);
    assert!(!code.contains("const FIELD"));
}

#[test]
fn heap_allowance_false_keeps_borrow_rule() {
    let def = struct_def(
        "Demo",
        vec![allow_heap_attr(false)],
        vec![borrowed_field("&'a str", "'a")],
    );
    let d = expand_resource(&def).unwrap_err();
    assert_eq!(d, Diagnostic::BorrowWithoutHeapAllowance { field_index: 0 });
}

#[test]
fn lifetime_parameters_propagated_to_impl_header() {
    let def = TypeDef {
        kind: TargetKind::Struct,
        name: "TacomaHygin".to_string(),
        lifetimes: vec!["'a".to_string(), "'b".to_string()],
        attrs: vec![size_limit_attr("524"), allow_heap_attr(true)],
        fields: vec![
            plain_field("i32"),
            plain_field("String"),
            borrowed_field("&'a str", "'a"),
        ],
    };
    let code = expand_resource(&def).unwrap();
    let expected = format!(
        "impl<'a, 'b> TacomaHygin<'a, 'b> {{ #[doc(hidden)] const {}: [(); 0] = [(); (core::mem::size_of::<Self>() <= 524) as usize - 1]; }}\n",
        SIZE_CONST
    );
    assert_eq!(code, expected);
}

#[test]
fn absent_size_limit_defaults_to_zero() {
    let def = struct_def("Empty", Vec::new(), Vec::new());
    let code = expand_resource(&def).unwrap();
    let expected = format!(
        "impl<> Empty<> {{ #[doc(hidden)] const {}: [(); 0] = [(); (core::mem::size_of::<Self>() <= 0) as usize - 1]; }}\n",
        SIZE_CONST
    );
    assert_eq!(code, expected);
}

#[test]
fn no_fields_validates_under_any_limit() {
    let def = struct_def("Unitlike", vec![size_limit_attr("1024")], Vec::new());
    let code = expand_resource(&def).unwrap();
    let expected = format!(
        "impl<> Unitlike<> {{ #[doc(hidden)] const {}: [(); 0] = [(); (core::mem::size_of::<Self>() <= 1024) as usize - 1]; }}\n",
        SIZE_CONST
    );
    assert_eq!(code, expected);
}

#[test]
fn mixed_case_name_is_case_folded_in_generated_names() {
    let def = struct_def("AbC9", vec![size_limit_attr("4")], vec![plain_field("u16")]);
    let code = expand_resource(&def).unwrap();
    assert!(code.contains("const FIELD1ABC9:"));
    assert!(code.contains("const fn assert_fn1abc9<T: StackOnly>()"));
}

#[test]
fn generation_is_idempotent() {
    let make = || {
        struct_def(
            "Twice",
            vec![size_limit_attr("12")],
            vec![plain_field("i64"), plain_field("u32")],
        )
    };
    let first = resource_derive(&make());
    let second = resource_derive(&make());
    assert_eq!(first, second);
}

#[test]
fn later_attribute_overrides_earlier() {
    let def = struct_def(
        "Over",
        vec![size_limit_attr("4"), size_limit_attr("8")],
        Vec::new(),
    );
    let code = expand_resource(&def).unwrap();
    assert!(code.contains("<= 8"));
    assert!(!code.contains("<= 4"));
}
