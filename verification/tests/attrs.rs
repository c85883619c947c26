use resource_bound::map_fields;
use resource_bound::parse_struct_attrs;
use resource_bound::registry_contains;
use resource_bound::AttrFault;
use resource_bound::AttrInput;
use resource_bound::AttrValue;
use resource_bound::Diagnostic;
use resource_bound::FieldTy;
use resource_bound::LifetimeAttr;
use resource_bound::OuterAttributes;
use resource_bound::laws::size_assertion_outcome;
use resource_bound::text::parse_dec_usize;
use resource_bound::text::str_eq;

fn attr(key: &str, value: AttrValue) -> AttrInput {
    AttrInput { key: key.to_string(), value }
}

#[test]
fn new_configuration_is_strict_and_unbounded_by_annotation() {
    let attrs = OuterAttributes::new();
    assert_eq!(attrs.get_max_size(), None);
    assert!(!attrs.get_heap_allo());
    assert!(attrs.get_types().is_empty());
}

#[test]
fn setters_and_getters_round_trip() {
    let mut attrs = OuterAttributes::new();
    attrs.set_max_size(1024);
    attrs.set_heap_allo(true);
    attrs.push_type("i32".to_string());
    attrs.push_type("&'a str".to_string());
    assert_eq!(attrs.get_max_size(), Some(1024));
    assert!(attrs.get_heap_allo());
    assert_eq!(attrs.get_types().as_slice(), ["i32".to_string(), "&'a str".to_string()]);
}

#[test]
fn size_limit_integer_literal_is_parsed() {
    let mut attrs = OuterAttributes::new();
    let r = parse_struct_attrs(&mut attrs, &attr("size_limit", AttrValue::IntLit("524".to_string())));
    assert!(r.is_ok());
    assert_eq!(attrs.get_max_size(), Some(524));
}

#[test]
fn size_limit_overflowing_literal_is_a_parse_error() {
    let mut attrs = OuterAttributes::new();
    let r = parse_struct_attrs(
        &mut attrs,
        &attr("size_limit", AttrValue::IntLit("99999999999999999999999999".to_string())),
    );
    assert_eq!(
        r.unwrap_err(),
        Diagnostic::InvalidAttributeSyntax { fault: AttrFault::SizeLimitIntParse }
    );
    assert_eq!(attrs.get_max_size(), None);
}

#[test]
fn size_limit_wrong_literal_kind_rejected() {
    let mut attrs = OuterAttributes::new();
    let r = parse_struct_attrs(&mut attrs, &attr("size_limit", AttrValue::BoolLit(true)));
    assert_eq!(
        r.unwrap_err(),
        Diagnostic::InvalidAttributeSyntax { fault: AttrFault::SizeLimitNotInteger }
    );
    let r = parse_struct_attrs(&mut attrs, &attr("size_limit", AttrValue::OtherLit));
    assert_eq!(
        r.unwrap_err(),
        Diagnostic::InvalidAttributeSyntax { fault: AttrFault::SizeLimitNotInteger }
    );
}

#[test]
fn size_limit_malformed_shape_rejected() {
    let mut attrs = OuterAttributes::new();
    let r = parse_struct_attrs(&mut attrs, &attr("size_limit", AttrValue::NonLitExpr));
    assert_eq!(
        r.unwrap_err(),
        Diagnostic::InvalidAttributeSyntax { fault: AttrFault::SizeLimitBadShape }
    );
    let r = parse_struct_attrs(&mut attrs, &attr("size_limit", AttrValue::NotNameValue));
    assert_eq!(
        r.unwrap_err(),
        Diagnostic::InvalidAttributeSyntax { fault: AttrFault::SizeLimitBadShape }
    );
}

#[test]
fn allow_heap_boolean_literal_is_parsed() {
    let mut attrs = OuterAttributes::new();
    let r = parse_struct_attrs(&mut attrs, &attr("allow_heap", AttrValue::BoolLit(true)));
    assert!(r.is_ok());
    assert!(attrs.get_heap_allo());
    let r = parse_struct_attrs(&mut attrs, &attr("allow_heap", AttrValue::BoolLit(false)));
    assert!(r.is_ok());
    assert!(!attrs.get_heap_allo());
}

#[test]
fn allow_heap_any_other_shape_rejected() {
    let mut attrs = OuterAttributes::new();
    for value in [
        AttrValue::IntLit("1".to_string()),
        AttrValue::OtherLit,
        AttrValue::NonLitExpr,
        AttrValue::NotNameValue,
    ] {
        let r = parse_struct_attrs(&mut attrs, &attr("allow_heap", value));
        assert_eq!(
            r.unwrap_err(),
            Diagnostic::InvalidAttributeSyntax { fault: AttrFault::AllowHeapBadShape }
        );
        assert!(!attrs.get_heap_allo());
    }
}

#[test]
fn unrecognized_attribute_is_ignored() {
    let mut attrs = OuterAttributes::new();
    let r = parse_struct_attrs(&mut attrs, &attr("derive", AttrValue::NotNameValue));
    assert!(r.is_ok());
    assert_eq!(attrs.get_max_size(), None);
    assert!(!attrs.get_heap_allo());
}

#[test]
fn map_fields_collects_types_and_borrow_markers() {
    let fields = vec![
        FieldTy { text: "i32".to_string(), borrow_lifetime: None },
        FieldTy { text: "&'a str".to_string(), borrow_lifetime: Some("'a".to_string()) },
        FieldTy { text: "&str".to_string(), borrow_lifetime: None },
        FieldTy { text: "&'b u8".to_string(), borrow_lifetime: Some("'b".to_string()) },
    ];
    let mut attrs = OuterAttributes::new();
    let mut marks = LifetimeAttr { lt: Vec::new() };
    let r = map_fields(&fields, &mut attrs, &mut marks);
    assert!(r.is_ok());
    assert_eq!(
        attrs.get_types().as_slice(),
        [
            "i32".to_string(),
            "&'a str".to_string(),
            "&str".to_string(),
            "&'b u8".to_string()
        ]
    );
    assert_eq!(marks.lt, vec![1usize, 3usize]);
}

fn assert_stack_only<T: resource_bound::StackOnly>() {}

#[test]
fn stack_only_capability_accepts_registry_members() {
    assert_stack_only::<i32>();
    assert_stack_only::<u128>();
    assert_stack_only::<isize>();
    assert_stack_only::<bool>();
    assert_stack_only::<char>();
    assert_stack_only::<()>();
}

#[test]
fn registry_holds_exactly_the_primitive_names() {
    for name in [
        "i8", "i16", "i32", "i64", "i128", "isize", "u8", "u16", "u32", "u64", "u128", "usize",
        "f32", "f64", "bool", "char", "()",
    ] {
        assert!(registry_contains(name));
    }
    for name in ["String", "Vec<u8>", "&'a str", "I32", "i3", "u usize", ""] {
        assert!(!registry_contains(name));
    }
}

#[test]
fn size_assertion_outcome_matches_comparison() {
    assert!(size_assertion_outcome(0, 0));
    assert!(size_assertion_outcome(0, 1024));
    assert!(size_assertion_outcome(24, 24));
    assert!(!size_assertion_outcome(25, 24));
    assert!(!size_assertion_outcome(1, 0));
}

#[test]
fn decimal_parsing_accepts_digits_and_rejects_the_rest() {
    assert_eq!(parse_dec_usize("0"), Some(0));
    assert_eq!(parse_dec_usize("524"), Some(524));
    assert_eq!(parse_dec_usize("18446744073709551615"), Some(usize::MAX));
    assert_eq!(parse_dec_usize("18446744073709551616"), None);
    assert_eq!(parse_dec_usize(""), None);
    assert_eq!(parse_dec_usize("12a"), None);
    assert_eq!(parse_dec_usize("-1"), None);
}

#[test]
fn string_equality_is_by_characters() {
    assert!(str_eq("size_limit", "size_limit"));
    assert!(!str_eq("size_limit", "size_limits"));
    assert!(!str_eq("allow_heap", "allow_heaP"));
    assert!(str_eq("", ""));
}
