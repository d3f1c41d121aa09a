use shapegen::attrs::{extract_field_attributes, extract_meta_name_value, trim_quotes};
use shapegen::classify::{
    classify, extract_generic_param, is_numeric_type, is_phantom_data, is_type_eq,
    FieldClassification,
};
use shapegen::shape::{
    AnnotationEntry, FieldAttr, FieldDescriptor, SrcSpan, TypeExpr,
};

fn ty0(name: &str) -> TypeExpr {
    TypeExpr { name: name.to_string(), arg: None, text: name.to_string() }
}

fn ty1(outer: &str, inner: TypeExpr) -> TypeExpr {
    let text = format!("{}<{}>", outer, inner.text);
    TypeExpr { name: outer.to_string(), arg: Some(Box::new(inner)), text }
}

fn field_with_attrs(name: &str, attrs: Vec<FieldAttr>) -> FieldDescriptor {
    FieldDescriptor { name: name.to_string(), ty: ty0("String"), attrs }
}

#[test]
fn trim_quotes_strips_one_pair() {
    assert_eq!(trim_quotes("\"abc\"".to_string()), "abc");
    assert_eq!(trim_quotes("abc".to_string()), "abc");
    assert_eq!(trim_quotes("\"\"".to_string()), "");
    assert_eq!(trim_quotes("\"".to_string()), "\"");
    assert_eq!(trim_quotes("\"a".to_string()), "\"a");
}

#[test]
fn classify_optional_extracts_inner() {
    match classify(&ty1("Option", ty0("String"))) {
        FieldClassification::Optional(inner) => assert_eq!(inner.text, "String"),
        _ => panic!("expected an optional classification"),
    }
}

#[test]
fn classify_sequence_and_empty_sequence() {
    match classify(&ty1("Vec", ty0("String"))) {
        FieldClassification::Sequence(Some(inner)) => assert_eq!(inner.text, "String"),
        _ => panic!("expected a sequence classification with an inner type"),
    }
    match classify(&ty0("Vec")) {
        FieldClassification::Sequence(None) => {}
        _ => panic!("expected a sequence classification without an inner type"),
    }
}

#[test]
fn classify_marker_placeholder_regardless_of_arguments() {
    assert!(matches!(
        classify(&ty1("PhantomData", ty0("T"))),
        FieldClassification::MarkerPlaceholder
    ));
    assert!(matches!(
        classify(&ty0("PhantomData")),
        FieldClassification::MarkerPlaceholder
    ));
}

#[test]
fn classify_unrecognized_is_plain() {
    assert!(matches!(classify(&ty0("String")), FieldClassification::Plain));
    assert!(matches!(classify(&ty0("Option")), FieldClassification::Plain));
    assert!(matches!(
        classify(&ty1("HashMap", ty0("String"))),
        FieldClassification::Plain
    ));
}

#[test]
fn nested_containers_unwrap_to_innermost() {
    let nested = ty1("Vec", ty1("Vec", ty0("String")));
    assert_eq!(extract_generic_param(&nested).unwrap().text, "String");
    let stops = ty1("Option", ty1("Foo", ty0("Bar")));
    assert_eq!(extract_generic_param(&stops).unwrap().text, "Foo<Bar>");
    assert!(extract_generic_param(&ty0("String")).is_none());
}

#[test]
fn type_name_predicates() {
    assert!(is_type_eq(&ty1("Option", ty0("u8")), "Option"));
    assert!(!is_type_eq(&ty0("String"), "Option"));
    assert!(is_phantom_data(&ty0("PhantomData")));
    assert!(!is_phantom_data(&ty0("String")));
    assert!(is_numeric_type(&ty0("i32")));
    assert!(is_numeric_type(&ty0("f64")));
    assert!(!is_numeric_type(&ty0("String")));
}

#[test]
fn parse_recognized_keys_into_map() {
    let attr = FieldAttr::List {
        namespace: "builder".to_string(),
        entries: vec![AnnotationEntry {
            key: "each".to_string(),
            value: Some("arg".to_string()),
        }],
        span: SrcSpan { lo: 0, hi: 1 },
    };
    let f = field_with_attrs("args", vec![attr]);
    let map = extract_field_attributes(&f, "builder", &vec!["each".to_string()]).unwrap();
    assert_eq!(map.get_value("each"), Some(Some("arg".to_string())));
    assert_eq!(map.get_value("other"), None);
}

#[test]
fn parse_rejects_unrecognized_key() {
    let attr = FieldAttr::List {
        namespace: "builder".to_string(),
        entries: vec![AnnotationEntry { key: "rename".to_string(), value: None }],
        span: SrcSpan { lo: 3, hi: 4 },
    };
    let f = field_with_attrs("args", vec![attr]);
    let e = extract_field_attributes(&f, "builder", &vec!["each".to_string()]).unwrap_err();
    assert_eq!(e.field_name, "args");
    assert_eq!(e.span, SrcSpan { lo: 3, hi: 4 });
    assert_eq!(e.message, "expected `builder(each = \"...\")`");
}

#[test]
fn later_entries_shadow_earlier_ones() {
    let attr = FieldAttr::List {
        namespace: "builder".to_string(),
        entries: vec![
            AnnotationEntry { key: "each".to_string(), value: Some("a".to_string()) },
            AnnotationEntry { key: "each".to_string(), value: Some("b".to_string()) },
        ],
        span: SrcSpan { lo: 0, hi: 1 },
    };
    let f = field_with_attrs("args", vec![attr]);
    let map = extract_field_attributes(&f, "builder", &vec!["each".to_string()]).unwrap();
    assert_eq!(map.get_value("each"), Some(Some("b".to_string())));
}

#[test]
fn meta_name_value_trims_quotes_and_takes_first() {
    let f = field_with_attrs(
        "x",
        vec![
            FieldAttr::NameValue {
                key: "debug".to_string(),
                value: "\"0b{:08b}\"".to_string(),
                span: SrcSpan { lo: 0, hi: 1 },
            },
            FieldAttr::NameValue {
                key: "debug".to_string(),
                value: "\"second\"".to_string(),
                span: SrcSpan { lo: 1, hi: 2 },
            },
        ],
    );
    assert_eq!(extract_meta_name_value(&f, "debug"), Some("0b{:08b}".to_string()));
    assert_eq!(extract_meta_name_value(&f, "display"), None);
}
