use shapegen::builder_gen::plan_builder;
use shapegen::eval::{
    append_field, apply_template, build_record, new_state, set_field, SlotValue,
};
use shapegen::shape::{
    AnnotationEntry, FieldAttr, FieldDescriptor, ShapeDescription, SrcSpan, TypeExpr,
};

fn ty0(name: &str) -> TypeExpr {
    TypeExpr { name: name.to_string(), arg: None, text: name.to_string() }
}

fn ty1(outer: &str, inner: TypeExpr) -> TypeExpr {
    let text = format!("{}<{}>", outer, inner.text);
    TypeExpr { name: outer.to_string(), arg: Some(Box::new(inner)), text }
}

fn plain_field(name: &str, ty: TypeExpr) -> FieldDescriptor {
    FieldDescriptor { name: name.to_string(), ty, attrs: vec![] }
}

fn shape(name: &str, fields: Vec<FieldDescriptor>) -> ShapeDescription {
    ShapeDescription {
        name: name.to_string(),
        fields,
        generics: vec![],
        where_predicates: vec![],
    }
}

#[test]
fn set_required_fields_then_build_succeeds() {
    let s = shape(
        "Cmd",
        vec![
            plain_field("a", ty0("String")),
            plain_field("b", ty1("Option", ty0("String"))),
        ],
    );
    let plan = plan_builder(&s).unwrap();
    let mut state = new_state(&plan);
    assert!(state.slots[0].is_none());
    assert!(state.slots[1].is_none());
    set_field(&mut state, 0, SlotValue::One("hello".to_string()));
    let rec = build_record(&plan, state).unwrap();
    match &rec[0] {
        Some(SlotValue::One(v)) => assert_eq!(v, "hello"),
        _ => panic!("expected the set value"),
    }
    assert!(rec[1].is_none());
}

#[test]
fn build_without_required_field_reports_it() {
    let s = shape("Cmd", vec![plain_field("a", ty0("String"))]);
    let plan = plan_builder(&s).unwrap();
    let state = new_state(&plan);
    let e = build_record(&plan, state).unwrap_err();
    assert_eq!(e.field_name, "a");
}

#[test]
fn sequence_accumulates_in_call_order() {
    let mut f = plain_field("args", ty1("Vec", ty0("String")));
    f.attrs.push(FieldAttr::List {
        namespace: "builder".to_string(),
        entries: vec![AnnotationEntry {
            key: "each".to_string(),
            value: Some("arg".to_string()),
        }],
        span: SrcSpan { lo: 0, hi: 1 },
    });
    let s = shape("Cmd", vec![f]);
    let plan = plan_builder(&s).unwrap();
    let mut state = new_state(&plan);
    match &state.slots[0] {
        Some(SlotValue::Many(v)) => assert!(v.is_empty()),
        _ => panic!("the constructor must seed a present-but-empty sequence"),
    }
    append_field(&mut state, 0, "x".to_string());
    append_field(&mut state, 0, "y".to_string());
    append_field(&mut state, 0, "z".to_string());
    let rec = build_record(&plan, state).unwrap();
    match &rec[0] {
        Some(SlotValue::Many(v)) => {
            assert_eq!(v, &vec!["x".to_string(), "y".to_string(), "z".to_string()]);
        }
        _ => panic!("expected the accumulated sequence"),
    }
}

#[test]
fn whole_setter_replaces_sequence() {
    let s = shape("Cmd", vec![plain_field("args", ty1("Vec", ty0("String")))]);
    let plan = plan_builder(&s).unwrap();
    let mut state = new_state(&plan);
    set_field(
        &mut state,
        0,
        SlotValue::Many(vec!["a".to_string(), "b".to_string()]),
    );
    let rec = build_record(&plan, state).unwrap();
    match &rec[0] {
        Some(SlotValue::Many(v)) => assert_eq!(v, &vec!["a".to_string(), "b".to_string()]),
        _ => panic!("expected the whole sequence"),
    }
}

#[test]
fn apply_template_replaces_first_brace_group() {
    assert_eq!(apply_template("{}", "11"), "11");
    assert_eq!(apply_template("0b{:08b}", "11"), "0b11");
    assert_eq!(apply_template("<{}>", "q"), "<q>");
    assert_eq!(apply_template("no holes", "q"), "no holes");
    assert_eq!(apply_template("a{b}c{d}e", "X"), "aXc{d}e");
}

#[test]
fn apply_template_without_closing_brace_passes_through() {
    assert_eq!(apply_template("open {", "q"), "open {");
    assert_eq!(apply_template("", "q"), "");
}
