use shapegen::debug_gen::DebugMacroHelper;
use shapegen::shape::{FieldAttr, FieldDescriptor, ShapeDescription, SrcSpan, TypeExpr};

fn ty0(name: &str) -> TypeExpr {
    TypeExpr { name: name.to_string(), arg: None, text: name.to_string() }
}

fn ty1(outer: &str, inner: TypeExpr) -> TypeExpr {
    let text = format!("{}<{}>", outer, inner.text);
    TypeExpr { name: outer.to_string(), arg: Some(Box::new(inner)), text }
}

fn plain_field(name: &str, ty: TypeExpr) -> FieldDescriptor {
    FieldDescriptor { name: name.to_string(), ty, attrs: vec![] }
}

fn debug_attr(raw_value: &str) -> FieldAttr {
    FieldAttr::NameValue {
        key: "debug".to_string(),
        value: raw_value.to_string(),
        span: SrcSpan { lo: 0, hi: 1 },
    }
}

#[test]
fn plain_record_uses_default_template() {
    let s = ShapeDescription {
        name: "F".to_string(),
        fields: vec![plain_field("x", ty0("i32"))],
        generics: vec![],
        where_predicates: vec![],
    };
    let frags = shapegen::debug_gen::derive(&s);
    assert_eq!(frags.len(), 1);
    assert_eq!(
        frags[0],
        "impl std::fmt::Debug for F {\n    fn fmt(&self, f: &mut std::fmt::Formatter<'_>) -> std::result::Result<(), std::fmt::Error> {\n        f.debug_struct(\"Field\")\n            .field(\"x\", &format_args!(\"{:?}\", self.x))\n            .finish()\n    }\n}\n"
    );
}

#[test]
fn custom_template_passes_through_verbatim() {
    let mut f = plain_field("x", ty0("u8"));
    f.attrs.push(debug_attr("\"0b{:08b}\""));
    let s = ShapeDescription {
        name: "F".to_string(),
        fields: vec![f],
        generics: vec![],
        where_predicates: vec![],
    };
    let frags = shapegen::debug_gen::derive(&s);
    assert_eq!(
        frags[0],
        "impl std::fmt::Debug for F {\n    fn fmt(&self, f: &mut std::fmt::Formatter<'_>) -> std::result::Result<(), std::fmt::Error> {\n        f.debug_struct(\"Field\")\n            .field(\"x\", &format_args!(\"0b{:08b}\", self.x))\n            .finish()\n    }\n}\n"
    );
}

#[test]
fn placeholder_only_parameter_is_exempt() {
    let s = ShapeDescription {
        name: "S".to_string(),
        fields: vec![
            plain_field("marker", ty1("PhantomData", ty0("T"))),
            plain_field("value", ty0("U")),
        ],
        generics: vec!["T".to_string(), "U".to_string()],
        where_predicates: vec![],
    };
    let frags = shapegen::debug_gen::derive(&s);
    assert_eq!(
        frags[0],
        "impl<T, U, > std::fmt::Debug for S<T, U, > where U: std::fmt::Debug, {\n    fn fmt(&self, f: &mut std::fmt::Formatter<'_>) -> std::result::Result<(), std::fmt::Error> {\n        f.debug_struct(\"Field\")\n            .field(\"marker\", &format_args!(\"{:?}\", self.marker))\n            .field(\"value\", &format_args!(\"{:?}\", self.value))\n            .finish()\n    }\n}\n"
    );
}

#[test]
fn parameter_in_placeholder_and_elsewhere_still_requires_bound() {
    let s = ShapeDescription {
        name: "S".to_string(),
        fields: vec![
            plain_field("marker", ty1("PhantomData", ty0("T"))),
            plain_field("value", ty0("T")),
        ],
        generics: vec!["T".to_string()],
        where_predicates: vec![],
    };
    let helper = DebugMacroHelper::new(&s);
    assert_eq!(helper.non_debug_types(), vec!["T".to_string()]);
}

#[test]
fn parameter_inside_sequence_requires_bound() {
    let s = ShapeDescription {
        name: "S".to_string(),
        fields: vec![plain_field("items", ty1("Vec", ty0("T")))],
        generics: vec!["T".to_string()],
        where_predicates: vec![],
    };
    let helper = DebugMacroHelper::new(&s);
    assert_eq!(helper.non_debug_types(), vec!["T".to_string()]);
    assert_eq!(
        helper.to_required_debug_where_clause(),
        vec!["T: std::fmt::Debug".to_string()]
    );
}

#[test]
fn existing_where_predicates_are_threaded_through() {
    let s = ShapeDescription {
        name: "W".to_string(),
        fields: vec![plain_field("value", ty0("T"))],
        generics: vec!["T".to_string()],
        where_predicates: vec!["T: Clone".to_string()],
    };
    let frags = shapegen::debug_gen::derive(&s);
    assert_eq!(
        frags[0],
        "impl<T, > std::fmt::Debug for W<T, > where T: Clone, T: std::fmt::Debug, {\n    fn fmt(&self, f: &mut std::fmt::Formatter<'_>) -> std::result::Result<(), std::fmt::Error> {\n        f.debug_struct(\"Field\")\n            .field(\"value\", &format_args!(\"{:?}\", self.value))\n            .finish()\n    }\n}\n"
    );
}

#[test]
fn no_generics_no_where_clause() {
    let s = ShapeDescription {
        name: "P".to_string(),
        fields: vec![plain_field("a", ty0("String")), plain_field("b", ty0("u64"))],
        generics: vec![],
        where_predicates: vec![],
    };
    let frags = shapegen::debug_gen::derive(&s);
    assert!(frags[0].starts_with("impl std::fmt::Debug for P {\n"));
    let helper = DebugMacroHelper::new(&s);
    assert_eq!(helper.non_debug_types(), Vec::<String>::new());
}
