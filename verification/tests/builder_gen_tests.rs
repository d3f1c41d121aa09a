use shapegen::builder_gen::{plan_builder, GenerationError};
use shapegen::shape::{
    AnnotationEntry, FieldAttr, FieldDescriptor, ShapeDescription, SrcSpan, TypeExpr,
};

fn ty0(name: &str) -> TypeExpr {
    TypeExpr { name: name.to_string(), arg: None, text: name.to_string() }
}

fn ty1(outer: &str, inner: TypeExpr) -> TypeExpr {
    let text = format!("{}<{}>", outer, inner.text);
    TypeExpr { name: outer.to_string(), arg: Some(Box::new(inner)), text }
}

fn plain_field(name: &str, ty: TypeExpr) -> FieldDescriptor {
    FieldDescriptor { name: name.to_string(), ty, attrs: vec![] }
}

fn shape(name: &str, fields: Vec<FieldDescriptor>) -> ShapeDescription {
    ShapeDescription {
        name: name.to_string(),
        fields,
        generics: vec![],
        where_predicates: vec![],
    }
}

fn builder_attr(entries: Vec<AnnotationEntry>, lo: usize) -> FieldAttr {
    FieldAttr::List {
        namespace: "builder".to_string(),
        entries,
        span: SrcSpan { lo, hi: lo + 1 },
    }
}

fn entry(key: &str, value: Option<&str>) -> AnnotationEntry {
    AnnotationEntry { key: key.to_string(), value: value.map(|s| s.to_string()) }
}

#[test]
fn plain_field_fragments_exact() {
    let s = shape("Command", vec![plain_field("executable", ty0("String"))]);
    let frags = shapegen::builder_gen::derive(&s).unwrap();
    assert_eq!(frags.len(), 3);
    assert_eq!(
        frags[0],
        "pub struct CommandBuilder {\n    executable: std::option::Option<String>,\n}\n"
    );
    assert_eq!(
        frags[1],
        "impl CommandBuilder {\n    fn executable(&mut self, executable: String) -> &mut Self {\n        self.executable = std::option::Option::Some(executable);\n        self\n    }\n    fn build(&self) -> std::result::Result<Command, std::string::String> {\n        std::result::Result::Ok(Command {\n            executable: self.executable.clone().ok_or(std::string::String::from(\"missing required field: executable\"))?,\n        })\n    }\n}\n"
    );
    assert_eq!(
        frags[2],
        "impl Command {\n    pub fn builder() -> CommandBuilder {\n        CommandBuilder {\n            executable: std::option::Option::None,\n        }\n    }\n}\n"
    );
}

#[test]
fn optional_field_keeps_type_and_setter_takes_inner() {
    let s = shape(
        "Command",
        vec![plain_field("current_dir", ty1("Option", ty0("String")))],
    );
    let plan = plan_builder(&s).unwrap();
    let fp = &plan.fields[0];
    assert!(!fp.def.wrapped);
    assert_eq!(fp.def.ty_text, "Option<String>");
    let st = fp.whole_setter.as_ref().unwrap();
    assert_eq!(st.method_name, "current_dir");
    assert_eq!(st.param_ty, "String");
    assert!(!st.accumulate);
    assert!(fp.build.pass_through);
    assert!(!fp.init.seeded_empty);
}

#[test]
fn nested_optional_setter_takes_innermost_type() {
    let s = shape(
        "Command",
        vec![plain_field("extra", ty1("Option", ty1("Option", ty0("String"))))],
    );
    let plan = plan_builder(&s).unwrap();
    let st = plan.fields[0].whole_setter.as_ref().unwrap();
    assert_eq!(st.param_ty, "String");
}

#[test]
fn each_with_distinct_name_has_both_setters() {
    let mut f = plain_field("args", ty1("Vec", ty0("String")));
    f.attrs.push(builder_attr(vec![entry("each", Some("arg"))], 0));
    let s = shape("Cmd", vec![f]);
    let plan = plan_builder(&s).unwrap();
    let fp = &plan.fields[0];
    let whole = fp.whole_setter.as_ref().unwrap();
    assert_eq!(whole.method_name, "args");
    assert_eq!(whole.param_ty, "Vec<String>");
    assert!(!whole.accumulate);
    let each = fp.each_setter.as_ref().unwrap();
    assert_eq!(each.method_name, "arg");
    assert_eq!(each.param_ty, "String");
    assert!(each.accumulate);
    assert!(fp.init.seeded_empty);

    let frags = shapegen::builder_gen::derive(&s).unwrap();
    assert_eq!(
        frags[1],
        "impl CmdBuilder {\n    fn args(&mut self, args: Vec<String>) -> &mut Self {\n        self.args = std::option::Option::Some(args);\n        self\n    }\n    fn arg(&mut self, value: String) -> &mut Self {\n        self.args.as_mut().unwrap().push(value);\n        self\n    }\n    fn build(&self) -> std::result::Result<Cmd, std::string::String> {\n        std::result::Result::Ok(Cmd {\n            args: self.args.clone().ok_or(std::string::String::from(\"missing required field: args\"))?,\n        })\n    }\n}\n"
    );
}

#[test]
fn each_with_field_name_suppresses_whole_setter() {
    let mut f = plain_field("args", ty1("Vec", ty0("String")));
    f.attrs.push(builder_attr(vec![entry("each", Some("args"))], 0));
    let s = shape("Cmd", vec![f]);
    let plan = plan_builder(&s).unwrap();
    let fp = &plan.fields[0];
    assert!(fp.whole_setter.is_none());
    let each = fp.each_setter.as_ref().unwrap();
    assert_eq!(each.method_name, "args");
    assert_eq!(each.param_ty, "String");
    assert!(each.accumulate);
}

#[test]
fn unrecognized_key_fails_with_attribute_error() {
    let mut f = plain_field("args", ty1("Vec", ty0("String")));
    f.attrs.push(builder_attr(vec![entry("eac", Some("arg"))], 7));
    let s = shape("Cmd", vec![f]);
    match shapegen::builder_gen::derive(&s) {
        Err(GenerationError::Attribute(e)) => {
            assert_eq!(e.field_name, "args");
            assert_eq!(e.span, SrcSpan { lo: 7, hi: 8 });
            assert_eq!(e.message, "expected `builder(each = \"...\")`");
        }
        _ => panic!("expected an attribute error"),
    }
}

#[test]
fn bare_each_skips_accumulator_silently() {
    let mut f = plain_field("args", ty1("Vec", ty0("String")));
    f.attrs.push(builder_attr(vec![entry("each", None)], 0));
    let s = shape("Cmd", vec![f]);
    let plan = plan_builder(&s).unwrap();
    let fp = &plan.fields[0];
    assert!(fp.each_setter.is_none());
    assert!(fp.whole_setter.is_some());
}

#[test]
fn each_without_element_type_is_fatal() {
    let mut f = plain_field("v", ty0("Vec"));
    f.attrs.push(builder_attr(vec![entry("each", Some("x"))], 0));
    let s = shape("Cmd", vec![f]);
    match shapegen::builder_gen::derive(&s) {
        Err(GenerationError::MissingInnerType { field_name }) => {
            assert_eq!(field_name, "v");
        }
        _ => panic!("expected a missing-inner-type error"),
    }
}

#[test]
fn sequence_field_constructor_seeds_empty() {
    let s = shape("Cmd", vec![plain_field("args", ty1("Vec", ty0("String")))]);
    let frags = shapegen::builder_gen::derive(&s).unwrap();
    assert_eq!(
        frags[2],
        "impl Cmd {\n    pub fn builder() -> CmdBuilder {\n        CmdBuilder {\n            args: std::option::Option::Some(Vec::new()),\n        }\n    }\n}\n"
    );
}

#[test]
fn other_namespaces_are_invisible() {
    let mut f = plain_field("x", ty0("String"));
    f.attrs.push(FieldAttr::List {
        namespace: "serde".to_string(),
        entries: vec![entry("rename", Some("y"))],
        span: SrcSpan { lo: 0, hi: 1 },
    });
    let s = shape("Cmd", vec![f]);
    assert!(shapegen::builder_gen::derive(&s).is_ok());
}
