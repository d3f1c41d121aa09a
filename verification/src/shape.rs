use vstd::prelude::*;

verus! {

/// A half-open range of byte offsets locating a piece of source text, used to
/// attribute diagnostics to the annotation they concern.
#[derive(Clone, Copy, Debug, PartialEq, Eq, Structural)]
pub struct SrcSpan {
    pub lo: usize,
    pub hi: usize,
}

/// A declared type expression.
///
/// The structure is probed only by the classification rules: `name` is the
/// outermost type name (the last path segment) and `arg` is the first generic
/// argument, if the type has any.  `text` carries the exact source text of
/// the whole expression and is re-emitted verbatim wherever the declared type
/// appears in generated code.
#[derive(Debug)]
pub struct TypeExpr {
    /// Name of the outermost type.
    pub name: String,
    /// First generic argument, if any.
    pub arg: Option<Box<TypeExpr>>,
    /// Exact source text of the whole type expression.
    pub text: String,
}

/// One entry inside a namespaced annotation list: `key` or `key = "value"`.
///
/// `value` is the unquoted string value; it is absent both for a bare key and
/// for a malformed value (anything that is not a string literal).
#[derive(Debug)]
pub struct AnnotationEntry {
    pub key: String,
    pub value: Option<String>,
}

/// A raw field annotation as the front-end hands it over, unparsed at this
/// layer.
pub enum FieldAttr {
    /// `#[key = "value"]` attached directly at the field level; `value` is
    /// the raw literal token text, quotes included.
    NameValue { key: String, value: String, span: SrcSpan },
    /// `#[namespace(entry, entry = "...", ...)]`.
    List { namespace: String, entries: Vec<AnnotationEntry>, span: SrcSpan },
}

/// One named field of a record shape.
pub struct FieldDescriptor {
    /// Field name, unique within a well-formed shape description.
    pub name: String,
    /// Declared type expression.
    pub ty: TypeExpr,
    /// Raw annotations attached to the field.
    pub attrs: Vec<FieldAttr>,
}

/// The structural description of one record type: the input both generators
/// consume.  It is read-only for the duration of a generation run.
pub struct ShapeDescription {
    /// Record name.
    pub name: String,
    /// Fields in declaration order; output preserves this order.
    pub fields: Vec<FieldDescriptor>,
    /// Generic parameter names in declaration order, possibly empty.
    pub generics: Vec<String>,
    /// Pre-existing where-clause predicates, threaded through verbatim.
    pub where_predicates: Vec<String>,
}

/// Field names are unique within a well-formed shape description.
pub open spec fn wf_shape(s: ShapeDescription) -> bool {
    forall|i: int, j: int|
        0 <= i < j < s.fields@.len() ==> s.fields@[i].name@ != s.fields@[j].name@
}

} // verus!
