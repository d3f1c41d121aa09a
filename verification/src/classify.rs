use vstd::prelude::*;
use crate::shape::TypeExpr;

verus! {

/// The classification of a field's declared type, driving both generators.
pub enum FieldClassification {
    /// A marker-placeholder type: it carries a generic parameter for
    /// documentation purposes without using it at the value level.
    MarkerPlaceholder,
    /// An optional container; the payload is the innermost contained type.
    Optional(TypeExpr),
    /// A growable sequence container; the payload is the innermost contained
    /// type, absent when the container has no generic argument.
    Sequence(Option<TypeExpr>),
    /// Any other type.
    Plain,
}

/// The two recognized container families: the optional container and the
/// growable sequence container.
pub open spec fn is_container_name(n: Seq<char>) -> bool {
    n == "Option"@ || n == "Vec"@
}

/// Recursively unwraps nested containers of the recognized families down to
/// the innermost non-container type.
pub open spec fn spec_deep_inner(t: TypeExpr) -> TypeExpr
    decreases t,
{
    match t.arg {
        Some(b) => if is_container_name(t.name@) {
            spec_deep_inner(*b)
        } else {
            t
        },
        None => t,
    }
}

/// The inner type of a container: its first generic argument, recursively
/// unwrapped, or `None` for a type without generic arguments.
pub open spec fn spec_inner(t: TypeExpr) -> Option<TypeExpr> {
    match t.arg {
        Some(b) => Some(spec_deep_inner(*b)),
        None => None,
    }
}

/// What `classify` returns for a given declared type.
pub open spec fn spec_classify(t: TypeExpr) -> FieldClassification {
    if t.name@ == "PhantomData"@ {
        FieldClassification::MarkerPlaceholder
    } else if t.name@ == "Option"@ && t.arg is Some {
        FieldClassification::Optional(spec_deep_inner(*t.arg->0))
    } else if t.name@ == "Vec"@ {
        FieldClassification::Sequence(spec_inner(t))
    } else {
        FieldClassification::Plain
    }
}

/// Whether the outermost name of `ty` is exactly `tystr`.
pub fn is_type_eq(ty: &TypeExpr, tystr: &str) -> (r: bool)
    ensures
        r == (ty.name@ == tystr@),
{
    let s = String::from_str(tystr);
    ty.name == s
}

/// Whether `ty` is the marker-placeholder type, classified so regardless of
/// its generic arguments.
pub fn is_phantom_data(ty: &TypeExpr) -> (r: bool)
    ensures
        r == (ty.name@ == "PhantomData"@),
{
    is_type_eq(ty, "PhantomData")
}

/// The primitive numeric type names.
pub open spec fn is_numeric_name(n: Seq<char>) -> bool {
    ||| n == "i8"@
    ||| n == "i16"@
    ||| n == "i32"@
    ||| n == "i64"@
    ||| n == "u8"@
    ||| n == "u16"@
    ||| n == "u32"@
    ||| n == "u64"@
    ||| n == "f32"@
    ||| n == "f64"@
}

/// Whether the outermost name of `ty` is a primitive numeric type name.
pub fn is_numeric_type(ty: &TypeExpr) -> (r: bool)
    ensures
        r == is_numeric_name(ty.name@),
{
    ||| is_type_eq(ty, "i8")
    ||| is_type_eq(ty, "i16")
    ||| is_type_eq(ty, "i32")
    ||| is_type_eq(ty, "i64")
    ||| is_type_eq(ty, "u8")
    ||| is_type_eq(ty, "u16")
    ||| is_type_eq(ty, "u32")
    ||| is_type_eq(ty, "u64")
    ||| is_type_eq(ty, "f32")
    ||| is_type_eq(ty, "f64")
}

/// A deep copy of a type expression.
pub fn duplicate(t: &TypeExpr) -> (r: TypeExpr)
    ensures
        r == *t,
    decreases *t,
{
    let arg: Option<Box<TypeExpr>> = match &t.arg {
        Some(b) => Some(Box::new(duplicate(&**b))),
        None => None,
    };
    TypeExpr { name: t.name.clone(), arg, text: t.text.clone() }
}

/// Whether the outermost name of `ty` is one of the recognized container
/// families.
fn is_container_type(ty: &TypeExpr) -> (r: bool)
    ensures
        r == is_container_name(ty.name@),
{
    is_type_eq(ty, "Option") || is_type_eq(ty, "Vec")
}

/// Unwraps nested recognized containers down to the innermost non-container
/// type.
pub fn deep_inner<'a>(t: &'a TypeExpr) -> (r: &'a TypeExpr)
    ensures
        *r == spec_deep_inner(*t),
    decreases *t,
{
    match &t.arg {
        Some(b) => {
            if is_container_type(t) {
                deep_inner(&**b)
            } else {
                t
            }
        },
        None => t,
    }
}

/// Extracts the inner type of a generic container: the first generic
/// argument, recursively unwrapped through nested recognized containers.
/// Returns `None` for a type without generic arguments.
pub fn extract_generic_type<'a>(ty: &'a TypeExpr) -> (r: Option<&'a TypeExpr>)
    ensures
        (r is Some) <==> (spec_inner(*ty) is Some),
        r matches Some(t) ==> *t == spec_inner(*ty)->0,
{
    match &ty.arg {
        Some(b) => Some(deep_inner(&**b)),
        None => None,
    }
}

/// Like `extract_generic_type`, but hands back an owned copy of the inner
/// type.
pub fn extract_generic_param(ty: &TypeExpr) -> (r: Option<TypeExpr>)
    ensures
        r == spec_inner(*ty),
{
    match extract_generic_type(ty) {
        Some(t) => Some(duplicate(t)),
        None => None,
    }
}

/// Classifies a declared type as marker-placeholder, optional container,
/// sequence container, or plain.
pub fn classify(ty: &TypeExpr) -> (r: FieldClassification)
    ensures
        r == spec_classify(*ty),
{
    if is_phantom_data(ty) {
        FieldClassification::MarkerPlaceholder
    } else if is_type_eq(ty, "Option") && ty.arg.is_some() {
        match extract_generic_type(ty) {
            Some(t) => FieldClassification::Optional(duplicate(t)),
            None => FieldClassification::Plain,
        }
    } else if is_type_eq(ty, "Vec") {
        FieldClassification::Sequence(extract_generic_param(ty))
    } else {
        FieldClassification::Plain
    }
}

} // verus!
