use vstd::prelude::*;
use crate::shape::{FieldDescriptor, ShapeDescription, TypeExpr};
use crate::classify::{
    classify, duplicate, extract_generic_type, spec_classify, spec_inner, FieldClassification,
};
use crate::attrs::{
    extract_field_attributes, spec_collect, spec_err_message, spec_first_bad_span, spec_lookup,
    views_of, AnnotationMap, AttributeError,
};

verus! {

/// Why generating the builder companion for a record failed.
#[derive(Debug)]
pub enum GenerationError {
    /// A malformed or unrecognized declarative annotation.
    Attribute(AttributeError),
    /// A per-element setter was asked for on a sequence container whose
    /// element type could not be extracted.
    MissingInnerType { field_name: String },
}

/// One field declaration of the companion type.  `wrapped` asks the
/// renderer to wrap the declared type in the optional container; a field
/// that is already optional keeps its exact original type.
pub struct FieldDefForm {
    pub name: String,
    pub ty_text: String,
    pub wrapped: bool,
}

/// One field initializer of the companion constructor: absent, or seeded
/// with an empty-but-present sequence.
pub struct FieldInitForm {
    pub name: String,
    pub seeded_empty: bool,
}

/// One setter method of the companion type.  An accumulating setter appends
/// one element to an already-present sequence field; a plain setter stores
/// its whole argument.
pub struct SetterForm {
    pub method_name: String,
    pub field_name: String,
    pub param_ty: String,
    pub accumulate: bool,
}

/// One field's contribution to the validated build step: passed through
/// unchanged, or required to be present.
pub struct BuildFieldForm {
    pub name: String,
    pub pass_through: bool,
}

/// Everything the builder generator decided about one field.
pub struct FieldPlan {
    pub def: FieldDefForm,
    pub init: FieldInitForm,
    pub whole_setter: Option<SetterForm>,
    pub each_setter: Option<SetterForm>,
    pub build: BuildFieldForm,
}

/// The full builder companion plan for one record, from which the emitted
/// fragments are rendered.
pub struct BuilderPlan {
    pub record_name: String,
    pub fields: Vec<FieldPlan>,
}

/// The annotation namespace the builder generator reads.
pub open spec fn builder_namespace() -> Seq<char> {
    "builder"@
}

/// The annotation keys the builder generator recognizes.
pub open spec fn builder_keys() -> Seq<Seq<char>> {
    seq!["each"@]
}

/// The recognized-key vector handed to the annotation parser.
fn make_builder_keys() -> (r: Vec<String>)
    ensures
        views_of(r@) == builder_keys(),
{
    let mut v: Vec<String> = Vec::new();
    v.push(String::from_str("each"));
    proof {
        assert(views_of(v@) =~= builder_keys());
    }
    v
}

/// Per-field working data of the builder generator: the field's name and
/// declared type, its classification, and its parsed annotations.
pub struct BuilderMacroFieldHelper {
    pub field_name: String,
    pub field_type: TypeExpr,
    pub is_option_type: bool,
    pub is_vec_type: bool,
    pub field_attributes: AnnotationMap,
}

/// The helper's classification flags agree with the classification of its
/// declared type.
pub open spec fn helper_wf(h: BuilderMacroFieldHelper) -> bool {
    &&& h.is_option_type == (spec_classify(h.field_type) is Optional)
    &&& h.is_vec_type == (spec_classify(h.field_type) is Sequence)
}

/// The helper was built from field descriptor `f`.
pub open spec fn helper_matches(h: BuilderMacroFieldHelper, f: FieldDescriptor) -> bool {
    &&& h.field_name@ == f.name@
    &&& h.field_type == f.ty
    &&& h.is_option_type == (spec_classify(f.ty) is Optional)
    &&& h.is_vec_type == (spec_classify(f.ty) is Sequence)
    &&& h.field_attributes.entries@ == spec_collect(f.attrs@, builder_namespace())
}

/// What the helper's annotations associate with the `each` key.
pub open spec fn spec_each_value(h: BuilderMacroFieldHelper) -> Option<Option<String>> {
    spec_lookup(h.field_attributes.entries@, "each"@)
}

/// Whether a per-element setter is asked for: the field is a sequence and
/// carries `each` with a present string value.
pub open spec fn spec_each_requested(h: BuilderMacroFieldHelper) -> bool {
    h.is_vec_type && match spec_each_value(h) {
        Some(Some(v)) => true,
        _ => false,
    }
}

/// The configured name of the per-element setter.
pub open spec fn spec_each_name(h: BuilderMacroFieldHelper) -> Seq<char>
    recommends
        spec_each_requested(h),
{
    ((spec_each_value(h)->0)->0)@
}

/// Whether the ordinary whole-value setter is suppressed: the per-element
/// setter carries the field's own name and takes its place.
pub open spec fn spec_suppressed(h: BuilderMacroFieldHelper) -> bool {
    spec_each_requested(h) && spec_each_name(h) == h.field_name@
}

/// The parameter type text of the whole-value setter: the inner type for an
/// optional field, the declared type otherwise.
pub open spec fn spec_whole_param(h: BuilderMacroFieldHelper) -> Seq<char> {
    if spec_classify(h.field_type) is Optional {
        (spec_inner(h.field_type)->0).text@
    } else {
        h.field_type.text@
    }
}

impl BuilderMacroFieldHelper {
    /// The field's declaration in the companion type: an optional field
    /// keeps its exact original type, never doubly wrapped; every other
    /// field is stored as optional-of-declared-type.
    pub fn field_defintion_inner_form(&self) -> (r: FieldDefForm)
        ensures
            r.name@ == self.field_name@,
            r.ty_text@ == self.field_type.text@,
            r.wrapped == !self.is_option_type,
    {
        FieldDefForm {
            name: self.field_name.clone(),
            ty_text: self.field_type.text.clone(),
            wrapped: !self.is_option_type,
        }
    }

    /// The field's initializer in the companion constructor: sequences start
    /// present but empty, everything else starts absent.
    pub fn field_construction_inner_form(&self) -> (r: FieldInitForm)
        ensures
            r.name@ == self.field_name@,
            r.seeded_empty == self.is_vec_type,
    {
        FieldInitForm { name: self.field_name.clone(), seeded_empty: self.is_vec_type }
    }

    /// The field's whole-value chained setter, named after the field; for an
    /// optional field it takes the inner type.  Suppressed entirely when a
    /// per-element setter carries the field's own name.
    pub fn field_setter_from(&self) -> (r: Option<SetterForm>)
        requires
            helper_wf(*self),
        ensures
            (r is Some) <==> !spec_suppressed(*self),
            r matches Some(s) ==> {
                &&& s.method_name@ == self.field_name@
                &&& s.field_name@ == self.field_name@
                &&& s.param_ty@ == spec_whole_param(*self)
                &&& !s.accumulate
            },
    {
        if self.is_vec_type {
            match self.field_attributes.get_value("each") {
                Some(Some(v)) => {
                    if v == self.field_name {
                        return None;
                    }
                },
                _ => {},
            }
        }
        let param_ty: String = if self.is_option_type {
            match extract_generic_type(&self.field_type) {
                Some(t) => t.text.clone(),
                None => self.field_type.text.clone(),
            }
        } else {
            self.field_type.text.clone()
        };
        Some(
            SetterForm {
                method_name: self.field_name.clone(),
                field_name: self.field_name.clone(),
                param_ty,
                accumulate: false,
            },
        )
    }

    /// The field's per-element accumulator setter, generated for a sequence
    /// field whose `each` annotation carries a present string value.  An
    /// `each` key without a string value skips emission silently; a sequence
    /// without an extractable element type is a fatal generation error, since
    /// the setter's parameter must be the element type and may never degrade
    /// to the outer type.
    pub fn field_setter_each_form(&self) -> (r: Result<Option<SetterForm>, GenerationError>)
        requires
            helper_wf(*self),
        ensures
            (r is Err) <==> (spec_each_requested(*self) && spec_inner(self.field_type) is None),
            r matches Err(e) ==> (e matches GenerationError::MissingInnerType { field_name }
                && field_name@ == self.field_name@),
            r matches Ok(o) ==> {
                &&& (o is Some) <==> spec_each_requested(*self)
                &&& o matches Some(s) ==> {
                    &&& s.method_name@ == spec_each_name(*self)
                    &&& s.field_name@ == self.field_name@
                    &&& s.param_ty@ == (spec_inner(self.field_type)->0).text@
                    &&& s.accumulate
                }
            },
    {
        if !self.is_vec_type {
            return Ok(None);
        }
        match self.field_attributes.get_value("each") {
            Some(Some(name)) => {
                match extract_generic_type(&self.field_type) {
                    Some(t) => Ok(
                        Some(
                            SetterForm {
                                method_name: name,
                                field_name: self.field_name.clone(),
                                param_ty: t.text.clone(),
                                accumulate: true,
                            },
                        ),
                    ),
                    None => Err(
                        GenerationError::MissingInnerType { field_name: self.field_name.clone() },
                    ),
                }
            },
            _ => Ok(None),
        }
    }

    /// The field's contribution to the build step: an optional field passes
    /// its current value through, absence included; any other field must be
    /// present, and its absence is reported as a descriptive missing-field
    /// error rather than a fault.
    pub fn field_build_inner_form(&self) -> (r: BuildFieldForm)
        ensures
            r.name@ == self.field_name@,
            r.pass_through == self.is_option_type,
    {
        BuildFieldForm { name: self.field_name.clone(), pass_through: self.is_option_type }
    }
}

/// Whether some annotation of `f` carries an unrecognized key under the
/// builder namespace.
pub open spec fn field_bad(f: FieldDescriptor) -> bool {
    spec_first_bad_span(f.attrs@, builder_namespace(), builder_keys()) is Some
}

/// Builds one helper per field, in declaration order, parsing each field's
/// annotations under the builder namespace.  The first field with an
/// unrecognized key ends generation with that field's `AttributeError`.
pub fn init_field_macro_helpers(shape: &ShapeDescription) -> (r: Result<
    Vec<BuilderMacroFieldHelper>,
    AttributeError,
>)
    ensures
        (r is Err) <==> (exists|i: int|
            0 <= i < shape.fields@.len() && field_bad(#[trigger] shape.fields@[i])),
        r matches Err(e) ==> (exists|i: int|
            {
                &&& 0 <= i < shape.fields@.len()
                &&& field_bad(#[trigger] shape.fields@[i])
                &&& forall|k: int| 0 <= k < i ==> !field_bad(#[trigger] shape.fields@[k])
                &&& e.field_name@ == shape.fields@[i].name@
                &&& Some(e.span) == spec_first_bad_span(
                    shape.fields@[i].attrs@,
                    builder_namespace(),
                    builder_keys(),
                )
                &&& e.message@ == spec_err_message(builder_namespace(), builder_keys())
            }),
        r matches Ok(v) ==> {
            &&& v@.len() == shape.fields@.len()
            &&& forall|i: int|
                0 <= i < shape.fields@.len() ==> helper_matches(
                    #[trigger] v@[i],
                    shape.fields@[i],
                )
        },
{
    let keys = make_builder_keys();
    let mut helpers: Vec<BuilderMacroFieldHelper> = Vec::new();
    let n = shape.fields.len();
    let mut i: usize = 0;
    while i < n
        invariant
            n == shape.fields@.len(),
            i <= n,
            views_of(keys@) == builder_keys(),
            helpers@.len() == i,
            forall|k: int|
                0 <= k < i ==> helper_matches(#[trigger] helpers@[k], shape.fields@[k]),
            forall|k: int| 0 <= k < i ==> !field_bad(#[trigger] shape.fields@[k]),
        decreases n - i,
    {
        let f = &shape.fields[i];
        match extract_field_attributes(f, "builder", &keys) {
            Err(e) => {
                return Err(e);
            },
            Ok(map) => {
                let c = classify(&f.ty);
                let is_opt = match &c {
                    FieldClassification::Optional(_) => true,
                    _ => false,
                };
                let is_vec = match &c {
                    FieldClassification::Sequence(_) => true,
                    _ => false,
                };
                helpers.push(
                    BuilderMacroFieldHelper {
                        field_name: f.name.clone(),
                        field_type: duplicate(&f.ty),
                        is_option_type: is_opt,
                        is_vec_type: is_vec,
                        field_attributes: map,
                    },
                );
            },
        }
        i = i + 1;
    }
    Ok(helpers)
}

/// What the annotations of `f` associate with the `each` key under the
/// builder namespace.
pub open spec fn field_each_value(f: FieldDescriptor) -> Option<Option<String>> {
    spec_lookup(spec_collect(f.attrs@, builder_namespace()), "each"@)
}

/// Whether `f` asks for a per-element setter: a sequence field carrying
/// `each` with a present string value.
pub open spec fn field_each_requested(f: FieldDescriptor) -> bool {
    spec_classify(f.ty) is Sequence && match field_each_value(f) {
        Some(Some(v)) => true,
        _ => false,
    }
}

/// The configured per-element setter name of `f`.
pub open spec fn field_each_name(f: FieldDescriptor) -> Seq<char>
    recommends
        field_each_requested(f),
{
    ((field_each_value(f)->0)->0)@
}

/// Whether the whole-value setter of `f` is suppressed by a per-element
/// setter of the same name.
pub open spec fn field_suppressed(f: FieldDescriptor) -> bool {
    field_each_requested(f) && field_each_name(f) == f.name@
}

/// The whole-value setter's parameter type text for `f`.
pub open spec fn field_whole_param(f: FieldDescriptor) -> Seq<char> {
    if spec_classify(f.ty) is Optional {
        (spec_inner(f.ty)->0).text@
    } else {
        f.ty.text@
    }
}

/// Whether `f` asks for a per-element setter but its element type cannot be
/// extracted: a fatal generation error.
pub open spec fn field_missing_inner(f: FieldDescriptor) -> bool {
    field_each_requested(f) && spec_inner(f.ty) is None
}

/// The plan entry for one field agrees with its descriptor.
pub open spec fn field_plan_matches(fp: FieldPlan, f: FieldDescriptor) -> bool {
    &&& fp.def.name@ == f.name@
    &&& fp.def.ty_text@ == f.ty.text@
    &&& fp.def.wrapped == !(spec_classify(f.ty) is Optional)
    &&& fp.init.name@ == f.name@
    &&& fp.init.seeded_empty == (spec_classify(f.ty) is Sequence)
    &&& fp.build.name@ == f.name@
    &&& fp.build.pass_through == (spec_classify(f.ty) is Optional)
    &&& (fp.whole_setter is Some) <==> !field_suppressed(f)
    &&& (fp.whole_setter matches Some(s) ==> {
        &&& s.method_name@ == f.name@
        &&& s.field_name@ == f.name@
        &&& s.param_ty@ == field_whole_param(f)
        &&& !s.accumulate
    })
    &&& (fp.each_setter is Some) <==> field_each_requested(f)
    &&& (fp.each_setter matches Some(s) ==> {
        &&& s.method_name@ == field_each_name(f)
        &&& s.field_name@ == f.name@
        &&& s.param_ty@ == (spec_inner(f.ty)->0).text@
        &&& s.accumulate
    })
}

/// The plan agrees with the shape description, field for field.
pub open spec fn plan_matches(s: ShapeDescription, p: BuilderPlan) -> bool {
    &&& p.record_name@ == s.name@
    &&& p.fields@.len() == s.fields@.len()
    &&& forall|i: int|
        0 <= i < s.fields@.len() ==> field_plan_matches(#[trigger] p.fields@[i], s.fields@[i])
}

/// Decides everything the builder generator emits for `shape`, before any
/// text is rendered.
pub fn plan_builder(shape: &ShapeDescription) -> (r: Result<BuilderPlan, GenerationError>)
    ensures
        (r is Err) <==> ((exists|i: int|
            0 <= i < shape.fields@.len() && field_bad(#[trigger] shape.fields@[i])) || (
        exists|i: int|
            0 <= i < shape.fields@.len() && field_missing_inner(#[trigger] shape.fields@[i]))),
        r matches Err(GenerationError::Attribute(e)) ==> (exists|i: int|
            {
                &&& 0 <= i < shape.fields@.len()
                &&& field_bad(#[trigger] shape.fields@[i])
                &&& forall|k: int| 0 <= k < i ==> !field_bad(#[trigger] shape.fields@[k])
                &&& e.field_name@ == shape.fields@[i].name@
                &&& Some(e.span) == spec_first_bad_span(
                    shape.fields@[i].attrs@,
                    builder_namespace(),
                    builder_keys(),
                )
                &&& e.message@ == spec_err_message(builder_namespace(), builder_keys())
            }),
        r matches Err(GenerationError::MissingInnerType { field_name }) ==> {
            &&& forall|k: int|
                0 <= k < shape.fields@.len() ==> !field_bad(#[trigger] shape.fields@[k])
            &&& exists|i: int|
                {
                    &&& 0 <= i < shape.fields@.len()
                    &&& field_missing_inner(#[trigger] shape.fields@[i])
                    &&& forall|k: int|
                        0 <= k < i ==> !field_missing_inner(#[trigger] shape.fields@[k])
                    &&& field_name@ == shape.fields@[i].name@
                }
        },
        r matches Ok(p) ==> {
            &&& plan_matches(*shape, p)
            &&& forall|k: int|
                0 <= k < shape.fields@.len() ==> !field_bad(#[trigger] shape.fields@[k])
            &&& forall|k: int|
                0 <= k < shape.fields@.len() ==> !field_missing_inner(
                    #[trigger] shape.fields@[k],
                )
        },
{
    let helpers = match init_field_macro_helpers(shape) {
        Err(e) => {
            return Err(GenerationError::Attribute(e));
        },
        Ok(h) => h,
    };
    let n = helpers.len();
    let mut fields: Vec<FieldPlan> = Vec::new();
    let mut i: usize = 0;
    while i < n
        invariant
            n == helpers@.len(),
            n == shape.fields@.len(),
            i <= n,
            forall|k: int|
                0 <= k < n ==> helper_matches(#[trigger] helpers@[k], shape.fields@[k]),
            forall|k: int| 0 <= k < n ==> !field_bad(#[trigger] shape.fields@[k]),
            fields@.len() == i,
            forall|k: int|
                0 <= k < i ==> field_plan_matches(#[trigger] fields@[k], shape.fields@[k]),
            forall|k: int| 0 <= k < i ==> !field_missing_inner(#[trigger] shape.fields@[k]),
        decreases n - i,
    {
        let h = &helpers[i];
        proof {
            assert(helper_matches(helpers@[i as int], shape.fields@[i as int]));
        }
        let each_setter = match h.field_setter_each_form() {
            Err(e) => {
                proof {
                    let f = shape.fields@[i as int];
                    assert(spec_each_value(*h) == field_each_value(f));
                    assert(field_missing_inner(f));
                }
                return Err(e);
            },
            Ok(o) => o,
        };
        let fp = FieldPlan {
            def: h.field_defintion_inner_form(),
            init: h.field_construction_inner_form(),
            whole_setter: h.field_setter_from(),
            each_setter,
            build: h.field_build_inner_form(),
        };
        fields.push(fp);
        i = i + 1;
    }
    Ok(BuilderPlan { record_name: shape.name.clone(), fields })
}

/// The concatenation of a sequence of text pieces, in order.
pub open spec fn concat_texts(s: Seq<Seq<char>>) -> Seq<char>
    decreases s.len(),
{
    if s.len() == 0 {
        Seq::empty()
    } else {
        concat_texts(s.drop_last()) + s.last()
    }
}

/// The text of one companion field declaration.
pub open spec fn def_text(name: Seq<char>, ty: Seq<char>, wrapped: bool) -> Seq<char> {
    if wrapped {
        "    "@ + name + ": std::option::Option<"@ + ty + ">,\n"@
    } else {
        "    "@ + name + ": "@ + ty + ",\n"@
    }
}

/// The text of one constructor field initializer.
pub open spec fn init_text(name: Seq<char>, seeded_empty: bool) -> Seq<char> {
    if seeded_empty {
        "            "@ + name + ": std::option::Option::Some(Vec::new()),\n"@
    } else {
        "            "@ + name + ": std::option::Option::None,\n"@
    }
}

/// The text of one setter method.
pub open spec fn setter_text(
    method: Seq<char>,
    field: Seq<char>,
    param: Seq<char>,
    accumulate: bool,
) -> Seq<char> {
    if accumulate {
        "    fn "@ + method + "(&mut self, value: "@ + param + ") -> &mut Self {\n        self."@
            + field + ".as_mut().unwrap().push(value);\n        self\n    }\n"@
    } else {
        "    fn "@ + method + "(&mut self, "@ + method + ": "@ + param
            + ") -> &mut Self {\n        self."@ + field + " = std::option::Option::Some("@
            + method + ");\n        self\n    }\n"@
    }
}

/// The text of one field's build-step initializer.
pub open spec fn build_text(name: Seq<char>, pass_through: bool) -> Seq<char> {
    if pass_through {
        "            "@ + name + ": self."@ + name + ".clone(),\n"@
    } else {
        "            "@ + name + ": self."@ + name
            + ".clone().ok_or(std::string::String::from(\"missing required field: "@ + name
            + "\"))?,\n"@
    }
}

/// The declaration pieces of a plan's fields.
pub open spec fn plan_def_pieces(s: Seq<FieldPlan>) -> Seq<Seq<char>> {
    s.map_values(|fp: FieldPlan| def_text(fp.def.name@, fp.def.ty_text@, fp.def.wrapped))
}

/// The initializer pieces of a plan's fields.
pub open spec fn plan_init_pieces(s: Seq<FieldPlan>) -> Seq<Seq<char>> {
    s.map_values(|fp: FieldPlan| init_text(fp.init.name@, fp.init.seeded_empty))
}

/// The whole-value setter pieces of a plan's fields; a suppressed setter
/// contributes nothing.
pub open spec fn plan_whole_pieces(s: Seq<FieldPlan>) -> Seq<Seq<char>> {
    s.map_values(
        |fp: FieldPlan|
            match fp.whole_setter {
                Some(st) => setter_text(st.method_name@, st.field_name@, st.param_ty@, st.accumulate),
                None => Seq::empty(),
            },
    )
}

/// The per-element setter pieces of a plan's fields.
pub open spec fn plan_each_pieces(s: Seq<FieldPlan>) -> Seq<Seq<char>> {
    s.map_values(
        |fp: FieldPlan|
            match fp.each_setter {
                Some(st) => setter_text(st.method_name@, st.field_name@, st.param_ty@, st.accumulate),
                None => Seq::empty(),
            },
    )
}

/// The build-step pieces of a plan's fields.
pub open spec fn plan_build_pieces(s: Seq<FieldPlan>) -> Seq<Seq<char>> {
    s.map_values(|fp: FieldPlan| build_text(fp.build.name@, fp.build.pass_through))
}

/// The companion type definition fragment rendered from a plan.
pub open spec fn plan_def_fragment_text(p: BuilderPlan) -> Seq<char> {
    "pub struct "@ + p.record_name@ + "Builder {\n"@ + concat_texts(plan_def_pieces(p.fields@))
        + "}\n"@
}

/// The implementation fragment rendered from a plan: the setters, the
/// per-element setters, and the build method.
pub open spec fn plan_impl_fragment_text(p: BuilderPlan) -> Seq<char> {
    "impl "@ + p.record_name@ + "Builder {\n"@ + concat_texts(plan_whole_pieces(p.fields@))
        + concat_texts(plan_each_pieces(p.fields@))
        + "    fn build(&self) -> std::result::Result<"@ + p.record_name@
        + ", std::string::String> {\n        std::result::Result::Ok("@ + p.record_name@ + " {\n"@
        + concat_texts(plan_build_pieces(p.fields@)) + "        })\n    }\n"@ + "}\n"@
}

/// The constructor fragment rendered from a plan.
pub open spec fn plan_ctor_fragment_text(p: BuilderPlan) -> Seq<char> {
    "impl "@ + p.record_name@ + " {\n    pub fn builder() -> "@ + p.record_name@
        + "Builder {\n        "@ + p.record_name@ + "Builder {\n"@ + concat_texts(
        plan_init_pieces(p.fields@),
    ) + "        }\n    }\n}\n"@
}

/// Renders one companion field declaration.
fn render_field_def(d: &FieldDefForm) -> (r: String)
    ensures
        r@ == def_text(d.name@, d.ty_text@, d.wrapped),
{
    let mut s = String::from_str("    ");
    s.append(d.name.as_str());
    if d.wrapped {
        s.append(": std::option::Option<");
        s.append(d.ty_text.as_str());
        s.append(">,\n");
    } else {
        s.append(": ");
        s.append(d.ty_text.as_str());
        s.append(",\n");
    }
    s
}

/// Renders one constructor field initializer.
fn render_field_init(d: &FieldInitForm) -> (r: String)
    ensures
        r@ == init_text(d.name@, d.seeded_empty),
{
    let mut s = String::from_str("            ");
    s.append(d.name.as_str());
    if d.seeded_empty {
        s.append(": std::option::Option::Some(Vec::new()),\n");
    } else {
        s.append(": std::option::Option::None,\n");
    }
    s
}

/// Renders one setter method.
fn render_setter(st: &SetterForm) -> (r: String)
    ensures
        r@ == setter_text(st.method_name@, st.field_name@, st.param_ty@, st.accumulate),
{
    let mut s = String::from_str("    fn ");
    s.append(st.method_name.as_str());
    if st.accumulate {
        s.append("(&mut self, value: ");
        s.append(st.param_ty.as_str());
        s.append(") -> &mut Self {\n        self.");
        s.append(st.field_name.as_str());
        s.append(".as_mut().unwrap().push(value);\n        self\n    }\n");
    } else {
        s.append("(&mut self, ");
        s.append(st.method_name.as_str());
        s.append(": ");
        s.append(st.param_ty.as_str());
        s.append(") -> &mut Self {\n        self.");
        s.append(st.field_name.as_str());
        s.append(" = std::option::Option::Some(");
        s.append(st.method_name.as_str());
        s.append(");\n        self\n    }\n");
    }
    s
}

/// Renders one field's build-step initializer.
fn render_field_build(d: &BuildFieldForm) -> (r: String)
    ensures
        r@ == build_text(d.name@, d.pass_through),
{
    let mut s = String::from_str("            ");
    s.append(d.name.as_str());
    if d.pass_through {
        s.append(": self.");
        s.append(d.name.as_str());
        s.append(".clone(),\n");
    } else {
        s.append(": self.");
        s.append(d.name.as_str());
        s.append(".clone().ok_or(std::string::String::from(\"missing required field: ");
        s.append(d.name.as_str());
        s.append("\"))?,\n");
    }
    s
}

/// Renders the three builder fragments from a plan: the companion type
/// definition, the implementation block, and the constructor block, in the
/// order the back-end concatenates them.
pub fn render_builder(p: &BuilderPlan) -> (r: Vec<String>)
    ensures
        r@.len() == 3,
        r@[0]@ == plan_def_fragment_text(*p),
        r@[1]@ == plan_impl_fragment_text(*p),
        r@[2]@ == plan_ctor_fragment_text(*p),
{
    let n = p.fields.len();

    let mut frag_def = String::from_str("pub struct ");
    frag_def.append(p.record_name.as_str());
    frag_def.append("Builder {\n");
    proof {
        assert(frag_def@ =~= "pub struct "@ + p.record_name@ + "Builder {\n"@ + concat_texts(
            plan_def_pieces(p.fields@).subrange(0, 0),
        ));
    }
    let mut i: usize = 0;
    while i < n
        invariant
            n == p.fields@.len(),
            i <= n,
            frag_def@ == "pub struct "@ + p.record_name@ + "Builder {\n"@ + concat_texts(
                plan_def_pieces(p.fields@).subrange(0, i as int),
            ),
        decreases n - i,
    {
        let piece = render_field_def(&p.fields[i].def);
        frag_def.append(piece.as_str());
        proof {
            let ps = plan_def_pieces(p.fields@);
            assert(ps.subrange(0, i + 1 as int).drop_last() =~= ps.subrange(0, i as int));
            assert(ps.subrange(0, i + 1 as int).last() == ps[i as int]);
            assert(ps[i as int] == def_text(
                p.fields@[i as int].def.name@,
                p.fields@[i as int].def.ty_text@,
                p.fields@[i as int].def.wrapped,
            ));
        }
        i = i + 1;
    }
    frag_def.append("}\n");
    proof {
        assert(plan_def_pieces(p.fields@).subrange(0, n as int) =~= plan_def_pieces(p.fields@));
    }

    let mut frag_impl = String::from_str("impl ");
    frag_impl.append(p.record_name.as_str());
    frag_impl.append("Builder {\n");
    proof {
        assert(frag_impl@ =~= "impl "@ + p.record_name@ + "Builder {\n"@ + concat_texts(
            plan_whole_pieces(p.fields@).subrange(0, 0),
        ));
    }
    let mut i: usize = 0;
    while i < n
        invariant
            n == p.fields@.len(),
            i <= n,
            frag_impl@ == "impl "@ + p.record_name@ + "Builder {\n"@ + concat_texts(
                plan_whole_pieces(p.fields@).subrange(0, i as int),
            ),
        decreases n - i,
    {
        proof {
            let ps = plan_whole_pieces(p.fields@);
            assert(ps.subrange(0, i + 1 as int).drop_last() =~= ps.subrange(0, i as int));
            assert(ps.subrange(0, i + 1 as int).last() == ps[i as int]);
        }
        match &p.fields[i].whole_setter {
            Some(st) => {
                let piece = render_setter(st);
                frag_impl.append(piece.as_str());
            },
            None => {
                proof {
                    let ps = plan_whole_pieces(p.fields@);
                    assert(frag_impl@ =~= "impl "@ + p.record_name@ + "Builder {\n"@
                        + concat_texts(ps.subrange(0, i + 1 as int)));
                }
            },
        }
        i = i + 1;
    }
    proof {
        assert(plan_whole_pieces(p.fields@).subrange(0, n as int) =~= plan_whole_pieces(
            p.fields@,
        ));
        assert(frag_impl@ =~= "impl "@ + p.record_name@ + "Builder {\n"@ + concat_texts(
            plan_whole_pieces(p.fields@),
        ) + concat_texts(plan_each_pieces(p.fields@).subrange(0, 0)));
    }
    let mut i: usize = 0;
    while i < n
        invariant
            n == p.fields@.len(),
            i <= n,
            frag_impl@ == "impl "@ + p.record_name@ + "Builder {\n"@ + concat_texts(
                plan_whole_pieces(p.fields@),
            ) + concat_texts(plan_each_pieces(p.fields@).subrange(0, i as int)),
        decreases n - i,
    {
        proof {
            let ps = plan_each_pieces(p.fields@);
            assert(ps.subrange(0, i + 1 as int).drop_last() =~= ps.subrange(0, i as int));
            assert(ps.subrange(0, i + 1 as int).last() == ps[i as int]);
        }
        match &p.fields[i].each_setter {
            Some(st) => {
                let piece = render_setter(st);
                frag_impl.append(piece.as_str());
            },
            None => {
                proof {
                    let ps = plan_each_pieces(p.fields@);
                    assert(frag_impl@ =~= "impl "@ + p.record_name@ + "Builder {\n"@
                        + concat_texts(plan_whole_pieces(p.fields@)) + concat_texts(
                        ps.subrange(0, i + 1 as int),
                    ));
                }
            },
        }
        i = i + 1;
    }
    proof {
        assert(plan_each_pieces(p.fields@).subrange(0, n as int) =~= plan_each_pieces(p.fields@));
    }
    frag_impl.append("    fn build(&self) -> std::result::Result<");
    frag_impl.append(p.record_name.as_str());
    frag_impl.append(", std::string::String> {\n        std::result::Result::Ok(");
    frag_impl.append(p.record_name.as_str());
    frag_impl.append(" {\n");
    proof {
        assert(frag_impl@ =~= "impl "@ + p.record_name@ + "Builder {\n"@ + concat_texts(
            plan_whole_pieces(p.fields@),
        ) + concat_texts(plan_each_pieces(p.fields@))
            + "    fn build(&self) -> std::result::Result<"@ + p.record_name@
            + ", std::string::String> {\n        std::result::Result::Ok("@ + p.record_name@
            + " {\n"@ + concat_texts(plan_build_pieces(p.fields@).subrange(0, 0)));
    }
    let mut i: usize = 0;
    while i < n
        invariant
            n == p.fields@.len(),
            i <= n,
            frag_impl@ == "impl "@ + p.record_name@ + "Builder {\n"@ + concat_texts(
                plan_whole_pieces(p.fields@),
            ) + concat_texts(plan_each_pieces(p.fields@))
                + "    fn build(&self) -> std::result::Result<"@ + p.record_name@
                + ", std::string::String> {\n        std::result::Result::Ok("@ + p.record_name@
                + " {\n"@ + concat_texts(plan_build_pieces(p.fields@).subrange(0, i as int)),
        decreases n - i,
    {
        let piece = render_field_build(&p.fields[i].build);
        frag_impl.append(piece.as_str());
        proof {
            let ps = plan_build_pieces(p.fields@);
            assert(ps.subrange(0, i + 1 as int).drop_last() =~= ps.subrange(0, i as int));
            assert(ps.subrange(0, i + 1 as int).last() == ps[i as int]);
        }
        i = i + 1;
    }
    proof {
        assert(plan_build_pieces(p.fields@).subrange(0, n as int) =~= plan_build_pieces(
            p.fields@,
        ));
    }
    frag_impl.append("        })\n    }\n");
    frag_impl.append("}\n");

    let mut frag_ctor = String::from_str("impl ");
    frag_ctor.append(p.record_name.as_str());
    frag_ctor.append(" {\n    pub fn builder() -> ");
    frag_ctor.append(p.record_name.as_str());
    frag_ctor.append("Builder {\n        ");
    frag_ctor.append(p.record_name.as_str());
    frag_ctor.append("Builder {\n");
    proof {
        assert(frag_ctor@ =~= "impl "@ + p.record_name@ + " {\n    pub fn builder() -> "@
            + p.record_name@ + "Builder {\n        "@ + p.record_name@ + "Builder {\n"@
            + concat_texts(plan_init_pieces(p.fields@).subrange(0, 0)));
    }
    let mut i: usize = 0;
    while i < n
        invariant
            n == p.fields@.len(),
            i <= n,
            frag_ctor@ == "impl "@ + p.record_name@ + " {\n    pub fn builder() -> "@
                + p.record_name@ + "Builder {\n        "@ + p.record_name@ + "Builder {\n"@
                + concat_texts(plan_init_pieces(p.fields@).subrange(0, i as int)),
        decreases n - i,
    {
        let piece = render_field_init(&p.fields[i].init);
        frag_ctor.append(piece.as_str());
        proof {
            let ps = plan_init_pieces(p.fields@);
            assert(ps.subrange(0, i + 1 as int).drop_last() =~= ps.subrange(0, i as int));
            assert(ps.subrange(0, i + 1 as int).last() == ps[i as int]);
        }
        i = i + 1;
    }
    proof {
        assert(plan_init_pieces(p.fields@).subrange(0, n as int) =~= plan_init_pieces(p.fields@));
    }
    frag_ctor.append("        }\n    }\n}\n");

    let mut out: Vec<String> = Vec::new();
    out.push(frag_def);
    out.push(frag_impl);
    out.push(frag_ctor);
    out
}

/// The declaration pieces of a shape's fields.
pub open spec fn shape_def_pieces(s: Seq<FieldDescriptor>) -> Seq<Seq<char>> {
    s.map_values(
        |f: FieldDescriptor| def_text(f.name@, f.ty.text@, !(spec_classify(f.ty) is Optional)),
    )
}

/// The initializer pieces of a shape's fields.
pub open spec fn shape_init_pieces(s: Seq<FieldDescriptor>) -> Seq<Seq<char>> {
    s.map_values(|f: FieldDescriptor| init_text(f.name@, spec_classify(f.ty) is Sequence))
}

/// The whole-value setter pieces of a shape's fields.
pub open spec fn shape_whole_pieces(s: Seq<FieldDescriptor>) -> Seq<Seq<char>> {
    s.map_values(
        |f: FieldDescriptor|
            if field_suppressed(f) {
                Seq::empty()
            } else {
                setter_text(f.name@, f.name@, field_whole_param(f), false)
            },
    )
}

/// The per-element setter pieces of a shape's fields.
pub open spec fn shape_each_pieces(s: Seq<FieldDescriptor>) -> Seq<Seq<char>> {
    s.map_values(
        |f: FieldDescriptor|
            if field_each_requested(f) {
                setter_text(field_each_name(f), f.name@, (spec_inner(f.ty)->0).text@, true)
            } else {
                Seq::empty()
            },
    )
}

/// The build-step pieces of a shape's fields.
pub open spec fn shape_build_pieces(s: Seq<FieldDescriptor>) -> Seq<Seq<char>> {
    s.map_values(|f: FieldDescriptor| build_text(f.name@, spec_classify(f.ty) is Optional))
}

/// The companion type definition fragment for a shape.
pub open spec fn def_fragment_text(s: ShapeDescription) -> Seq<char> {
    "pub struct "@ + s.name@ + "Builder {\n"@ + concat_texts(shape_def_pieces(s.fields@)) + "}\n"@
}

/// The implementation fragment for a shape.
pub open spec fn impl_fragment_text(s: ShapeDescription) -> Seq<char> {
    "impl "@ + s.name@ + "Builder {\n"@ + concat_texts(shape_whole_pieces(s.fields@))
        + concat_texts(shape_each_pieces(s.fields@))
        + "    fn build(&self) -> std::result::Result<"@ + s.name@
        + ", std::string::String> {\n        std::result::Result::Ok("@ + s.name@ + " {\n"@
        + concat_texts(shape_build_pieces(s.fields@)) + "        })\n    }\n"@ + "}\n"@
}

/// The constructor fragment for a shape.
pub open spec fn ctor_fragment_text(s: ShapeDescription) -> Seq<char> {
    "impl "@ + s.name@ + " {\n    pub fn builder() -> "@ + s.name@ + "Builder {\n        "@
        + s.name@ + "Builder {\n"@ + concat_texts(shape_init_pieces(s.fields@))
        + "        }\n    }\n}\n"@
}

/// A plan that matches a shape renders the same pieces the shape describes.
proof fn lemma_plan_pieces(s: ShapeDescription, p: BuilderPlan)
    requires
        plan_matches(s, p),
    ensures
        plan_def_pieces(p.fields@) == shape_def_pieces(s.fields@),
        plan_init_pieces(p.fields@) == shape_init_pieces(s.fields@),
        plan_whole_pieces(p.fields@) == shape_whole_pieces(s.fields@),
        plan_each_pieces(p.fields@) == shape_each_pieces(s.fields@),
        plan_build_pieces(p.fields@) == shape_build_pieces(s.fields@),
{
    assert forall|i: int| 0 <= i < s.fields@.len() implies #[trigger] plan_def_pieces(
        p.fields@,
    )[i] == shape_def_pieces(s.fields@)[i] by {
        assert(field_plan_matches(p.fields@[i], s.fields@[i]));
    }
    assert(plan_def_pieces(p.fields@) =~= shape_def_pieces(s.fields@));
    assert forall|i: int| 0 <= i < s.fields@.len() implies #[trigger] plan_init_pieces(
        p.fields@,
    )[i] == shape_init_pieces(s.fields@)[i] by {
        assert(field_plan_matches(p.fields@[i], s.fields@[i]));
    }
    assert(plan_init_pieces(p.fields@) =~= shape_init_pieces(s.fields@));
    assert forall|i: int| 0 <= i < s.fields@.len() implies #[trigger] plan_whole_pieces(
        p.fields@,
    )[i] == shape_whole_pieces(s.fields@)[i] by {
        assert(field_plan_matches(p.fields@[i], s.fields@[i]));
    }
    assert(plan_whole_pieces(p.fields@) =~= shape_whole_pieces(s.fields@));
    assert forall|i: int| 0 <= i < s.fields@.len() implies #[trigger] plan_each_pieces(
        p.fields@,
    )[i] == shape_each_pieces(s.fields@)[i] by {
        assert(field_plan_matches(p.fields@[i], s.fields@[i]));
    }
    assert(plan_each_pieces(p.fields@) =~= shape_each_pieces(s.fields@));
    assert forall|i: int| 0 <= i < s.fields@.len() implies #[trigger] plan_build_pieces(
        p.fields@,
    )[i] == shape_build_pieces(s.fields@)[i] by {
        assert(field_plan_matches(p.fields@[i], s.fields@[i]));
    }
    assert(plan_build_pieces(p.fields@) =~= shape_build_pieces(s.fields@));
}

/// Generates the builder companion for one record shape: the companion type
/// definition, its implementation block, and the constructor block, as three
/// text fragments in that order.  A field with an unrecognized annotation
/// key under the builder namespace fails generation with an
/// `AttributeError` naming the first such field, and no fragments are
/// produced; a per-element setter on a sequence without an extractable
/// element type fails with a missing-inner-type error.
pub fn derive(shape: &ShapeDescription) -> (r: Result<Vec<String>, GenerationError>)
    ensures
        (r is Err) <==> ((exists|i: int|
            0 <= i < shape.fields@.len() && field_bad(#[trigger] shape.fields@[i])) || (
        exists|i: int|
            0 <= i < shape.fields@.len() && field_missing_inner(#[trigger] shape.fields@[i]))),
        r matches Err(GenerationError::Attribute(e)) ==> (exists|i: int|
            {
                &&& 0 <= i < shape.fields@.len()
                &&& field_bad(#[trigger] shape.fields@[i])
                &&& forall|k: int| 0 <= k < i ==> !field_bad(#[trigger] shape.fields@[k])
                &&& e.field_name@ == shape.fields@[i].name@
                &&& Some(e.span) == spec_first_bad_span(
                    shape.fields@[i].attrs@,
                    builder_namespace(),
                    builder_keys(),
                )
                &&& e.message@ == spec_err_message(builder_namespace(), builder_keys())
            }),
        r matches Err(GenerationError::MissingInnerType { field_name }) ==> {
            &&& forall|k: int|
                0 <= k < shape.fields@.len() ==> !field_bad(#[trigger] shape.fields@[k])
            &&& exists|i: int|
                {
                    &&& 0 <= i < shape.fields@.len()
                    &&& field_missing_inner(#[trigger] shape.fields@[i])
                    &&& forall|k: int|
                        0 <= k < i ==> !field_missing_inner(#[trigger] shape.fields@[k])
                    &&& field_name@ == shape.fields@[i].name@
                }
        },
        r matches Ok(frags) ==> {
            &&& frags@.len() == 3
            &&& frags@[0]@ == def_fragment_text(*shape)
            &&& frags@[1]@ == impl_fragment_text(*shape)
            &&& frags@[2]@ == ctor_fragment_text(*shape)
        },
{
    let plan = match plan_builder(shape) {
        Err(e) => {
            return Err(e);
        },
        Ok(p) => p,
    };
    let frags = render_builder(&plan);
    proof {
        lemma_plan_pieces(*shape, plan);
    }
    Ok(frags)
}

} // verus!



