use vstd::prelude::*;
use crate::shape::{FieldDescriptor, ShapeDescription, TypeExpr};
use crate::classify::{
    extract_generic_param, is_phantom_data, spec_classify, spec_inner, duplicate,
};
use crate::attrs::{extract_meta_name_value, spec_meta_value, views_of};
use crate::builder_gen::concat_texts;

verus! {

/// Per-field working data of the formatting generator.
#[derive(Debug)]
pub struct DebugMacroFieldHelper {
    pub field_ident: String,
    pub field_type: TypeExpr,
    /// The custom format template from a `debug` annotation, if any.
    pub debug_format: Option<String>,
    /// Whether the declared type is the marker placeholder.
    pub is_phantom_data: bool,
    /// The inner type carried by the declared type's generic argument.
    pub generic_param: Option<TypeExpr>,
}

/// Working data of the formatting generator for one record: its generic
/// parameter names and one helper per field.
#[derive(Debug)]
pub struct DebugMacroHelper {
    pub generic_types: Vec<String>,
    pub field_helpers: Vec<DebugMacroFieldHelper>,
}

/// The view of an optional string.
pub open spec fn opt_text(o: Option<String>) -> Option<Seq<char>> {
    match o {
        Some(s) => Some(s@),
        None => None,
    }
}

/// The field helper was built from field descriptor `f`.
pub open spec fn dhelper_matches(h: DebugMacroFieldHelper, f: FieldDescriptor) -> bool {
    &&& h.field_ident@ == f.name@
    &&& h.field_type == f.ty
    &&& opt_text(h.debug_format) == spec_meta_value(f.attrs@, "debug"@)
    &&& h.is_phantom_data == (spec_classify(f.ty) is MarkerPlaceholder)
    &&& h.generic_param == spec_inner(f.ty)
}

/// The record helper was built from shape `s`.
pub open spec fn debug_helper_matches(h: DebugMacroHelper, s: ShapeDescription) -> bool {
    &&& views_of(h.generic_types@) == views_of(s.generics@)
    &&& h.field_helpers@.len() == s.fields@.len()
    &&& forall|i: int|
        0 <= i < s.fields@.len() ==> dhelper_matches(#[trigger] h.field_helpers@[i], s.fields@[i])
}

/// Copies a vector of strings.
fn dup_strings(v: &Vec<String>) -> (r: Vec<String>)
    ensures
        r@.len() == v@.len(),
        forall|i: int| 0 <= i < v@.len() ==> #[trigger] r@[i]@ == v@[i]@,
{
    let mut out: Vec<String> = Vec::new();
    let mut i: usize = 0;
    while i < v.len()
        invariant
            i <= v@.len(),
            out@.len() == i,
            forall|k: int| 0 <= k < i ==> #[trigger] out@[k]@ == v@[k]@,
        decreases v@.len() - i,
    {
        out.push(v[i].clone());
        i = i + 1;
    }
    out
}

/// The record's generic type parameter names, in declaration order.
pub fn extract_generic_types(shape: &ShapeDescription) -> (r: Vec<String>)
    ensures
        views_of(r@) == views_of(shape.generics@),
{
    let r = dup_strings(&shape.generics);
    proof {
        assert(views_of(r@) =~= views_of(shape.generics@));
    }
    r
}

/// Builds one field helper per field of the shape: the field's `debug`
/// template, its marker-placeholder flag, and its carried generic argument.
pub fn init_field_helpers(shape: &ShapeDescription) -> (r: Vec<DebugMacroFieldHelper>)
    ensures
        r@.len() == shape.fields@.len(),
        forall|i: int|
            0 <= i < shape.fields@.len() ==> dhelper_matches(#[trigger] r@[i], shape.fields@[i]),
{
    let mut helpers: Vec<DebugMacroFieldHelper> = Vec::new();
    let n = shape.fields.len();
    let mut i: usize = 0;
    while i < n
        invariant
            n == shape.fields@.len(),
            i <= n,
            helpers@.len() == i,
            forall|k: int|
                0 <= k < i ==> dhelper_matches(#[trigger] helpers@[k], shape.fields@[k]),
        decreases n - i,
    {
        let f = &shape.fields[i];
        let helper = DebugMacroFieldHelper {
            field_ident: f.name.clone(),
            field_type: duplicate(&f.ty),
            debug_format: extract_meta_name_value(f, "debug"),
            is_phantom_data: is_phantom_data(&f.ty),
            generic_param: extract_generic_param(&f.ty),
        };
        helpers.push(helper);
        i = i + 1;
    }
    helpers
}

/// Whether parameter `p` occurs in field `f` at a place that demands the
/// formatting capability: as the field's declared type, or as the inner type
/// of a field that is not a marker placeholder.
pub open spec fn field_appears(f: FieldDescriptor, p: Seq<char>) -> bool {
    ||| f.ty.text@ == p
    ||| (!(spec_classify(f.ty) is MarkerPlaceholder) && match spec_inner(f.ty) {
        Some(t) => t.text@ == p,
        None => false,
    })
}

/// Whether field `f` exempts parameter `p`: its declared type is exactly `p`
/// and it is classified as a marker placeholder.
pub open spec fn field_overrides(f: FieldDescriptor, p: Seq<char>) -> bool {
    f.ty.text@ == p && spec_classify(f.ty) is MarkerPlaceholder
}

/// Whether a generic parameter requires the formatting capability bound.
pub open spec fn shape_requires_bound(fields: Seq<FieldDescriptor>, p: Seq<char>) -> bool {
    &&& exists|i: int| 0 <= i < fields.len() && field_appears(#[trigger] fields[i], p)
    &&& !(exists|i: int| 0 <= i < fields.len() && field_overrides(#[trigger] fields[i], p))
}

/// `field_appears`, over a field helper.
pub open spec fn helper_appears(h: DebugMacroFieldHelper, p: Seq<char>) -> bool {
    ||| h.field_type.text@ == p
    ||| (!h.is_phantom_data && match h.generic_param {
        Some(t) => t.text@ == p,
        None => false,
    })
}

/// `field_overrides`, over a field helper.
pub open spec fn helper_overrides(h: DebugMacroFieldHelper, p: Seq<char>) -> bool {
    h.field_type.text@ == p && h.is_phantom_data
}

/// `shape_requires_bound`, over field helpers.
pub open spec fn spec_requires_bound(hs: Seq<DebugMacroFieldHelper>, p: Seq<char>) -> bool {
    &&& exists|i: int| 0 <= i < hs.len() && helper_appears(#[trigger] hs[i], p)
    &&& !(exists|i: int| 0 <= i < hs.len() && helper_overrides(#[trigger] hs[i], p))
}

/// The generic parameters that require the bound, in declaration order.
pub open spec fn spec_bound_params(gs: Seq<String>, hs: Seq<DebugMacroFieldHelper>) -> Seq<
    Seq<char>,
>
    decreases gs.len(),
{
    if gs.len() == 0 {
        Seq::empty()
    } else {
        spec_bound_params(gs.drop_last(), hs) + (if spec_requires_bound(hs, gs.last()@) {
            seq![gs.last()@]
        } else {
            Seq::empty()
        })
    }
}

/// Whether some helper makes `p` appear at a bound-demanding place.
fn appears_in(hs: &Vec<DebugMacroFieldHelper>, p: &String) -> (r: bool)
    ensures
        r == (exists|i: int| 0 <= i < hs@.len() && helper_appears(#[trigger] hs@[i], p@)),
{
    let mut i: usize = 0;
    while i < hs.len()
        invariant
            i <= hs@.len(),
            forall|k: int| 0 <= k < i ==> !helper_appears(#[trigger] hs@[k], p@),
        decreases hs@.len() - i,
    {
        let h = &hs[i];
        if h.field_type.text == *p {
            return true;
        }
        if !h.is_phantom_data {
            match &h.generic_param {
                Some(t) => {
                    if t.text == *p {
                        return true;
                    }
                },
                None => {},
            }
        }
        i = i + 1;
    }
    false
}

/// Whether some marker-placeholder field's declared type is exactly `p`.
fn overridden_in(hs: &Vec<DebugMacroFieldHelper>, p: &String) -> (r: bool)
    ensures
        r == (exists|i: int| 0 <= i < hs@.len() && helper_overrides(#[trigger] hs@[i], p@)),
{
    let mut i: usize = 0;
    while i < hs.len()
        invariant
            i <= hs@.len(),
            forall|k: int| 0 <= k < i ==> !helper_overrides(#[trigger] hs@[k], p@),
        decreases hs@.len() - i,
    {
        let h = &hs[i];
        if h.is_phantom_data && h.field_type.text == *p {
            return true;
        }
        i = i + 1;
    }
    false
}

impl DebugMacroHelper {
    /// Builds the formatting generator's working data for one shape.
    /// Construction always succeeds: classification has no error path.
    pub fn new(shape: &ShapeDescription) -> (r: DebugMacroHelper)
        ensures
            debug_helper_matches(r, *shape),
    {
        let generic_types = extract_generic_types(shape);
        let field_helpers = init_field_helpers(shape);
        DebugMacroHelper { generic_types, field_helpers }
    }

    /// The generic parameters that need the formatting capability bound: a
    /// parameter qualifies exactly when it appears as a field's declared
    /// type or as the inner type of a non-placeholder field, and no
    /// marker-placeholder field carries it as its whole declared type.  A
    /// parameter used only inside marker placeholders is exempt.
    pub fn non_debug_types(&self) -> (r: Vec<String>)
        ensures
            views_of(r@) == spec_bound_params(self.generic_types@, self.field_helpers@),
    {
        let mut out: Vec<String> = Vec::new();
        let n = self.generic_types.len();
        let mut i: usize = 0;
        proof {
            assert(self.generic_types@.subrange(0, 0) =~= Seq::<String>::empty());
            assert(views_of(out@) =~= spec_bound_params(
                self.generic_types@.subrange(0, 0),
                self.field_helpers@,
            ));
        }
        while i < n
            invariant
                n == self.generic_types@.len(),
                i <= n,
                views_of(out@) == spec_bound_params(
                    self.generic_types@.subrange(0, i as int),
                    self.field_helpers@,
                ),
            decreases n - i,
        {
            let g = &self.generic_types[i];
            proof {
                let gs = self.generic_types@;
                assert(gs.subrange(0, i + 1 as int).drop_last() =~= gs.subrange(0, i as int));
                assert(gs.subrange(0, i + 1 as int).last() == gs[i as int]);
            }
            if appears_in(&self.field_helpers, g) && !overridden_in(&self.field_helpers, g) {
                out.push(g.clone());
                proof {
                    assert(views_of(out@) =~= spec_bound_params(
                        self.generic_types@.subrange(0, i as int),
                        self.field_helpers@,
                    ) + seq![self.generic_types@[i as int]@]);
                }
            } else {
                proof {
                    assert(views_of(out@) =~= spec_bound_params(
                        self.generic_types@.subrange(0, i as int),
                        self.field_helpers@,
                    ) + Seq::<Seq<char>>::empty());
                }
            }
            i = i + 1;
        }
        proof {
            assert(self.generic_types@.subrange(0, n as int) =~= self.generic_types@);
        }
        out
    }

    /// One where-clause predicate per parameter that needs the bound, in
    /// declaration order.
    pub fn to_required_debug_where_clause(&self) -> (r: Vec<String>)
        ensures
            r@.len() == spec_bound_params(self.generic_types@, self.field_helpers@).len(),
            forall|i: int|
                0 <= i < r@.len() ==> #[trigger] r@[i]@ == spec_bound_params(
                    self.generic_types@,
                    self.field_helpers@,
                )[i] + ": std::fmt::Debug"@,
    {
        let params = self.non_debug_types();
        let mut out: Vec<String> = Vec::new();
        let n = params.len();
        let mut i: usize = 0;
        while i < n
            invariant
                n == params@.len(),
                views_of(params@) == spec_bound_params(
                    self.generic_types@,
                    self.field_helpers@,
                ),
                i <= n,
                out@.len() == i,
                forall|k: int|
                    0 <= k < i ==> #[trigger] out@[k]@ == spec_bound_params(
                        self.generic_types@,
                        self.field_helpers@,
                    )[k] + ": std::fmt::Debug"@,
            decreases n - i,
        {
            let mut s = params[i].clone();
            s.append(": std::fmt::Debug");
            proof {
                assert(views_of(params@)[i as int] == params@[i as int]@);
            }
            out.push(s);
            i = i + 1;
        }
        out
    }
}

/// The text of one formatting directive: the field's name as its label and
/// its format template, applied to the field's value.
pub open spec fn dir_text(name: Seq<char>, template: Seq<char>) -> Seq<char> {
    "            .field(\""@ + name + "\", &format_args!(\""@ + template + "\", self."@ + name
        + "))\n"@
}

/// The format template a field helper renders with: its custom `debug`
/// template if one is present, the default generic-rendering template
/// otherwise.
pub open spec fn helper_template(h: DebugMacroFieldHelper) -> Seq<char> {
    match h.debug_format {
        Some(s) => s@,
        None => "{:?}"@,
    }
}

impl DebugMacroFieldHelper {
    /// Renders the field's formatting directive.  A custom template from a
    /// `debug` annotation is used verbatim; otherwise the default template
    /// is used.
    pub fn to_debug_inner_form(&self) -> (r: String)
        ensures
            r@ == dir_text(self.field_ident@, helper_template(*self)),
    {
        let mut s = String::from_str("            .field(\"");
        s.append(self.field_ident.as_str());
        s.append("\", &format_args!(\"");
        match &self.debug_format {
            Some(t) => {
                s.append(t.as_str());
            },
            None => {
                s.append("{:?}");
            },
        }
        s.append("\", self.");
        s.append(self.field_ident.as_str());
        s.append("))\n");
        proof {
            assert(s@ =~= dir_text(self.field_ident@, helper_template(*self)));
        }
        s
    }
}

/// The format template a field renders with.
pub open spec fn field_template(f: FieldDescriptor) -> Seq<char> {
    match spec_meta_value(f.attrs@, "debug"@) {
        Some(t) => t,
        None => "{:?}"@,
    }
}

/// The formatting directive pieces of a shape's fields, in declaration
/// order.
pub open spec fn shape_dir_pieces(fields: Seq<FieldDescriptor>) -> Seq<Seq<char>> {
    fields.map_values(|f: FieldDescriptor| dir_text(f.name@, field_template(f)))
}

/// The generic parameter list pieces, each with a trailing separator.
pub open spec fn shape_generic_pieces(gs: Seq<String>) -> Seq<Seq<char>> {
    gs.map_values(|g: String| g@ + ", "@)
}

/// The pre-existing where-clause predicate pieces, threaded through
/// verbatim, each with a trailing separator.
pub open spec fn shape_where_pred_pieces(ws: Seq<String>) -> Seq<Seq<char>> {
    ws.map_values(|w: String| w@ + ", "@)
}

/// The inferred where-clause pieces: one per generic parameter that
/// requires the bound, nothing for an exempt parameter.
pub open spec fn shape_bound_pieces(gs: Seq<String>, fields: Seq<FieldDescriptor>) -> Seq<
    Seq<char>,
> {
    gs.map_values(
        |g: String|
            if shape_requires_bound(fields, g@) {
                g@ + ": std::fmt::Debug, "@
            } else {
                Seq::<char>::empty()
            },
    )
}

/// The head of the emitted implementation, up to and including the opening
/// of its body: for a record without generic parameters no where clause is
/// emitted at all; otherwise the parameter list is repeated on both sides
/// and the where clause holds the pre-existing predicates followed by the
/// inferred ones.
pub open spec fn debug_prefix_text(s: ShapeDescription) -> Seq<char> {
    if s.generics@.len() == 0 {
        "impl std::fmt::Debug for "@ + s.name@ + " {\n"@
    } else {
        "impl<"@ + concat_texts(shape_generic_pieces(s.generics@)) + "> std::fmt::Debug for "@
            + s.name@ + "<"@ + concat_texts(shape_generic_pieces(s.generics@)) + "> where "@
            + concat_texts(shape_where_pred_pieces(s.where_predicates@)) + concat_texts(
            shape_bound_pieces(s.generics@, s.fields@),
        ) + "{\n"@
    }
}

/// The fixed opening of the formatting method's body.
pub open spec fn fmt_body_head() -> Seq<char> {
    "    fn fmt(&self, f: &mut std::fmt::Formatter<'_>) -> std::result::Result<(), std::fmt::Error> {\n        f.debug_struct(\"Field\")\n"@
}

/// The fixed closing of the formatting method's body.
pub open spec fn fmt_body_tail() -> Seq<char> {
    "            .finish()\n    }\n}\n"@
}

/// The one fragment the formatting generator emits for a shape.
pub open spec fn debug_fragment_text(s: ShapeDescription) -> Seq<char> {
    debug_prefix_text(s) + fmt_body_head() + concat_texts(shape_dir_pieces(s.fields@))
        + fmt_body_tail()
}

/// Helper-level and shape-level bound inference agree.
proof fn lemma_bound_equiv(s: ShapeDescription, h: DebugMacroHelper, p: Seq<char>)
    requires
        debug_helper_matches(h, s),
    ensures
        spec_requires_bound(h.field_helpers@, p) == shape_requires_bound(s.fields@, p),
{
    let hs = h.field_helpers@;
    let fs = s.fields@;
    assert forall|i: int| 0 <= i < fs.len() implies (helper_appears(#[trigger] hs[i], p)
        == field_appears(fs[i], p) && helper_overrides(hs[i], p) == field_overrides(
        fs[i],
        p,
    )) by {
        assert(dhelper_matches(hs[i], fs[i]));
    }
    if exists|i: int| 0 <= i < hs.len() && helper_appears(#[trigger] hs[i], p) {
        let i = choose|i: int| 0 <= i < hs.len() && helper_appears(#[trigger] hs[i], p);
        assert(field_appears(fs[i], p));
    }
    if exists|i: int| 0 <= i < fs.len() && field_appears(#[trigger] fs[i], p) {
        let i = choose|i: int| 0 <= i < fs.len() && field_appears(#[trigger] fs[i], p);
        assert(helper_appears(hs[i], p));
    }
    if exists|i: int| 0 <= i < hs.len() && helper_overrides(#[trigger] hs[i], p) {
        let i = choose|i: int| 0 <= i < hs.len() && helper_overrides(#[trigger] hs[i], p);
        assert(field_overrides(fs[i], p));
    }
    if exists|i: int| 0 <= i < fs.len() && field_overrides(#[trigger] fs[i], p) {
        let i = choose|i: int| 0 <= i < fs.len() && field_overrides(#[trigger] fs[i], p);
        assert(helper_overrides(hs[i], p));
    }
}

/// Generates the structural formatting implementation for one record shape,
/// as a single text fragment.  Pre-existing where-clause predicates are
/// threaded through unchanged and the inferred capability bounds are
/// appended; a record without generic parameters gets no where clause.
/// Generation never fails: classification has no error path and malformed
/// `debug` annotations are ignored.
pub fn derive(shape: &ShapeDescription) -> (r: Vec<String>)
    ensures
        r@.len() == 1,
        r@[0]@ == debug_fragment_text(*shape),
{
    let helper = DebugMacroHelper::new(shape);
    let nf = helper.field_helpers.len();
    let ng = shape.generics.len();

    let mut frag: String;
    if ng == 0 {
        frag = String::from_str("impl std::fmt::Debug for ");
        frag.append(shape.name.as_str());
        frag.append(" {\n");
    } else {
        let mut gstr = String::new();
        let mut i: usize = 0;
        while i < ng
            invariant
                ng == shape.generics@.len(),
                i <= ng,
                gstr@ == concat_texts(shape_generic_pieces(shape.generics@).subrange(0, i as int)),
            decreases ng - i,
        {
            let mut piece = shape.generics[i].clone();
            piece.append(", ");
            gstr.append(piece.as_str());
            proof {
                let ps = shape_generic_pieces(shape.generics@);
                assert(ps.subrange(0, i + 1 as int).drop_last() =~= ps.subrange(0, i as int));
                assert(ps.subrange(0, i + 1 as int).last() == ps[i as int]);
            }
            i = i + 1;
        }
        proof {
            assert(shape_generic_pieces(shape.generics@).subrange(0, ng as int)
                =~= shape_generic_pieces(shape.generics@));
        }
        frag = String::from_str("impl<");
        frag.append(gstr.as_str());
        frag.append("> std::fmt::Debug for ");
        frag.append(shape.name.as_str());
        frag.append("<");
        frag.append(gstr.as_str());
        frag.append("> where ");
        let ghost base = "impl<"@ + concat_texts(shape_generic_pieces(shape.generics@))
            + "> std::fmt::Debug for "@ + shape.name@ + "<"@ + concat_texts(
            shape_generic_pieces(shape.generics@),
        ) + "> where "@;
        proof {
            assert(frag@ =~= base + concat_texts(
                shape_where_pred_pieces(shape.where_predicates@).subrange(0, 0),
            ));
        }
        let nw = shape.where_predicates.len();
        let mut i: usize = 0;
        while i < nw
            invariant
                nw == shape.where_predicates@.len(),
                i <= nw,
                frag@ == base + concat_texts(
                    shape_where_pred_pieces(shape.where_predicates@).subrange(0, i as int),
                ),
            decreases nw - i,
        {
            let mut piece = shape.where_predicates[i].clone();
            piece.append(", ");
            frag.append(piece.as_str());
            proof {
                let ps = shape_where_pred_pieces(shape.where_predicates@);
                assert(ps.subrange(0, i + 1 as int).drop_last() =~= ps.subrange(0, i as int));
                assert(ps.subrange(0, i + 1 as int).last() == ps[i as int]);
            }
            i = i + 1;
        }
        let ghost base2 = base + concat_texts(shape_where_pred_pieces(shape.where_predicates@));
        proof {
            assert(shape_where_pred_pieces(shape.where_predicates@).subrange(0, nw as int)
                =~= shape_where_pred_pieces(shape.where_predicates@));
            assert(frag@ =~= base2 + concat_texts(
                shape_bound_pieces(shape.generics@, shape.fields@).subrange(0, 0),
            ));
        }
        let mut i: usize = 0;
        while i < ng
            invariant
                ng == shape.generics@.len(),
                i <= ng,
                debug_helper_matches(helper, *shape),
                frag@ == base2 + concat_texts(
                    shape_bound_pieces(shape.generics@, shape.fields@).subrange(0, i as int),
                ),
            decreases ng - i,
        {
            let g = &shape.generics[i];
            proof {
                let ps = shape_bound_pieces(shape.generics@, shape.fields@);
                assert(ps.subrange(0, i + 1 as int).drop_last() =~= ps.subrange(0, i as int));
                assert(ps.subrange(0, i + 1 as int).last() == ps[i as int]);
                lemma_bound_equiv(*shape, helper, g@);
            }
            if appears_in(&helper.field_helpers, g) && !overridden_in(&helper.field_helpers, g) {
                let mut piece = g.clone();
                piece.append(": std::fmt::Debug, ");
                frag.append(piece.as_str());
            } else {
                proof {
                    assert(frag@ =~= base2 + concat_texts(
                        shape_bound_pieces(shape.generics@, shape.fields@).subrange(
                            0,
                            i + 1 as int,
                        ),
                    ));
                }
            }
            i = i + 1;
        }
        proof {
            assert(shape_bound_pieces(shape.generics@, shape.fields@).subrange(0, ng as int)
                =~= shape_bound_pieces(shape.generics@, shape.fields@));
        }
        frag.append("{\n");
        proof {
            assert(frag@ =~= debug_prefix_text(*shape));
        }
    }
    frag.append(
        "    fn fmt(&self, f: &mut std::fmt::Formatter<'_>) -> std::result::Result<(), std::fmt::Error> {\n        f.debug_struct(\"Field\")\n",
    );
    proof {
        assert(frag@ =~= debug_prefix_text(*shape) + fmt_body_head() + concat_texts(
            shape_dir_pieces(shape.fields@).subrange(0, 0),
        ));
    }
    let mut i: usize = 0;
    while i < nf
        invariant
            nf == shape.fields@.len(),
            i <= nf,
            debug_helper_matches(helper, *shape),
            frag@ == debug_prefix_text(*shape) + fmt_body_head() + concat_texts(
                shape_dir_pieces(shape.fields@).subrange(0, i as int),
            ),
        decreases nf - i,
    {
        proof {
            assert(dhelper_matches(helper.field_helpers@[i as int], shape.fields@[i as int]));
        }
        let piece = helper.field_helpers[i].to_debug_inner_form();
        frag.append(piece.as_str());
        proof {
            let ps = shape_dir_pieces(shape.fields@);
            assert(ps.subrange(0, i + 1 as int).drop_last() =~= ps.subrange(0, i as int));
            assert(ps.subrange(0, i + 1 as int).last() == ps[i as int]);
            let h = helper.field_helpers@[i as int];
            let f = shape.fields@[i as int];
            assert(helper_template(h) == field_template(f));
        }
        i = i + 1;
    }
    proof {
        assert(shape_dir_pieces(shape.fields@).subrange(0, nf as int) =~= shape_dir_pieces(
            shape.fields@,
        ));
    }
    frag.append("            .finish()\n    }\n}\n");
    let mut out: Vec<String> = Vec::new();
    out.push(frag);
    out
}

} // verus!
