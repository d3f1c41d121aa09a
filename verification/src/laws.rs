use vstd::prelude::*;
use crate::shape::{ShapeDescription, wf_shape};
use crate::classify::spec_classify;
use crate::attrs::spec_meta_value;
use crate::builder_gen::{
    field_each_name, field_each_requested, plan_matches, BuilderPlan,
};
use crate::debug_gen::{
    dir_text, field_appears, field_overrides, field_template, shape_bound_pieces,
    shape_dir_pieces, shape_requires_bound,
};
use crate::eval::{
    spec_append, spec_build_ok, spec_new_slots, spec_set, SVal,
};

verus! {

/// The state after setting, in field order, every field that the build step
/// requires: field `i` receives `vals[i]` through its whole-value setter;
/// passed-through fields are left untouched.  Only the first `k` fields
/// have been processed.
pub open spec fn spec_set_required(
    slots: Seq<Option<SVal>>,
    p: BuilderPlan,
    vals: Seq<SVal>,
    k: int,
) -> Seq<Option<SVal>>
    decreases k,
{
    if k <= 0 {
        slots
    } else {
        let prev = spec_set_required(slots, p, vals, k - 1);
        if p.fields@[k - 1].build.pass_through {
            prev
        } else {
            spec_set(prev, k - 1, vals[k - 1])
        }
    }
}

/// Effect of `spec_set_required`: each required field among the first `k`
/// holds its value, everything else is unchanged.
proof fn lemma_set_required_effect(slots: Seq<Option<SVal>>, p: BuilderPlan, vals: Seq<SVal>, k: int)
    requires
        0 <= k <= slots.len(),
        p.fields@.len() == slots.len(),
    ensures
        spec_set_required(slots, p, vals, k).len() == slots.len(),
        forall|i: int|
            0 <= i < slots.len() ==> #[trigger] spec_set_required(slots, p, vals, k)[i] == (if i
                < k && !p.fields@[i].build.pass_through {
                Some(vals[i])
            } else {
                slots[i]
            }),
    decreases k,
{
    if k > 0 {
        lemma_set_required_effect(slots, p, vals, k - 1);
    }
}

/// For a shape with no annotations and only plain or optional fields, the
/// emitted constructor starts every companion field absent; setting every
/// required field and then building succeeds, and the built record holds,
/// field for field, exactly the values that were set, while the optional
/// fields stay absent.
pub proof fn lemma_plain_build_round_trip(
    s: ShapeDescription,
    p: BuilderPlan,
    vals: Seq<SVal>,
)
    requires
        plan_matches(s, p),
        forall|i: int|
            0 <= i < s.fields@.len() ==> (spec_classify(#[trigger] s.fields@[i].ty) is Plain
                || spec_classify(s.fields@[i].ty) is Optional),
        forall|i: int| 0 <= i < s.fields@.len() ==> #[trigger] s.fields@[i].attrs@.len() == 0,
        vals.len() == s.fields@.len(),
    ensures
        forall|i: int| 0 <= i < s.fields@.len() ==> #[trigger] spec_new_slots(p)[i] is None,
        spec_build_ok(
            p,
            spec_set_required(spec_new_slots(p), p, vals, s.fields@.len() as int),
        ),
        forall|i: int|
            0 <= i < s.fields@.len() ==> #[trigger] spec_set_required(
                spec_new_slots(p),
                p,
                vals,
                s.fields@.len() as int,
            )[i] == (if spec_classify(s.fields@[i].ty) is Optional {
                None
            } else {
                Some(vals[i])
            }),
{
    let n = s.fields@.len() as int;
    assert forall|i: int| 0 <= i < n implies #[trigger] spec_new_slots(p)[i] is None by {
        assert(!(spec_classify(s.fields@[i].ty) is Sequence));
        assert(!p.fields@[i].init.seeded_empty);
    }
    lemma_set_required_effect(spec_new_slots(p), p, vals, n);
    assert forall|i: int| 0 <= i < n implies #[trigger] spec_set_required(
        spec_new_slots(p),
        p,
        vals,
        n,
    )[i] == (if spec_classify(s.fields@[i].ty) is Optional {
        None
    } else {
        Some(vals[i])
    }) by {
        assert(p.fields@[i].build.pass_through == (spec_classify(s.fields@[i].ty) is Optional));
    }
}

/// The state after `xs` successive per-element setter calls on slot `i`,
/// in call order.
pub open spec fn spec_append_all(slots: Seq<Option<SVal>>, i: int, xs: Seq<Seq<char>>) -> Seq<
    Option<SVal>,
>
    decreases xs.len(),
{
    if xs.len() == 0 {
        slots
    } else {
        spec_append(spec_append_all(slots, i, xs.drop_last()), i, xs.last())
    }
}

/// Effect of repeated appending on a present sequence slot: the elements
/// arrive in call order, and no other slot changes.
proof fn lemma_append_all_effect(slots: Seq<Option<SVal>>, i: int, xs: Seq<Seq<char>>)
    requires
        0 <= i < slots.len(),
        slots[i] matches Some(SVal::Many(m)),
    ensures
        spec_append_all(slots, i, xs) == slots.update(
            i,
            Some(SVal::Many((slots[i]->0)->Many_0 + xs)),
        ),
    decreases xs.len(),
{
    let m = (slots[i]->0)->Many_0;
    if xs.len() == 0 {
        assert(m + xs =~= m);
        assert(slots.update(i, Some(SVal::Many(m))) =~= slots);
    } else {
        lemma_append_all_effect(slots, i, xs.drop_last());
        let prev = spec_append_all(slots, i, xs.drop_last());
        assert(prev[i] == Some(SVal::Many(m + xs.drop_last())));
        assert((m + xs.drop_last()).push(xs.last()) =~= m + xs);
        assert(prev.update(i, Some(SVal::Many(m + xs))) =~= slots.update(
            i,
            Some(SVal::Many(m + xs)),
        ));
    }
}

/// For a sequence field whose `each` annotation names a setter other than
/// the field itself, both the whole-value setter and the per-element setter
/// exist; starting from the freshly constructed state, which already holds
/// a present-but-empty sequence, `N` per-element calls append exactly the
/// `N` given elements in call order, and the slot then satisfies the build
/// step's presence requirement.
pub proof fn lemma_each_appends_in_order(
    s: ShapeDescription,
    p: BuilderPlan,
    i: int,
    xs: Seq<Seq<char>>,
)
    requires
        plan_matches(s, p),
        0 <= i < s.fields@.len(),
        field_each_requested(s.fields@[i]),
        field_each_name(s.fields@[i]) != s.fields@[i].name@,
    ensures
        p.fields@[i].whole_setter is Some,
        p.fields@[i].each_setter is Some,
        spec_new_slots(p)[i] == Some(SVal::Many(Seq::<Seq<char>>::empty())),
        spec_append_all(spec_new_slots(p), i, xs)[i] == Some(SVal::Many(xs)),
        forall|k: int|
            0 <= k < s.fields@.len() && k != i ==> #[trigger] spec_append_all(
                spec_new_slots(p),
                i,
                xs,
            )[k] == spec_new_slots(p)[k],
        !p.fields@[i].build.pass_through && spec_append_all(spec_new_slots(p), i, xs)[i] is Some,
{
    assert(field_plan_holds(s, p, i));
    assert(spec_classify(s.fields@[i].ty) is Sequence);
    assert(p.fields@[i].init.seeded_empty);
    lemma_append_all_effect(spec_new_slots(p), i, xs);
    assert(Seq::<Seq<char>>::empty() + xs =~= xs);
}

/// A named restatement of one conjunct of `plan_matches`, so the laws can
/// point at one field's entry.
pub open spec fn field_plan_holds(s: ShapeDescription, p: BuilderPlan, i: int) -> bool {
    crate::builder_gen::field_plan_matches(p.fields@[i], s.fields@[i])
}

/// For a sequence field whose `each` annotation carries the field's own
/// name, exactly one setter with that name exists in the whole plan — the
/// per-element accumulator — and no whole-value setter for that field
/// exists at all.  The other fields must not configure a per-element setter
/// of the same name; two such fields would collide in the emitted code.
pub proof fn lemma_each_own_name_single_setter(s: ShapeDescription, p: BuilderPlan, i: int)
    requires
        plan_matches(s, p),
        wf_shape(s),
        0 <= i < s.fields@.len(),
        field_each_requested(s.fields@[i]),
        field_each_name(s.fields@[i]) == s.fields@[i].name@,
        forall|k: int|
            0 <= k < s.fields@.len() && k != i ==> !(field_each_requested(
                #[trigger] s.fields@[k],
            ) && field_each_name(s.fields@[k]) == s.fields@[i].name@),
    ensures
        p.fields@[i].whole_setter is None,
        p.fields@[i].each_setter matches Some(st) && st.method_name@ == s.fields@[i].name@
            && st.accumulate,
        forall|k: int|
            0 <= k < s.fields@.len() && k != i ==> ((#[trigger] p.fields@[k].whole_setter
                matches Some(st) ==> st.method_name@ != s.fields@[i].name@) && (
            p.fields@[k].each_setter matches Some(st) ==> st.method_name@
                != s.fields@[i].name@)),
{
    assert(field_plan_holds(s, p, i));
    assert forall|k: int| 0 <= k < s.fields@.len() && k != i implies ((
    #[trigger] p.fields@[k].whole_setter matches Some(st) ==> st.method_name@
        != s.fields@[i].name@) && (p.fields@[k].each_setter matches Some(st) ==> st.method_name@
        != s.fields@[i].name@)) by {
        assert(field_plan_holds(s, p, k));
        if k < i {
            assert(s.fields@[k].name@ != s.fields@[i].name@);
        } else {
            assert(s.fields@[i].name@ != s.fields@[k].name@);
        }
    }
}

/// A generic parameter that occurs only inside marker-placeholder fields is
/// exempt: no capability bound is inferred for it, and its inferred
/// where-clause piece is empty.
pub proof fn lemma_placeholder_exempt(s: ShapeDescription, g: int)
    requires
        0 <= g < s.generics@.len(),
        forall|i: int|
            0 <= i < s.fields@.len() ==> !field_appears(#[trigger] s.fields@[i], s.generics@[g]@),
    ensures
        !shape_requires_bound(s.fields@, s.generics@[g]@),
        shape_bound_pieces(s.generics@, s.fields@)[g] == Seq::<char>::empty(),
{
}

/// A generic parameter that appears in any non-placeholder position, and is
/// not carried whole by a marker-placeholder field, requires the capability
/// bound, and its where-clause piece names it.
pub proof fn lemma_used_param_bound(s: ShapeDescription, g: int, w: int)
    requires
        0 <= g < s.generics@.len(),
        0 <= w < s.fields@.len(),
        field_appears(s.fields@[w], s.generics@[g]@),
        forall|i: int|
            0 <= i < s.fields@.len() ==> !field_overrides(#[trigger] s.fields@[i], s.generics@[g]@),
    ensures
        shape_requires_bound(s.fields@, s.generics@[g]@),
        shape_bound_pieces(s.generics@, s.fields@)[g] == s.generics@[g]@ + ": std::fmt::Debug, "@,
{
}

/// A custom per-field format template passes through generation unchanged:
/// the emitted directive for the field carries the annotation's template
/// verbatim, so applying the template to a rendered value through the
/// directive gives the same text as applying the annotation's own template
/// directly.
pub proof fn lemma_template_round_trip(s: ShapeDescription, i: int, t: Seq<char>)
    requires
        0 <= i < s.fields@.len(),
        spec_meta_value(s.fields@[i].attrs@, "debug"@) == Some(t),
    ensures
        field_template(s.fields@[i]) == t,
        shape_dir_pieces(s.fields@)[i] == dir_text(s.fields@[i].name@, t),
        forall|v: Seq<char>|
            crate::eval::spec_apply_template(#[trigger] field_template(s.fields@[i]), v)
                == crate::eval::spec_apply_template(t, v),
{
}

} // verus!
