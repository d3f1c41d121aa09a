use vstd::prelude::*;
use crate::builder_gen::BuilderPlan;

verus! {

/// A runtime value stored in one builder slot, in the model that gives the
/// emitted builder code its meaning: a single opaque value, or a sequence of
/// them.
#[derive(Debug)]
pub enum SlotValue {
    One(String),
    Many(Vec<String>),
}

/// The state of a builder companion value: one optional slot per field, in
/// field order.
pub struct BuilderState {
    pub slots: Vec<Option<SlotValue>>,
}

/// The mathematical value of a slot payload.
pub enum SVal {
    One(Seq<char>),
    Many(Seq<Seq<char>>),
}

/// The view of a slot payload.
pub open spec fn val_view(v: SlotValue) -> SVal {
    match v {
        SlotValue::One(s) => SVal::One(s@),
        SlotValue::Many(vs) => SVal::Many(vs@.map_values(|s: String| s@)),
    }
}

/// The view of one slot.
pub open spec fn slot_view(s: Option<SlotValue>) -> Option<SVal> {
    match s {
        Some(v) => Some(val_view(v)),
        None => None,
    }
}

/// The view of a builder state: its slots as mathematical values.
pub open spec fn state_view(s: BuilderState) -> Seq<Option<SVal>> {
    s.slots@.map_values(|o: Option<SlotValue>| slot_view(o))
}

/// The slots the emitted constructor produces: every field starts absent,
/// except sequence fields, which start present but empty.
pub open spec fn spec_new_slots(p: BuilderPlan) -> Seq<Option<SVal>> {
    Seq::new(
        p.fields@.len(),
        |i: int|
            if p.fields@[i].init.seeded_empty {
                Some(SVal::Many(Seq::<Seq<char>>::empty()))
            } else {
                None
            },
    )
}

/// What one whole-value setter call does: it stores its argument, present.
pub open spec fn spec_set(slots: Seq<Option<SVal>>, i: int, v: SVal) -> Seq<Option<SVal>> {
    slots.update(i, Some(v))
}

/// What one per-element setter call does: it appends its argument to the
/// already-present sequence slot, and changes nothing else.
pub open spec fn spec_append(slots: Seq<Option<SVal>>, i: int, x: Seq<char>) -> Seq<Option<SVal>> {
    match slots[i] {
        Some(SVal::Many(m)) => slots.update(i, Some(SVal::Many(m.push(x)))),
        _ => slots,
    }
}

/// Whether the build step succeeds: every field that is not passed through
/// must be present.
pub open spec fn spec_build_ok(p: BuilderPlan, slots: Seq<Option<SVal>>) -> bool {
    forall|k: int|
        0 <= k < p.fields@.len() ==> (#[trigger] p.fields@[k].build.pass_through || slots[k]
            is Some)
}

/// Builds the constructor's companion state for a plan.
pub fn new_state(p: &BuilderPlan) -> (r: BuilderState)
    ensures
        state_view(r) == spec_new_slots(*p),
{
    let n = p.fields.len();
    let mut slots: Vec<Option<SlotValue>> = Vec::new();
    let mut i: usize = 0;
    while i < n
        invariant
            n == p.fields@.len(),
            i <= n,
            slots@.len() == i,
            forall|k: int| 0 <= k < i ==> slot_view(#[trigger] slots@[k]) == spec_new_slots(*p)[k],
        decreases n - i,
    {
        if p.fields[i].init.seeded_empty {
            let empty: Vec<String> = Vec::new();
            proof {
                assert(empty@.map_values(|s: String| s@) =~= Seq::<Seq<char>>::empty());
            }
            slots.push(Some(SlotValue::Many(empty)));
        } else {
            slots.push(None);
        }
        i = i + 1;
    }
    let r = BuilderState { slots };
    proof {
        assert(state_view(r) =~= spec_new_slots(*p));
    }
    r
}

/// Performs one whole-value setter call: stores `v` into slot `i`.
pub fn set_field(state: &mut BuilderState, i: usize, v: SlotValue)
    requires
        i < old(state).slots@.len(),
    ensures
        state_view(*final(state)) == spec_set(state_view(*old(state)), i as int, val_view(v)),
{
    let ghost pre = state_view(*old(state));
    state.slots.set(i, Some(v));
    proof {
        assert(state_view(*state) =~= spec_set(pre, i as int, val_view(v)));
    }
}

/// Performs one per-element setter call: appends `x` to the sequence in
/// slot `i`, which the constructor already seeded.
pub fn append_field(state: &mut BuilderState, i: usize, x: String)
    requires
        i < old(state).slots@.len(),
        slot_view(old(state).slots@[i as int]) matches Some(SVal::Many(m)),
    ensures
        state_view(*final(state)) == spec_append(state_view(*old(state)), i as int, x@),
{
    let ghost pre = state_view(*old(state));
    let slot = state.slots.remove(i);
    match slot {
        Some(SlotValue::Many(mut vs)) => {
            vs.push(x);
            state.slots.insert(i, Some(SlotValue::Many(vs)));
            proof {
                assert(state.slots@ =~= old(state).slots@.update(
                    i as int,
                    state.slots@[i as int],
                ));
                assert(val_view(state.slots@[i as int]->0) matches SVal::Many(m2) && (
                val_view(old(state).slots@[i as int]->0) matches SVal::Many(m1) && m2
                    =~= m1.push(x@)));
                assert(state_view(*state) =~= spec_append(pre, i as int, x@));
            }
        },
        _ => {
            proof {
                assert(false);
            }
        },
    }
}

/// A required field was never set before the build step.
#[derive(Debug)]
pub struct MissingFieldError {
    pub field_name: String,
}

/// Performs the build step on a companion state: every passed-through field
/// keeps its current value, absence included; the absence of any other
/// field is reported as a `MissingFieldError` naming the first missing
/// field.  The reported error is a descriptive value rather than a fault,
/// so a caller can surface which field was never set.
pub fn build_record(p: &BuilderPlan, state: BuilderState) -> (r: Result<
    Vec<Option<SlotValue>>,
    MissingFieldError,
>)
    requires
        state.slots@.len() == p.fields@.len(),
    ensures
        (r is Ok) <==> spec_build_ok(*p, state_view(state)),
        r matches Ok(rec) ==> rec == state.slots,
        r matches Err(e) ==> exists|k: int|
            {
                &&& 0 <= k < p.fields@.len()
                &&& !(#[trigger] p.fields@[k].build.pass_through)
                &&& state_view(state)[k] is None
                &&& e.field_name@ == p.fields@[k].build.name@
            },
{
    let n = p.fields.len();
    let mut i: usize = 0;
    while i < n
        invariant
            n == p.fields@.len(),
            n == state.slots@.len(),
            i <= n,
            forall|k: int|
                0 <= k < i ==> (#[trigger] p.fields@[k].build.pass_through || state_view(state)[k]
                    is Some),
        decreases n - i,
    {
        if !p.fields[i].build.pass_through {
            let present = match &state.slots[i] {
                Some(_) => true,
                None => false,
            };
            if !present {
                return Err(MissingFieldError { field_name: p.fields[i].build.name.clone() });
            }
        }
        i = i + 1;
    }
    Ok(state.slots)
}

/// The index of the first occurrence of `c` in `s` at or after `from`, or
/// the length of `s` if there is none.
pub open spec fn spec_find(s: Seq<char>, c: char, from: int) -> int
    recommends
        0 <= from <= s.len(),
    decreases s.len() - from,
{
    if from < 0 || from >= s.len() {
        s.len() as int
    } else if s[from] == c {
        from
    } else {
        spec_find(s, c, from + 1)
    }
}

/// Applying a format template to one rendered value: the first brace group
/// is replaced by the value's text; a template without a complete brace
/// group passes through unchanged.
pub open spec fn spec_apply_template(t: Seq<char>, v: Seq<char>) -> Seq<char> {
    let i = spec_find(t, '{', 0);
    if i == t.len() {
        t
    } else {
        let j = spec_find(t, '}', i + 1);
        if j == t.len() {
            t
        } else {
            t.subrange(0, i) + v + t.subrange(j + 1, t.len() as int)
        }
    }
}

/// Finds the first occurrence of `c` in `s` at or after `from`.
fn find_char(s: &str, c: char, from: usize) -> (r: usize)
    requires
        from <= s@.len(),
    ensures
        r == spec_find(s@, c, from as int),
        from <= r <= s@.len(),
{
    let n = s.unicode_len();
    let mut i: usize = from;
    while i < n
        invariant
            n == s@.len(),
            from <= i <= n,
            spec_find(s@, c, from as int) == spec_find(s@, c, i as int),
        decreases n - i,
    {
        if s.get_char(i) == c {
            return i;
        }
        i = i + 1;
    }
    i
}

/// Applies a format template to one rendered value, replacing the first
/// brace group with the value's text.
pub fn apply_template(template: &str, value: &str) -> (r: String)
    ensures
        r@ == spec_apply_template(template@, value@),
{
    let n = template.unicode_len();
    let i = find_char(template, '{', 0);
    if i == n {
        return String::from_str(template);
    }
    let j = find_char(template, '}', i + 1);
    if j == n {
        return String::from_str(template);
    }
    let mut s = String::from_str(template.substring_char(0, i));
    s.append(value);
    s.append(template.substring_char(j + 1, n));
    proof {
        assert(s@ =~= spec_apply_template(template@, value@));
    }
    s
}

} // verus!
