use vstd::prelude::*;
use crate::shape::{AnnotationEntry, FieldAttr, FieldDescriptor, SrcSpan};

verus! {

/// A malformed or unrecognized declarative annotation, reported with source
/// attribution so the caller can surface it as a generation-time diagnostic.
#[derive(Debug)]
pub struct AttributeError {
    /// Name of the field the offending annotation is attached to.
    pub field_name: String,
    /// Source span of the offending annotation.
    pub span: SrcSpan,
    /// Fixed diagnostic message naming the one accepted form.
    pub message: String,
}

/// The parsed annotations of one field under one namespace: a mapping from
/// annotation key to optional string value.  Later entries shadow earlier
/// ones with the same key.
#[derive(Debug)]
pub struct AnnotationMap {
    pub entries: Vec<AnnotationEntry>,
}

/// Lookup in an entry sequence; the last entry with a matching key wins.
pub open spec fn spec_lookup(s: Seq<AnnotationEntry>, key: Seq<char>) -> Option<Option<String>>
    decreases s.len(),
{
    if s.len() == 0 {
        None
    } else if s.last().key@ == key {
        Some(s.last().value)
    } else {
        spec_lookup(s.drop_last(), key)
    }
}

impl AnnotationMap {
    /// The empty annotation map.
    pub fn new() -> (r: AnnotationMap)
        ensures
            r.entries@ == Seq::<AnnotationEntry>::empty(),
    {
        AnnotationMap { entries: Vec::new() }
    }

    /// What this map associates with `key`: `None` if the key is absent,
    /// `Some(v)` if present with optional value `v`.
    pub open spec fn spec_get(&self, key: Seq<char>) -> Option<Option<String>> {
        spec_lookup(self.entries@, key)
    }

    /// Looks `key` up, handing back a copy of the stored optional value.
    pub fn get_value(&self, key: &str) -> (r: Option<Option<String>>)
        ensures
            r == self.spec_get(key@),
    {
        let ks = String::from_str(key);
        let mut i: usize = self.entries.len();
        proof {
            assert(self.entries@.subrange(0, self.entries@.len() as int) =~= self.entries@);
        }
        while i > 0
            invariant
                i <= self.entries@.len(),
                ks@ == key@,
                spec_lookup(self.entries@.subrange(0, i as int), key@) == spec_lookup(
                    self.entries@,
                    key@,
                ),
            decreases i,
        {
            i = i - 1;
            let e = &self.entries[i];
            proof {
                let pre = self.entries@.subrange(0, i + 1 as int);
                assert(pre.len() == i + 1);
                assert(pre.drop_last() =~= self.entries@.subrange(0, i as int));
                assert(pre.last() == self.entries@[i as int]);
            }
            if e.key == ks {
                let v = match &e.value {
                    Some(s) => Some(s.clone()),
                    None => None,
                };
                return Some(v);
            }
        }
        proof {
            assert(self.entries@.subrange(0, 0) =~= Seq::<AnnotationEntry>::empty());
        }
        None
    }
}

/// Strips one pair of surrounding double quotes from a literal token's text,
/// if both are there.
pub open spec fn spec_trim_quotes(s: Seq<char>) -> Seq<char> {
    if s.len() >= 2 && s[0] == '"' && s[s.len() - 1] == '"' {
        s.subrange(1, s.len() - 1)
    } else {
        s
    }
}

/// Strips the surrounding double quotes from a quoted literal's token text;
/// anything not quoted on both ends passes through unchanged.
pub fn trim_quotes(quoted_string: String) -> (r: String)
    ensures
        r@ == spec_trim_quotes(quoted_string@),
{
    let n = quoted_string.as_str().unicode_len();
    if n >= 2 && quoted_string.as_str().get_char(0) == '"' && quoted_string.as_str().get_char(
        n - 1,
    ) == '"' {
        String::from_str(quoted_string.as_str().substring_char(1, n - 1))
    } else {
        quoted_string
    }
}

/// The views of a vector of key strings.
pub open spec fn views_of(keys: Seq<String>) -> Seq<Seq<char>> {
    keys.map_values(|s: String| s@)
}

/// Whether `k` is one of the recognized annotation keys.
pub open spec fn key_recognized(k: Seq<char>, keys: Seq<Seq<char>>) -> bool {
    exists|i: int| 0 <= i < keys.len() && keys[i] == k
}

/// Whether `k` occurs in `keys`.
pub fn key_in(keys: &Vec<String>, k: &String) -> (r: bool)
    ensures
        r == key_recognized(k@, views_of(keys@)),
{
    let mut i: usize = 0;
    while i < keys.len()
        invariant
            i <= keys@.len(),
            forall|j: int| 0 <= j < i ==> views_of(keys@)[j] != k@,
        decreases keys@.len() - i,
    {
        if keys[i] == *k {
            proof {
                assert(views_of(keys@)[i as int] == keys@[i as int]@);
            }
            return true;
        }
        i = i + 1;
    }
    false
}

/// The entries an annotation contributes under namespace `ns`: a namespaced
/// list under `ns` contributes its entries, everything else contributes
/// nothing and is invisible to this layer.
pub open spec fn attr_entries(a: FieldAttr, ns: Seq<char>) -> Seq<AnnotationEntry> {
    match a {
        FieldAttr::List { namespace, entries, span } => if namespace@ == ns {
            entries@
        } else {
            Seq::empty()
        },
        _ => Seq::empty(),
    }
}

/// The source span of an annotation.
pub open spec fn attr_span(a: FieldAttr) -> SrcSpan {
    match a {
        FieldAttr::NameValue { key, value, span } => span,
        FieldAttr::List { namespace, entries, span } => span,
    }
}

/// Whether annotation `a` holds, under namespace `ns`, an entry whose key is
/// not recognized.
pub open spec fn attr_has_bad_entry(a: FieldAttr, ns: Seq<char>, keys: Seq<Seq<char>>) -> bool {
    exists|j: int|
        0 <= j < attr_entries(a, ns).len() && !key_recognized(attr_entries(a, ns)[j].key@, keys)
}

/// The span of the first annotation carrying an unrecognized key under
/// namespace `ns`, if any.
pub open spec fn spec_first_bad_span(attrs: Seq<FieldAttr>, ns: Seq<char>, keys: Seq<Seq<char>>) -> Option<
    SrcSpan,
>
    decreases attrs.len(),
{
    if attrs.len() == 0 {
        None
    } else if attr_has_bad_entry(attrs[0], ns, keys) {
        Some(attr_span(attrs[0]))
    } else {
        spec_first_bad_span(attrs.subrange(1, attrs.len() as int), ns, keys)
    }
}

/// All entries the annotations of a field contribute under namespace `ns`,
/// in source order.
pub open spec fn spec_collect(attrs: Seq<FieldAttr>, ns: Seq<char>) -> Seq<AnnotationEntry>
    decreases attrs.len(),
{
    if attrs.len() == 0 {
        Seq::empty()
    } else {
        spec_collect(attrs.drop_last(), ns) + attr_entries(attrs.last(), ns)
    }
}

/// The fixed diagnostic message for an unrecognized key: it names the one
/// accepted form of the namespace's annotations.
pub open spec fn spec_err_message(ns: Seq<char>, keys: Seq<Seq<char>>) -> Seq<char> {
    if keys.len() > 0 {
        "expected `"@ + ns + "("@ + keys[0] + " = \"...\")`"@
    } else {
        "expected `"@ + ns + "(...)`"@
    }
}

/// Builds the diagnostic message for an unrecognized key under `ns`.
fn err_message(ns: &str, keys: &Vec<String>) -> (r: String)
    ensures
        r@ == spec_err_message(ns@, views_of(keys@)),
{
    let mut m = String::from_str("expected `");
    m.append(ns);
    if keys.len() > 0 {
        m.append("(");
        m.append(keys[0].as_str());
        m.append(" = \"...\")`");
        proof {
            assert(views_of(keys@)[0] == keys@[0]@);
        }
    } else {
        m.append("(...)`");
    }
    m
}

/// Copies one annotation entry.
fn dup_entry(e: &AnnotationEntry) -> (r: AnnotationEntry)
    ensures
        r == *e,
{
    let value = match &e.value {
        Some(s) => Some(s.clone()),
        None => None,
    };
    AnnotationEntry { key: e.key.clone(), value }
}

/// Parses the declarative annotations of one field under the namespace
/// `target_ident`, keeping the entries whose keys are in `recognized_keys`.
///
/// Annotations under other namespaces, and field-level name/value
/// annotations, are invisible to this layer.  The first entry with an
/// unrecognized key ends parsing eagerly with an `AttributeError` attributed
/// to its annotation's span; a bare recognized key, or one whose value is not
/// a string literal, is recorded with an absent value and is not an error.
pub fn extract_field_attributes(
    field: &FieldDescriptor,
    target_ident: &str,
    recognized_keys: &Vec<String>,
) -> (r: Result<AnnotationMap, AttributeError>)
    ensures
        (r is Err) <==> (spec_first_bad_span(field.attrs@, target_ident@, views_of(recognized_keys@))
            is Some),
        r matches Err(e) ==> {
            &&& Some(e.span) == spec_first_bad_span(
                field.attrs@,
                target_ident@,
                views_of(recognized_keys@),
            )
            &&& e.field_name@ == field.name@
            &&& e.message@ == spec_err_message(target_ident@, views_of(recognized_keys@))
        },
        r matches Ok(m) ==> m.entries@ == spec_collect(field.attrs@, target_ident@),
{
    let target = String::from_str(target_ident);
    let n = field.attrs.len();
    let mut map = AnnotationMap::new();
    let mut i: usize = 0;
    proof {
        assert(field.attrs@.subrange(0, n as int) =~= field.attrs@);
        assert(field.attrs@.subrange(0, 0) =~= Seq::<FieldAttr>::empty());
    }
    while i < n
        invariant
            n == field.attrs@.len(),
            i <= n,
            target@ == target_ident@,
            spec_first_bad_span(field.attrs@, target_ident@, views_of(recognized_keys@))
                == spec_first_bad_span(
                field.attrs@.subrange(i as int, n as int),
                target_ident@,
                views_of(recognized_keys@),
            ),
            map.entries@ == spec_collect(field.attrs@.subrange(0, i as int), target_ident@),
        decreases n - i,
    {
        let ghost prefix = field.attrs@.subrange(0, i as int);
        let ghost rest = field.attrs@.subrange(i as int, n as int);
        let ghost cur = field.attrs@[i as int];
        match &field.attrs[i] {
            FieldAttr::List { namespace, entries, span } => {
                if *namespace == target {
                    proof {
                        assert(attr_entries(cur, target_ident@) == entries@);
                    }
                    let ok = scan_entries(entries, recognized_keys, &mut map);
                    if !ok {
                        proof {
                            let j = choose|j: int|
                                0 <= j < entries@.len() && !key_recognized(
                                    entries@[j].key@,
                                    views_of(recognized_keys@),
                                );
                            assert(0 <= j < attr_entries(cur, target_ident@).len()
                                && !key_recognized(
                                attr_entries(cur, target_ident@)[j].key@,
                                views_of(recognized_keys@),
                            ));
                            assert(attr_has_bad_entry(cur, target_ident@, views_of(recognized_keys@)));
                            assert(rest[0] == cur);
                            assert(spec_first_bad_span(rest, target_ident@, views_of(recognized_keys@))
                                == Some(attr_span(cur)));
                        }
                        return Err(
                            AttributeError {
                                field_name: field.name.clone(),
                                span: *span,
                                message: err_message(target_ident, recognized_keys),
                            },
                        );
                    }
                }
            },
            FieldAttr::NameValue { key, value, span } => {},
        }
        proof {
            assert(!attr_has_bad_entry(cur, target_ident@, views_of(recognized_keys@)));
            assert(rest[0] == cur);
            assert(rest.subrange(1, rest.len() as int) =~= field.attrs@.subrange(
                i + 1 as int,
                n as int,
            ));
            assert(field.attrs@.subrange(0, i + 1 as int).drop_last() =~= prefix);
            assert(field.attrs@.subrange(0, i + 1 as int).last() == cur);
            assert(map.entries@ =~= spec_collect(prefix, target_ident@) + attr_entries(
                cur,
                target_ident@,
            ));
        }
        i = i + 1;
    }
    proof {
        assert(field.attrs@.subrange(i as int, n as int).len() == 0);
    }
    Ok(map)
}

/// Scans the entries of one namespaced annotation, recording each recognized
/// key in `map` and stopping at the first unrecognized one.
fn scan_entries(entries: &Vec<AnnotationEntry>, recognized_keys: &Vec<String>, map: &mut AnnotationMap) -> (ok:
    bool)
    ensures
        ok == (forall|l: int|
            0 <= l < entries@.len() ==> key_recognized(entries@[l].key@, views_of(recognized_keys@))),
        ok ==> final(map).entries@ == old(map).entries@ + entries@,
{
    let m = entries.len();
    let mut j: usize = 0;
    proof {
        assert(entries@.subrange(0, 0) =~= Seq::<AnnotationEntry>::empty());
        assert(map.entries@ + entries@.subrange(0, 0) =~= map.entries@);
    }
    while j < m
        invariant
            m == entries@.len(),
            j <= m,
            forall|l: int| 0 <= l < j ==> key_recognized(entries@[l].key@, views_of(recognized_keys@)),
            map.entries@ == old(map).entries@ + entries@.subrange(0, j as int),
        decreases m - j,
    {
        let e = &entries[j];
        if key_in(recognized_keys, &e.key) {
            map.entries.push(dup_entry(e));
            proof {
                assert(entries@.subrange(0, j + 1 as int) =~= entries@.subrange(0, j as int).push(
                    entries@[j as int],
                ));
                assert(old(map).entries@ + entries@.subrange(0, j + 1 as int) =~= (old(
                    map,
                ).entries@ + entries@.subrange(0, j as int)).push(entries@[j as int]));
            }
        } else {
            return false;
        }
        j = j + 1;
    }
    proof {
        assert(entries@.subrange(0, m as int) =~= entries@);
    }
    true
}

/// The value of the first field-level `#[key = "value"]` annotation whose
/// key is `key`, with the literal's quotes stripped.
pub open spec fn spec_meta_value(attrs: Seq<FieldAttr>, key: Seq<char>) -> Option<Seq<char>>
    decreases attrs.len(),
{
    if attrs.len() == 0 {
        None
    } else {
        match attrs[0] {
            FieldAttr::NameValue { key: k, value: v, span } => if k@ == key {
                Some(spec_trim_quotes(v@))
            } else {
                spec_meta_value(attrs.subrange(1, attrs.len() as int), key)
            },
            _ => spec_meta_value(attrs.subrange(1, attrs.len() as int), key),
        }
    }
}

/// Finds the first field-level `#[ident = "value"]` annotation on `field`
/// and hands back its value with the quotes stripped.
pub fn extract_meta_name_value(field: &FieldDescriptor, ident: &str) -> (r: Option<String>)
    ensures
        (r is Some) <==> (spec_meta_value(field.attrs@, ident@) is Some),
        r matches Some(s) ==> Some(s@) == spec_meta_value(field.attrs@, ident@),
{
    let ident_s = String::from_str(ident);
    let n = field.attrs.len();
    let mut i: usize = 0;
    proof {
        assert(field.attrs@.subrange(0, n as int) =~= field.attrs@);
    }
    while i < n
        invariant
            n == field.attrs@.len(),
            i <= n,
            ident_s@ == ident@,
            spec_meta_value(field.attrs@, ident@) == spec_meta_value(
                field.attrs@.subrange(i as int, n as int),
                ident@,
            ),
        decreases n - i,
    {
        let ghost rest = field.attrs@.subrange(i as int, n as int);
        proof {
            assert(rest[0] == field.attrs@[i as int]);
            assert(rest.subrange(1, rest.len() as int) =~= field.attrs@.subrange(
                i + 1 as int,
                n as int,
            ));
        }
        match &field.attrs[i] {
            FieldAttr::NameValue { key, value, span } => {
                if *key == ident_s {
                    return Some(trim_quotes(value.clone()));
                }
            },
            FieldAttr::List { namespace, entries, span } => {},
        }
        i = i + 1;
    }
    proof {
        assert(field.attrs@.subrange(i as int, n as int).len() == 0);
    }
    None
}

} // verus!
