//! Properties of the derive that hold for every input.
use vstd::prelude::*;

use crate::derive::attrs::{
    category_attr, category_named, default_status, first_attr, lemma_first_attr_from,
    status_attr, status_named, transparent_attr, CategoryKind,
};
use crate::derive::error::{failure, ErrorKind, Failure};
use crate::derive::input::{Attr, Variant};
use crate::status::Status;
use crate::derive::plan::{
    resolve_status, StructPlan, arm_fits, enum_plan, first_failing_from, lemma_first_failing_from, struct_plan, variant_arm, ArmPlan,
};

verus! {

/// The words of the derive's attributes are told apart by their lengths and letters.
proof fn lemma_words_differ()
    ensures
        "unavailable"@.len() == 11 && "unavailable"@[0] == 'u' && "unavailable"@[2] == 'a',
        "interrupted"@.len() == 11 && "interrupted"@[0] == 'i',
        "busy"@.len() == 4,
        "incorrect"@.len() == 9 && "incorrect"@[0] == 'i',
        "forbidden"@.len() == 9 && "forbidden"@[0] == 'f',
        "unsupported"@.len() == 11 && "unsupported"@[0] == 'u' && "unsupported"@[2] == 's',
        "not_found"@.len() == 9 && "not_found"@[0] == 'n',
        "conflict"@.len() == 8,
        "fault"@.len() == 5,
        "temporary"@.len() == 9 && "temporary"@[0] == 't',
        "permanent"@.len() == 9 && "permanent"@[0] == 'p',
        "persistent"@.len() == 10,
{
    reveal_strlit("unavailable");
    reveal_strlit("interrupted");
    reveal_strlit("busy");
    reveal_strlit("incorrect");
    reveal_strlit("forbidden");
    reveal_strlit("unsupported");
    reveal_strlit("not_found");
    reveal_strlit("conflict");
    reveal_strlit("fault");
    reveal_strlit("temporary");
    reveal_strlit("permanent");
    reveal_strlit("persistent");
}

/// `#[category(w)]` names the category whose attribute word is `w`, and
/// `#[status(w)]` the status whose word is `w`.
pub proof fn law_attribute_words()
    ensures
        category_named("unavailable"@) == Some(CategoryKind::Unavailable),
        category_named("interrupted"@) == Some(CategoryKind::Interrupted),
        category_named("busy"@) == Some(CategoryKind::Busy),
        category_named("incorrect"@) == Some(CategoryKind::Incorrect),
        category_named("forbidden"@) == Some(CategoryKind::Forbidden),
        category_named("unsupported"@) == Some(CategoryKind::Unsupported),
        category_named("not_found"@) == Some(CategoryKind::NotFound),
        category_named("conflict"@) == Some(CategoryKind::Conflict),
        category_named("fault"@) == Some(CategoryKind::Fault),
        status_named("temporary"@) == Some(Status::Temporary),
        status_named("permanent"@) == Some(Status::Permanent),
        status_named("persistent"@) == Some(Status::Persistent),
{
    lemma_words_differ();
}

/// `unavailable` and `busy` default to `Temporary`; `interrupted` and
/// `not_found` have no default; every other category defaults to `Permanent`.
/// No category defaults to `Persistent`.
pub proof fn law_default_status(c: CategoryKind)
    ensures
        default_status(c) == Some(Status::Temporary) <==> (c == CategoryKind::Unavailable || c
            == CategoryKind::Busy),
        default_status(c) is None <==> (c == CategoryKind::Interrupted || c
            == CategoryKind::NotFound),
        default_status(c) != Some(Status::Persistent),
        default_status(c) is Some && default_status(c) != Some(Status::Temporary)
            ==> default_status(c) == Some(Status::Permanent),
{
}

/// The status of a category: its default, where it has one, and then any
/// `#[status(...)]` is an error pointing at that attribute; otherwise the status
/// that `#[status(...)]` names, whatever it is, or none without it.
pub proof fn law_resolve_status(c: CategoryKind, explicit: Option<(usize, Status)>, variant: Option<usize>)
    ensures
        default_status(c) is Some && explicit is None ==> resolve_status(c, explicit, variant)
            == Ok::<_, Failure>(default_status(c)),
        default_status(c) is Some ==> (explicit matches Some((i, _)) ==> resolve_status(
            c,
            explicit,
            variant,
        ) == Err::<Option<Status>, Failure>(failure(ErrorKind::StatusWithDefault, variant, Some(i)))),
        default_status(c) is None ==> (explicit matches Some((_, s)) ==> resolve_status(
            c,
            explicit,
            variant,
        ) == Ok::<_, Failure>(Some(s))),
        default_status(c) is None && explicit is None ==> resolve_status(c, explicit, variant)
            == Ok::<_, Failure>(None::<Status>),
{
}

/// The first `#[status(w)]` counts, wherever it stands among the attributes and
/// wherever `#[category(...)]` stands, alike on a struct and on any variant: it
/// gives the status that `w` names, with its index; no `#[status]` gives none.
pub proof fn law_status_attr(attrs: Seq<Attr>, variant: Option<usize>)
    requires
        attrs.len() <= usize::MAX,
    ensures
        first_attr(attrs, "status"@) is None ==> status_attr(attrs, variant) == Ok::<_, Failure>(
            None::<(usize, Status)>,
        ),
        match first_attr(attrs, "status"@) {
            Some(i) => match attrs[i].argument() {
                Ok(w) => match status_named(w) {
                    Some(s) => status_attr(attrs, variant) == Ok::<_, Failure>(
                        Some((i as usize, s)),
                    ),
                    None => status_attr(attrs, variant) is Err,
                },
                Err(_) => status_attr(attrs, variant) is Err,
            },
            None => true,
        },
        status_attr(attrs, variant) matches Ok(Some((i, s))) ==> {
            &&& first_attr(attrs, "status"@) == Some(i as int)
            &&& attrs[i as int].argument() matches Ok(w)
            &&& status_named(w) == Some(s)
        },
{
    lemma_first_attr_from(attrs, "status"@, 0);
}

/// The first `#[category(w)]` counts, wherever it stands among the attributes:
/// it gives the category that `w` names; no `#[category]` gives none.
pub proof fn law_category_attr(attrs: Seq<Attr>, variant: Option<usize>)
    requires
        attrs.len() <= usize::MAX,
    ensures
        first_attr(attrs, "category"@) is None ==> category_attr(attrs, variant) == Ok::<
            _,
            Failure,
        >(None::<CategoryKind>),
        match first_attr(attrs, "category"@) {
            Some(i) => match attrs[i].argument() {
                Ok(w) => match category_named(w) {
                    Some(k) => category_attr(attrs, variant) == Ok::<_, Failure>(Some(k)),
                    None => category_attr(attrs, variant) is Err,
                },
                Err(_) => category_attr(attrs, variant) is Err,
            },
            None => true,
        },
        category_attr(attrs, variant) matches Ok(Some(k)) ==> exists|i: int|
            #![trigger attrs[i]]
            {
                &&& first_attr(attrs, "category"@) == Some(i)
                &&& attrs[i].argument() matches Ok(w)
                &&& category_named(w) == Some(k)
            },
{
    lemma_first_attr_from(attrs, "category"@, 0);
    if let Some(i) = first_attr(attrs, "category"@) {
        assert(attrs[i] == attrs[i]);
    }
}

/// A struct whose `#[category(...)]` names `c`, whose `#[status(...)]` reading
/// is `explicit` and whose status resolves to `s` gets the category `c` and the
/// status `s`.
pub proof fn law_struct_accepted(
    attrs: Seq<Attr>,
    c: CategoryKind,
    explicit: Option<(usize, Status)>,
    s: Option<Status>,
)
    requires
        category_attr(attrs, None) == Ok::<_, Failure>(Some(c)),
        status_attr(attrs, None) == Ok::<_, Failure>(explicit),
        resolve_status(c, explicit, None) == Ok::<_, Failure>(s),
    ensures
        struct_plan(attrs) == Ok::<_, Failure>(StructPlan { category: c, status: s }),
{
}

/// A variant with `#[category(...)]` naming `c`, no `#[anomaly(...)]`, and a
/// status that resolves to `s` is accepted with the category `c` and the status
/// `s`, whatever its fields.
pub proof fn law_categorized_variant(
    v: Variant,
    index: usize,
    c: CategoryKind,
    explicit: Option<(usize, Status)>,
    s: Status,
)
    requires
        transparent_attr(v.attrs@, Some(index)) == Ok::<_, Failure>(None::<usize>),
        category_attr(v.attrs@, Some(index)) == Ok::<_, Failure>(Some(c)),
        status_attr(v.attrs@, Some(index)) == Ok::<_, Failure>(explicit),
        resolve_status(c, explicit, Some(index)) == Ok::<_, Failure>(Some(s)),
    ensures
        variant_arm(v, index) == Ok::<_, Failure>(ArmPlan::Fixed { category: c, status: s }),
{
}

/// A derived struct's status is its category's default where the category has
/// one; otherwise it is the status that `#[status(...)]` names, or, without that
/// attribute, no `HasStatus` is generated.
pub proof fn law_struct_status(attrs: Seq<Attr>)
    ensures
        struct_plan(attrs) matches Ok(p) ==> {
            &&& default_status(p.category) is Some ==> p.status == default_status(p.category)
            &&& default_status(p.category) is None ==> p.status == match status_attr(attrs, None) {
                Ok(Some((_, s))) => Some(s),
                _ => None,
            }
        },
{
}

/// `#[status(...)]` on a struct whose category has a default status is an error
/// pointing at that attribute.
pub proof fn law_struct_status_needs_no_default(attrs: Seq<Attr>)
    ensures
        match (category_attr(attrs, None), status_attr(attrs, None)) {
            (Ok(Some(c)), Ok(Some((i, _)))) => default_status(c) is Some ==> struct_plan(attrs)
                == Err::<crate::derive::plan::StructPlan, Failure>(
                failure(ErrorKind::StatusWithDefault, None, Some(i)),
            ),
            _ => true,
        },
{
}

/// A struct without `#[category(...)]` is refused.
pub proof fn law_struct_needs_category(attrs: Seq<Attr>)
    ensures
        category_attr(attrs, None) == Ok::<_, Failure>(None::<crate::derive::attrs::CategoryKind>)
            ==> struct_plan(attrs) == Err::<crate::derive::plan::StructPlan, Failure>(
            failure(ErrorKind::MissingCategory, None, None),
        ),
{
}

/// An accepted variant's arm is what its attributes ask for; a variant is
/// transparent exactly when it is accepted and carries `#[anomaly(transparent)]`.
pub proof fn law_variant_arm(v: Variant, index: usize)
    ensures
        variant_arm(v, index) matches Ok(arm) ==> arm_fits(v, index, arm),
        variant_arm(v, index) matches Ok(ArmPlan::Transparent(_)) <==> {
            &&& variant_arm(v, index) is Ok
            &&& transparent_attr(v.attrs@, Some(index)) matches Ok(Some(_))
        },
{
}

/// What the derive makes of an enum: it is accepted exactly when every variant
/// is; then it has one arm per variant, each what that variant's attributes ask
/// for; otherwise the derive reports the error of the first refused variant.
pub proof fn law_enum_derive(variants: Seq<Variant>)
    requires
        variants.len() <= usize::MAX,
    ensures
        enum_plan(variants) is Ok <==> forall|i: int|
            #![trigger variants[i]]
            0 <= i < variants.len() ==> variant_arm(variants[i], i as usize) is Ok,
        enum_plan(variants) matches Ok(arms) ==> {
            &&& arms.len() == variants.len()
            &&& forall|i: int|
                #![trigger variants[i]]
                0 <= i < variants.len() ==> arm_fits(variants[i], i as usize, arms[i])
        },
        enum_plan(variants) matches Err(f) ==> exists|i: int|
            #![trigger variants[i]]
            {
                &&& 0 <= i < variants.len()
                &&& variant_arm(variants[i], i as usize) == Err::<ArmPlan, Failure>(f)
                &&& forall|j: int|
                    #![trigger variants[j]]
                    0 <= j < i ==> variant_arm(variants[j], j as usize) is Ok
            },
{
    law_enum_plan(variants);
    if enum_plan(variants) is Ok {
        let arms = enum_plan(variants)->Ok_0;
        assert forall|i: int| #![trigger variants[i]] 0 <= i < variants.len() implies arm_fits(
            variants[i],
            i as usize,
            arms[i],
        ) by {
            law_variant_arm(variants[i], i as usize);
        }
    }
}

/// On a variant with a category, `#[status(...)]` is refused where the category
/// has a default status, and required where it has none.
pub proof fn law_variant_status_rules(v: Variant, index: usize)
    ensures
        match (
            transparent_attr(v.attrs@, Some(index)),
            category_attr(v.attrs@, Some(index)),
            status_attr(v.attrs@, Some(index)),
        ) {
            (Ok(None), Ok(Some(c)), Ok(explicit)) => {
                &&& default_status(c) is Some ==> (explicit matches Some((i, _)) ==> variant_arm(
                    v,
                    index,
                ) == Err::<ArmPlan, Failure>(
                    failure(ErrorKind::StatusWithDefault, Some(index), Some(i)),
                ))
                &&& (default_status(c) is None && explicit is None) ==> variant_arm(v, index)
                    == Err::<ArmPlan, Failure>(failure(ErrorKind::MissingStatus, Some(index), None))
            },
            _ => true,
        },
{
}

/// `#[anomaly(transparent)]` together with `#[category(...)]` on a variant is an
/// error pointing at the `anomaly` attribute.
pub proof fn law_transparent_excludes_category(v: Variant, index: usize)
    ensures
        match (transparent_attr(v.attrs@, Some(index)), category_attr(v.attrs@, Some(index))) {
            (Ok(Some(t)), Ok(Some(_))) => variant_arm(v, index) == Err::<ArmPlan, Failure>(
                failure(ErrorKind::TransparentWithCategory, Some(index), Some(t)),
            ),
            _ => true,
        },
{
}

/// A derived enum has one arm per variant, each the arm of that variant, exactly
/// when every variant is accepted; otherwise the derive reports the error of the
/// first variant it refuses.
pub proof fn law_enum_plan(variants: Seq<Variant>)
    requires
        variants.len() <= usize::MAX,
    ensures
        enum_plan(variants) is Ok <==> forall|i: int|
            #![trigger variants[i]]
            0 <= i < variants.len() ==> variant_arm(variants[i], i as usize) is Ok,
        enum_plan(variants) matches Ok(arms) ==> {
            &&& arms.len() == variants.len()
            &&& forall|i: int|
                #![trigger variants[i]]
                0 <= i < variants.len() ==> variant_arm(variants[i], i as usize) == Ok::<
                    ArmPlan,
                    Failure,
                >(arms[i])
        },
        enum_plan(variants) matches Err(f) ==> exists|i: int|
            #![trigger variants[i]]
            {
                &&& 0 <= i < variants.len()
                &&& variant_arm(variants[i], i as usize) == Err::<ArmPlan, Failure>(f)
                &&& forall|j: int|
                    #![trigger variants[j]]
                    0 <= j < i ==> variant_arm(variants[j], j as usize) is Ok
            },
{
    lemma_first_failing_from(variants, 0);
    match first_failing_from(variants, 0) {
        Some(j) => {
            assert(variant_arm(variants[j], j as usize) is Err);
        },
        None => {
            assert forall|i: int| #![trigger variants[i]] 0 <= i < variants.len() implies variant_arm(
                variants[i],
                i as usize,
            ) is Ok by {
                assert(variant_arm(variants[i], i as usize) is Ok);
            }
        },
    }
}

/// Whether the derive reads the attribute `a`.
pub open spec fn read_by_derive(a: Attr) -> bool {
    a.has_path("category"@) || a.has_path("status"@) || a.has_path("anomaly"@)
}

/// The index that attribute `i` has after an attribute is inserted at `p`.
pub open spec fn shift_index(i: usize, p: int) -> usize {
    if i < p {
        i
    } else {
        (i + 1) as usize
    }
}

/// A failure whose attribute index is moved as by an insertion at `p`.
pub open spec fn shift_failure(f: Failure, p: int) -> Failure {
    Failure {
        kind: f.kind,
        variant: f.variant,
        attr: match f.attr {
            Some(i) => Some(shift_index(i, p)),
            None => None,
        },
        detail: f.detail,
    }
}

/// A result whose failure is moved as by an insertion at `p`.
pub open spec fn shift_result<T>(r: Result<T, Failure>, p: int) -> Result<T, Failure> {
    match r {
        Ok(t) => Ok(t),
        Err(f) => Err(shift_failure(f, p)),
    }
}

/// Inserting an attribute whose path is not `name` moves the first attribute
/// named `name` along with the attributes after the insertion.
pub proof fn lemma_first_attr_insert(attrs: Seq<Attr>, x: Attr, p: int, name: Seq<char>)
    requires
        0 <= p <= attrs.len(),
        !x.has_path(name),
    ensures
        first_attr(attrs.insert(p, x), name) == match first_attr(attrs, name) {
            Some(j) => Some(if j < p { j } else { j + 1 }),
            None => None::<int>,
        },
{
    let ins = attrs.insert(p, x);
    lemma_first_attr_from(attrs, name, 0);
    lemma_first_attr_from(ins, name, 0);
    assert forall|k: int| 0 <= k < ins.len() implies #[trigger] ins[k] == if k < p {
        attrs[k]
    } else if k == p {
        x
    } else {
        attrs[k - 1]
    } by {}
    match first_attr(attrs, name) {
        Some(j) => {
            let m = if j < p { j } else { j + 1 };
            assert(ins[m] == attrs[j]);
            match first_attr(ins, name) {
                Some(m2) => {
                    if m2 < m {
                        if m2 < p {
                            assert(ins[m2] == attrs[m2]);
                        } else if m2 == p {
                            assert(ins[m2] == x);
                        } else {
                            assert(ins[m2] == attrs[m2 - 1]);
                        }
                    } else if m2 > m {
                        assert(!ins[m].has_path(name));
                    }
                },
                None => {
                    assert(!ins[m].has_path(name));
                },
            }
        },
        None => {
            match first_attr(ins, name) {
                Some(m2) => {
                    if m2 < p {
                        assert(ins[m2] == attrs[m2]);
                    } else if m2 == p {
                        assert(ins[m2] == x);
                    } else {
                        assert(ins[m2] == attrs[m2 - 1]);
                    }
                },
                None => {},
            }
        },
    }
}

/// An attribute that the derive does not read, such as `thiserror`'s
/// `#[error(...)]`, changes nothing of what the derive makes of a struct, wherever
/// it stands among the attributes: only the indices of the attributes after it
/// move.
pub proof fn law_struct_ignores_foreign_attribute(attrs: Seq<Attr>, x: Attr, p: int)
    requires
        0 <= p <= attrs.len(),
        attrs.len() < usize::MAX,
        !read_by_derive(x),
    ensures
        struct_plan(attrs.insert(p, x)) == shift_result(struct_plan(attrs), p),
{
    let ins = attrs.insert(p, x);
    lemma_first_attr_insert(attrs, x, p, "category"@);
    lemma_first_attr_insert(attrs, x, p, "status"@);
    lemma_first_attr_from(attrs, "category"@, 0);
    lemma_first_attr_from(attrs, "status"@, 0);
    match first_attr(attrs, "category"@) {
        Some(j) => {
            let m = if j < p { j } else { j + 1 };
            assert(ins[m] == attrs[j]);
        },
        None => {},
    }
    match first_attr(attrs, "status"@) {
        Some(j) => {
            let m = if j < p { j } else { j + 1 };
            assert(ins[m] == attrs[j]);
        },
        None => {},
    }
}

/// An attribute that the derive does not read changes nothing of what the derive
/// makes of a variant, wherever it stands among the variant's attributes: only
/// the indices of the attributes after it move.
pub proof fn law_variant_ignores_foreign_attribute(
    v: Variant,
    w: Variant,
    x: Attr,
    p: int,
    index: usize,
)
    requires
        0 <= p <= v.attrs@.len(),
        v.attrs@.len() < usize::MAX,
        w.attrs@ == v.attrs@.insert(p, x),
        w.fields == v.fields,
        !read_by_derive(x),
    ensures
        variant_arm(w, index) == shift_result(variant_arm(v, index), p),
{
    let attrs = v.attrs@;
    let ins = attrs.insert(p, x);
    lemma_first_attr_insert(attrs, x, p, "category"@);
    lemma_first_attr_insert(attrs, x, p, "status"@);
    lemma_first_attr_insert(attrs, x, p, "anomaly"@);
    lemma_first_attr_from(attrs, "category"@, 0);
    lemma_first_attr_from(attrs, "status"@, 0);
    lemma_first_attr_from(attrs, "anomaly"@, 0);
    match first_attr(attrs, "category"@) {
        Some(j) => {
            let m = if j < p { j } else { j + 1 };
            assert(ins[m] == attrs[j]);
        },
        None => {},
    }
    match first_attr(attrs, "status"@) {
        Some(j) => {
            let m = if j < p { j } else { j + 1 };
            assert(ins[m] == attrs[j]);
        },
        None => {},
    }
    match first_attr(attrs, "anomaly"@) {
        Some(j) => {
            let m = if j < p { j } else { j + 1 };
            assert(ins[m] == attrs[j]);
        },
        None => {},
    }
}

} // verus!
