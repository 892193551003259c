//! From the shape of a type to what its derived implementations return.
use vstd::prelude::*;

use crate::category::Category;
use crate::derive::attrs::{
    category_attr, default_status, parse_category_attrs, parse_status_attrs,
    parse_transparent_attr, status_attr, transparent_attr, category_default_status, CategoryKind,
};
use crate::derive::error::{failure, view_result, DeriveError, ErrorKind, Failure};
use crate::derive::input::{Attr, Data, DeriveInput, Fields, Variant};
use crate::status::Status;

verus! {

/// What the derive generates for a struct: `HasCategory::category` returns the
/// constant of `category`; `HasStatus::status` returns `status`, or, when
/// `status` is `None`, no `HasStatus` is generated and the type implements it by
/// hand.
#[derive(Debug, Clone, Copy, PartialEq, Eq, Structural)]
pub struct StructPlan {
    pub category: CategoryKind,
    pub status: Option<Status>,
}

/// How a transparent variant binds its one field: `Self::V(inner)` or
/// `Self::V { field }`.
#[derive(Debug, Clone, Copy, PartialEq, Eq, Structural)]
pub enum Binding {
    Positional,
    Named,
}

/// What the derived implementations return for one variant of an enum.
#[derive(Debug, Clone, Copy, PartialEq, Eq, Structural)]
pub enum ArmPlan {
    /// The constant of `category`, and `status`.
    Fixed { category: CategoryKind, status: Status },
    /// The category and status of the variant's one field.
    Transparent(Binding),
}

/// How a fixed arm matches its variant without binding the fields:
/// `Self::V`, `Self::V(..)` or `Self::V { .. }`.
#[derive(Debug, Clone, Copy, PartialEq, Eq, Structural)]
pub enum Pattern {
    Unit,
    Tuple,
    Braced,
}

/// What the derive generates for a type.
pub enum Plan {
    Struct(StructPlan),
    /// One arm per variant, in the order of the variants.
    Enum(Vec<ArmPlan>),
}

impl StructPlan {
    /// The category that the generated `HasCategory::category` returns.
    pub fn category(&self) -> (c: Category)
        ensures
            c == self.category.spec_category(),
    {
        self.category.category()
    }
}

impl ArmPlan {
    /// The category that the generated `HasCategory::category` returns for this
    /// variant; `None` when it returns that of the wrapped value.
    pub fn category(&self) -> (c: Option<Category>)
        ensures
            match *self {
                ArmPlan::Fixed { category, .. } => c == Some(category.spec_category()),
                ArmPlan::Transparent(_) => c is None,
            },
    {
        match self {
            ArmPlan::Fixed { category, .. } => Some(category.category()),
            ArmPlan::Transparent(_) => None,
        }
    }

    /// The status that the generated `HasStatus::status` returns for this
    /// variant; `None` when it returns that of the wrapped value.
    pub fn status(&self) -> (s: Option<Status>)
        ensures
            match *self {
                ArmPlan::Fixed { status, .. } => s == Some(status),
                ArmPlan::Transparent(_) => s is None,
            },
    {
        match self {
            ArmPlan::Fixed { status, .. } => Some(*status),
            ArmPlan::Transparent(_) => None,
        }
    }
}

/// How a transparent variant with fields `fields` binds its field: it must have
/// exactly one.
pub open spec fn binding_of(fields: Fields, variant: usize) -> Result<Binding, Failure> {
    match fields {
        Fields::Unnamed(n) => if n == 1 {
            Ok(Binding::Positional)
        } else {
            Err(failure(ErrorKind::TransparentFieldCount, Some(variant), None))
        },
        Fields::Named(n) => if n == 1 {
            Ok(Binding::Named)
        } else {
            Err(failure(ErrorKind::TransparentFieldCount, Some(variant), None))
        },
        Fields::Unit => Err(failure(ErrorKind::TransparentFieldCount, Some(variant), None)),
    }
}

/// The status generated for `category` given the `#[status(...)]` found, if
/// any: the category's default, which admits no `#[status(...)]`; otherwise the
/// status the attribute names; otherwise none.
pub open spec fn resolve_status(
    category: CategoryKind,
    explicit: Option<(usize, Status)>,
    variant: Option<usize>,
) -> Result<Option<Status>, Failure> {
    match default_status(category) {
        Some(d) => match explicit {
            Some((i, _)) => Err(failure(ErrorKind::StatusWithDefault, variant, Some(i))),
            None => Ok(Some(d)),
        },
        None => match explicit {
            Some((_, s)) => Ok(Some(s)),
            None => Ok(None),
        },
    }
}

/// What the derive makes of a struct with attributes `attrs`.
pub open spec fn struct_plan(attrs: Seq<Attr>) -> Result<StructPlan, Failure> {
    match category_attr(attrs, None) {
        Err(f) => Err(f),
        Ok(None) => Err(failure(ErrorKind::MissingCategory, None, None)),
        Ok(Some(category)) => match status_attr(attrs, None) {
            Err(f) => Err(f),
            Ok(explicit) => match resolve_status(category, explicit, None) {
                Err(f) => Err(f),
                Ok(status) => Ok(StructPlan { category, status }),
            },
        },
    }
}

/// What the derive makes of the variant `v`, the `index`-th of its enum.
pub open spec fn variant_arm(v: Variant, index: usize) -> Result<ArmPlan, Failure> {
    let at = Some(index);
    match transparent_attr(v.attrs@, at) {
        Err(f) => Err(f),
        Ok(transparent) => match category_attr(v.attrs@, at) {
            Err(f) => Err(f),
            Ok(category) => match transparent {
                Some(t) => match category {
                    Some(_) => Err(failure(ErrorKind::TransparentWithCategory, at, Some(t))),
                    None => match status_attr(v.attrs@, at) {
                        Err(f) => Err(f),
                        Ok(Some((s, _))) => Err(
                            failure(ErrorKind::TransparentWithStatus, at, Some(s)),
                        ),
                        Ok(None) => match binding_of(v.fields, index) {
                            Err(f) => Err(f),
                            Ok(b) => Ok(ArmPlan::Transparent(b)),
                        },
                    },
                },
                None => match category {
                    Some(c) => match status_attr(v.attrs@, at) {
                        Err(f) => Err(f),
                        Ok(explicit) => match resolve_status(c, explicit, at) {
                            Err(f) => Err(f),
                            Ok(Some(s)) => Ok(ArmPlan::Fixed { category: c, status: s }),
                            Ok(None) => Err(failure(ErrorKind::MissingStatus, at, None)),
                        },
                    },
                    None => Err(failure(ErrorKind::MissingAnnotation, at, None)),
                },
            },
        },
    }
}

/// The plan `p` is what the attributes of a struct ask for: the category that
/// `#[category(...)]` names, and that category's default status, or, where it
/// has none, the status that `#[status(...)]` names, or none without it.
pub open spec fn struct_fits(attrs: Seq<Attr>, p: StructPlan) -> bool {
    &&& category_attr(attrs, None) == Ok::<_, Failure>(Some(p.category))
    &&& match default_status(p.category) {
        Some(d) => p.status == Some(d) && status_attr(attrs, None) == Ok::<_, Failure>(
            None::<(usize, Status)>,
        ),
        None => match status_attr(attrs, None) {
            Ok(Some((_, s))) => p.status == Some(s),
            Ok(None) => p.status is None,
            Err(_) => false,
        },
    }
}

/// The arm `arm` is what the attributes of `v`, the `index`-th variant, ask
/// for: a fixed arm carries the category that `#[category(...)]` names and the
/// default status of that category, or, where it has none, the status that
/// `#[status(...)]` names; a transparent arm comes from `#[anomaly(transparent)]`
/// alone, on a variant with exactly one field.
pub open spec fn arm_fits(v: Variant, index: usize, arm: ArmPlan) -> bool {
    let at = Some(index);
    match arm {
        ArmPlan::Fixed { category, status } => {
            &&& transparent_attr(v.attrs@, at) == Ok::<_, Failure>(None::<usize>)
            &&& category_attr(v.attrs@, at) == Ok::<_, Failure>(Some(category))
            &&& match default_status(category) {
                Some(d) => status == d && status_attr(v.attrs@, at) == Ok::<_, Failure>(
                    None::<(usize, Status)>,
                ),
                None => status_attr(v.attrs@, at) matches Ok(Some((_, s))) && s == status,
            }
        },
        ArmPlan::Transparent(b) => {
            &&& transparent_attr(v.attrs@, at) matches Ok(Some(_))
            &&& category_attr(v.attrs@, at) == Ok::<_, Failure>(
                None::<CategoryKind>,
            )
            &&& status_attr(v.attrs@, at) == Ok::<_, Failure>(
                None::<(usize, Status)>,
            )
            &&& binding_of(v.fields, index) == Ok::<_, Failure>(b)
        },
    }
}

/// The index of the first variant at or after `i` that the derive refuses.
pub open spec fn first_failing_from(variants: Seq<Variant>, i: int) -> Option<int>
    decreases variants.len() - i,
{
    if i < 0 || i >= variants.len() {
        None
    } else if variant_arm(variants[i], i as usize) is Err {
        Some(i)
    } else {
        first_failing_from(variants, i + 1)
    }
}

/// What the derive makes of an enum with variants `variants`: the error of the
/// first variant it refuses, or else the arm of each variant.
pub open spec fn enum_plan(variants: Seq<Variant>) -> Result<Seq<ArmPlan>, Failure> {
    match first_failing_from(variants, 0) {
        Some(i) => Err(variant_arm(variants[i], i as usize)->Err_0),
        None => Ok(Seq::new(variants.len(), |i: int| variant_arm(variants[i], i as usize)->Ok_0)),
    }
}

/// The search from `i` finds the first refused variant at or after `i`, and
/// finds none when every variant from `i` on is accepted.
pub proof fn lemma_first_failing_from(variants: Seq<Variant>, i: int)
    requires
        0 <= i,
    ensures
        match first_failing_from(variants, i) {
            Some(j) => {
                &&& i <= j < variants.len()
                &&& variant_arm(variants[j], j as usize) is Err
                &&& forall|k: int|
                    i <= k < j ==> #[trigger] variant_arm(variants[k], k as usize) is Ok
            },
            None => forall|k: int|
                i <= k < variants.len() ==> #[trigger] variant_arm(variants[k], k as usize) is Ok,
        },
    decreases variants.len() - i,
{
    if i < variants.len() && variant_arm(variants[i], i as usize) is Ok {
        lemma_first_failing_from(variants, i + 1);
    }
}

/// The pattern of a fixed arm for a variant with fields `fields`.
pub fn fixed_pattern(fields: &Fields) -> (p: Pattern)
    ensures
        p == match *fields {
            Fields::Unit => Pattern::Unit,
            Fields::Unnamed(_) => Pattern::Tuple,
            Fields::Named(_) => Pattern::Braced,
        },
{
    match fields {
        Fields::Unit => Pattern::Unit,
        Fields::Unnamed(_) => Pattern::Tuple,
        Fields::Named(_) => Pattern::Braced,
    }
}

/// How a transparent variant binds its field; errors point at the variant.
pub fn transparent_pattern(fields: &Fields, variant: usize) -> (r: Result<Binding, DeriveError>)
    ensures
        view_result(r) == binding_of(*fields, variant),
{
    match fields {
        Fields::Unnamed(n) => if *n == 1 {
            Ok(Binding::Positional)
        } else {
            Err(DeriveError::new(ErrorKind::TransparentFieldCount, Some(variant), None))
        },
        Fields::Named(n) => if *n == 1 {
            Ok(Binding::Named)
        } else {
            Err(DeriveError::new(ErrorKind::TransparentFieldCount, Some(variant), None))
        },
        Fields::Unit => Err(DeriveError::new(ErrorKind::TransparentFieldCount, Some(variant), None)),
    }
}

/// The status generated for `category` given the `#[status(...)]` found, if
/// any, as its index and the status it names.
pub fn resolve(category: CategoryKind, explicit: Option<(usize, Status)>, variant: Option<usize>) -> (r:
    Result<Option<Status>, DeriveError>)
    ensures
        view_result(r) == resolve_status(category, explicit, variant),
{
    match (category_default_status(&category), explicit) {
        (Some(_), Some((i, _))) => Err(DeriveError::new(ErrorKind::StatusWithDefault, variant, Some(i))),
        (Some(d), None) => Ok(Some(d)),
        (None, Some((_, s))) => Ok(Some(s)),
        (None, None) => Ok(None),
    }
}

/// What the derive makes of a struct with attributes `attrs`.
pub fn derive_struct(attrs: &Vec<Attr>) -> (r: Result<StructPlan, DeriveError>)
    ensures
        view_result(r) == struct_plan(attrs@),
        r matches Ok(p) ==> struct_fits(attrs@, p),
{
    let category = match parse_category_attrs(attrs, None) {
        Err(e) => return Err(e),
        Ok(None) => return Err(DeriveError::new(ErrorKind::MissingCategory, None, None)),
        Ok(Some(c)) => c,
    };
    let explicit = match parse_status_attrs(attrs, None) {
        Err(e) => return Err(e),
        Ok(s) => s,
    };
    match resolve(category, explicit, None) {
        Err(e) => Err(e),
        Ok(status) => Ok(StructPlan { category, status }),
    }
}

/// What the derive makes of the variant `v`, the `index`-th of its enum.
pub fn derive_variant(v: &Variant, index: usize) -> (r: Result<ArmPlan, DeriveError>)
    ensures
        view_result(r) == variant_arm(*v, index),
        r matches Ok(arm) ==> arm_fits(*v, index, arm),
{
    let at = Some(index);
    let transparent = match parse_transparent_attr(&v.attrs, at) {
        Err(e) => return Err(e),
        Ok(t) => t,
    };
    let category = match parse_category_attrs(&v.attrs, at) {
        Err(e) => return Err(e),
        Ok(c) => c,
    };
    match (transparent, category) {
        (Some(t), Some(_)) => Err(DeriveError::new(ErrorKind::TransparentWithCategory, at, Some(t))),
        (Some(_), None) => {
            match parse_status_attrs(&v.attrs, at) {
                Err(e) => return Err(e),
                Ok(Some((s, _))) => return Err(
                    DeriveError::new(ErrorKind::TransparentWithStatus, at, Some(s)),
                ),
                Ok(None) => {},
            }
            match transparent_pattern(&v.fields, index) {
                Err(e) => Err(e),
                Ok(b) => Ok(ArmPlan::Transparent(b)),
            }
        },
        (None, Some(c)) => {
            let explicit = match parse_status_attrs(&v.attrs, at) {
                Err(e) => return Err(e),
                Ok(s) => s,
            };
            match resolve(c, explicit, at) {
                Err(e) => Err(e),
                Ok(Some(s)) => Ok(ArmPlan::Fixed { category: c, status: s }),
                Ok(None) => Err(DeriveError::new(ErrorKind::MissingStatus, at, None)),
            }
        },
        (None, None) => Err(DeriveError::new(ErrorKind::MissingAnnotation, at, None)),
    }
}

/// What the derive makes of an enum with variants `variants`: the arm of each
/// variant, or the error of the first variant it refuses.
pub fn derive_enum(variants: &Vec<Variant>) -> (r: Result<Vec<ArmPlan>, DeriveError>)
    ensures
        match (r, enum_plan(variants@)) {
            (Ok(arms), Ok(s)) => arms@ == s,
            (Err(e), Err(f)) => e@ == f,
            _ => false,
        },
        r matches Ok(arms) ==> {
            &&& arms.len() == variants.len()
            &&& forall|i: int|
                #![trigger arms@[i]]
                0 <= i < arms.len() ==> arm_fits(variants@[i], i as usize, arms@[i])
        },
{
    let mut arms: Vec<ArmPlan> = Vec::new();
    let mut i: usize = 0;
    while i < variants.len()
        invariant
            i <= variants@.len(),
            first_failing_from(variants@, 0) == first_failing_from(variants@, i as int),
            arms@ =~= Seq::new(i as nat, |j: int| variant_arm(variants@[j], j as usize)->Ok_0),
            forall|j: int|
                #![trigger arms@[j]]
                0 <= j < i ==> arm_fits(variants@[j], j as usize, arms@[j]),
        decreases variants.len() - i,
    {
        match derive_variant(&variants[i], i) {
            Err(e) => {
                proof {
                    lemma_first_failing_from(variants@, 0);
                }
                return Err(e);
            },
            Ok(arm) => {
                arms.push(arm);
            },
        }
        i = i + 1;
    }
    proof {
        lemma_first_failing_from(variants@, 0);
    }
    Ok(arms)
}

/// What `#[derive(Anomaly)]` makes of `input`: a struct takes its category and
/// status from its own attributes, an enum from those of each variant, and a
/// union is refused.
pub fn derive_anomaly_inner(input: &DeriveInput) -> (r: Result<Plan, DeriveError>)
    ensures
        match input.data {
            Data::Union => r matches Err(e) && e@ == failure(ErrorKind::Union, None, None),
            Data::Struct => match (r, struct_plan(input.attrs@)) {
                (Ok(Plan::Struct(p)), Ok(q)) => p == q,
                (Err(e), Err(f)) => e@ == f,
                _ => false,
            },
            Data::Enum(variants) => match (r, enum_plan(variants@)) {
                (Ok(Plan::Enum(arms)), Ok(s)) => arms@ == s,
                (Err(e), Err(f)) => e@ == f,
                _ => false,
            },
        },
{
    match &input.data {
        Data::Struct => match derive_struct(&input.attrs) {
            Ok(p) => Ok(Plan::Struct(p)),
            Err(e) => Err(e),
        },
        Data::Enum(variants) => match derive_enum(variants) {
            Ok(arms) => Ok(Plan::Enum(arms)),
            Err(e) => Err(e),
        },
        Data::Union => Err(DeriveError::new(ErrorKind::Union, None, None)),
    }
}

} // verus!
