//! Reading the `category`, `status` and `anomaly` attributes.
use vstd::prelude::*;

use crate::category::{str_eq, Category};
use crate::derive::error::{failure, DeriveError, ErrorKind, Failure};
use crate::derive::input::Attr;
use crate::status::Status;

verus! {

/// A category as `#[category(...)]` names it.
#[derive(Debug, Clone, Copy, PartialEq, Eq, Structural)]
pub enum CategoryKind {
    Unavailable,
    Interrupted,
    Busy,
    Incorrect,
    Forbidden,
    Unsupported,
    NotFound,
    Conflict,
    Fault,
}

/// The category that `#[category(ident)]` names, if any.
pub open spec fn category_named(ident: Seq<char>) -> Option<CategoryKind> {
    if ident == "unavailable"@ {
        Some(CategoryKind::Unavailable)
    } else if ident == "interrupted"@ {
        Some(CategoryKind::Interrupted)
    } else if ident == "busy"@ {
        Some(CategoryKind::Busy)
    } else if ident == "incorrect"@ {
        Some(CategoryKind::Incorrect)
    } else if ident == "forbidden"@ {
        Some(CategoryKind::Forbidden)
    } else if ident == "unsupported"@ {
        Some(CategoryKind::Unsupported)
    } else if ident == "not_found"@ {
        Some(CategoryKind::NotFound)
    } else if ident == "conflict"@ {
        Some(CategoryKind::Conflict)
    } else if ident == "fault"@ {
        Some(CategoryKind::Fault)
    } else {
        None
    }
}

/// The status that `#[status(ident)]` names, if any.
pub open spec fn status_named(ident: Seq<char>) -> Option<Status> {
    if ident == "temporary"@ {
        Some(Status::Temporary)
    } else if ident == "permanent"@ {
        Some(Status::Permanent)
    } else if ident == "persistent"@ {
        Some(Status::Persistent)
    } else {
        None
    }
}

/// The status that a category has unless the type says otherwise: `Temporary`
/// for `unavailable` and `busy`, none for `interrupted` and `not_found`, whose
/// status depends on context, and `Permanent` for the rest.
pub open spec fn default_status(category: CategoryKind) -> Option<Status> {
    match category {
        CategoryKind::Unavailable | CategoryKind::Busy => Some(Status::Temporary),
        CategoryKind::Interrupted | CategoryKind::NotFound => None,
        _ => Some(Status::Permanent),
    }
}

impl CategoryKind {
    /// The category constant of [`crate::category`] that this kind stands for.
    pub open spec fn spec_category(self) -> Category {
        match self {
            CategoryKind::Unavailable => Category::Unavailable,
            CategoryKind::Interrupted => Category::Interrupted,
            CategoryKind::Busy => Category::Busy,
            CategoryKind::Incorrect => Category::Incorrect,
            CategoryKind::Forbidden => Category::Forbidden,
            CategoryKind::Unsupported => Category::Unsupported,
            CategoryKind::NotFound => Category::NotFound,
            CategoryKind::Conflict => Category::Conflict,
            CategoryKind::Fault => Category::Fault,
        }
    }

    /// The category constant that a generated `HasCategory::category` returns.
    pub fn category(&self) -> (c: Category)
        ensures
            c == self.spec_category(),
    {
        match self {
            CategoryKind::Unavailable => Category::Unavailable,
            CategoryKind::Interrupted => Category::Interrupted,
            CategoryKind::Busy => Category::Busy,
            CategoryKind::Incorrect => Category::Incorrect,
            CategoryKind::Forbidden => Category::Forbidden,
            CategoryKind::Unsupported => Category::Unsupported,
            CategoryKind::NotFound => Category::NotFound,
            CategoryKind::Conflict => Category::Conflict,
            CategoryKind::Fault => Category::Fault,
        }
    }
}

/// The default status of `category`, if it has one.
pub fn category_default_status(category: &CategoryKind) -> (s: Option<Status>)
    ensures
        s == default_status(*category),
{
    match category {
        CategoryKind::Unavailable | CategoryKind::Busy => Some(Status::Temporary),
        CategoryKind::Incorrect
        | CategoryKind::Forbidden
        | CategoryKind::Unsupported
        | CategoryKind::Conflict
        | CategoryKind::Fault => Some(Status::Permanent),
        CategoryKind::Interrupted | CategoryKind::NotFound => None,
    }
}

/// The category that the identifier `ident` names, if any.
pub fn category_from_ident(ident: &str) -> (k: Option<CategoryKind>)
    ensures
        k == category_named(ident@),
{
    if str_eq(ident, "unavailable") {
        Some(CategoryKind::Unavailable)
    } else if str_eq(ident, "interrupted") {
        Some(CategoryKind::Interrupted)
    } else if str_eq(ident, "busy") {
        Some(CategoryKind::Busy)
    } else if str_eq(ident, "incorrect") {
        Some(CategoryKind::Incorrect)
    } else if str_eq(ident, "forbidden") {
        Some(CategoryKind::Forbidden)
    } else if str_eq(ident, "unsupported") {
        Some(CategoryKind::Unsupported)
    } else if str_eq(ident, "not_found") {
        Some(CategoryKind::NotFound)
    } else if str_eq(ident, "conflict") {
        Some(CategoryKind::Conflict)
    } else if str_eq(ident, "fault") {
        Some(CategoryKind::Fault)
    } else {
        None
    }
}

/// The status that the identifier `ident` names, if any.
pub fn status_from_ident(ident: &str) -> (s: Option<Status>)
    ensures
        s == status_named(ident@),
{
    if str_eq(ident, "temporary") {
        Some(Status::Temporary)
    } else if str_eq(ident, "permanent") {
        Some(Status::Permanent)
    } else if str_eq(ident, "persistent") {
        Some(Status::Persistent)
    } else {
        None
    }
}

/// The index of the first attribute at or after `i` whose path is the identifier `name`.
pub open spec fn first_attr_from(attrs: Seq<Attr>, name: Seq<char>, i: int) -> Option<int>
    decreases attrs.len() - i,
{
    if i < 0 || i >= attrs.len() {
        None
    } else if attrs[i].has_path(name) {
        Some(i)
    } else {
        first_attr_from(attrs, name, i + 1)
    }
}

/// The search from `i` finds the first attribute at or after `i` whose path is
/// the identifier `name`, and finds none when no such attribute exists.
pub proof fn lemma_first_attr_from(attrs: Seq<Attr>, name: Seq<char>, i: int)
    requires
        0 <= i,
    ensures
        match first_attr_from(attrs, name, i) {
            Some(j) => {
                &&& i <= j < attrs.len()
                &&& attrs[j].has_path(name)
                &&& forall|k: int| i <= k < j ==> !(#[trigger] attrs[k]).has_path(name)
            },
            None => forall|k: int| i <= k < attrs.len() ==> !(#[trigger] attrs[k]).has_path(name),
        },
    decreases attrs.len() - i,
{
    if i < attrs.len() && !attrs[i].has_path(name) {
        lemma_first_attr_from(attrs, name, i + 1);
    }
}

/// The index of the first attribute whose path is the identifier `name`.
pub open spec fn first_attr(attrs: Seq<Attr>, name: Seq<char>) -> Option<int> {
    first_attr_from(attrs, name, 0)
}

/// The index of the first attribute whose path is the identifier `name`.
pub fn find_attr(attrs: &Vec<Attr>, name: &str) -> (r: Option<usize>)
    ensures
        match r {
            Some(i) => first_attr(attrs@, name@) == Some(i as int) && i < attrs@.len(),
            None => first_attr(attrs@, name@) is None,
        },
{
    let mut i: usize = 0;
    while i < attrs.len()
        invariant
            i <= attrs@.len(),
            first_attr(attrs@, name@) == first_attr_from(attrs@, name@, i as int),
        decreases attrs.len() - i,
    {
        let found = match &attrs[i].path {
            Some(p) => str_eq(p.as_str(), name),
            None => false,
        };
        if found {
            proof {
                lemma_first_attr_from(attrs@, name@, 0);
            }
            return Some(i);
        }
        i = i + 1;
    }
    proof {
        lemma_first_attr_from(attrs@, name@, 0);
    }
    None
}

/// What the first `#[category(...)]` among `attrs` says: no such attribute, the
/// category it names, or the error it gives (its arguments are not one
/// identifier, or the identifier names no category). Errors point at the
/// attribute, within `variant` for an enum.
pub open spec fn category_attr(attrs: Seq<Attr>, variant: Option<usize>) -> Result<
    Option<CategoryKind>,
    Failure,
> {
    match first_attr(attrs, "category"@) {
        None => Ok(None),
        Some(i) => match attrs[i].argument() {
            Err(msg) => Err(
                Failure {
                    kind: ErrorKind::InvalidArguments,
                    variant,
                    attr: Some(i as usize),
                    detail: msg,
                },
            ),
            Ok(ident) => match category_named(ident) {
                Some(k) => Ok(Some(k)),
                None => Err(failure(ErrorKind::UnknownCategory, variant, Some(i as usize))),
            },
        },
    }
}

/// What the first `#[status(...)]` among `attrs` says: no such attribute, the
/// attribute's index with the status it names, or the error it gives.
pub open spec fn status_attr(attrs: Seq<Attr>, variant: Option<usize>) -> Result<
    Option<(usize, Status)>,
    Failure,
> {
    match first_attr(attrs, "status"@) {
        None => Ok(None),
        Some(i) => match attrs[i].argument() {
            Err(msg) => Err(
                Failure {
                    kind: ErrorKind::InvalidArguments,
                    variant,
                    attr: Some(i as usize),
                    detail: msg,
                },
            ),
            Ok(ident) => match status_named(ident) {
                Some(s) => Ok(Some((i as usize, s))),
                None => Err(failure(ErrorKind::UnknownStatus, variant, Some(i as usize))),
            },
        },
    }
}

/// What the first `#[anomaly(...)]` among `attrs` says: no such attribute, the
/// index of an `#[anomaly(transparent)]`, or the error it gives.
pub open spec fn transparent_attr(attrs: Seq<Attr>, variant: Option<usize>) -> Result<
    Option<usize>,
    Failure,
> {
    match first_attr(attrs, "anomaly"@) {
        None => Ok(None),
        Some(i) => match attrs[i].argument() {
            Err(msg) => Err(
                Failure {
                    kind: ErrorKind::InvalidArguments,
                    variant,
                    attr: Some(i as usize),
                    detail: msg,
                },
            ),
            Ok(ident) => if ident == "transparent"@ {
                Ok(Some(i as usize))
            } else {
                Err(failure(ErrorKind::UnknownAnomalyMode, variant, Some(i as usize)))
            },
        },
    }
}

/// The identifier argument of `attr`, or the error pointing at it.
fn attr_ident(attr: &Attr, variant: Option<usize>, index: usize) -> (r: Result<String, DeriveError>)
    ensures
        match (r, attr.argument()) {
            (Ok(s), Ok(t)) => s@ == t,
            (Err(e), Err(msg)) => e@ == Failure {
                kind: ErrorKind::InvalidArguments,
                variant,
                attr: Some(index),
                detail: msg,
            },
            _ => false,
        },
{
    match &attr.arg {
        Ok(s) => Ok(s.clone()),
        Err(msg) => Err(
            DeriveError {
                kind: ErrorKind::InvalidArguments,
                variant,
                attr: Some(index),
                detail: msg.clone(),
            },
        ),
    }
}

/// Reads the first `#[category(...)]` among `attrs`.
pub fn parse_category_attrs(attrs: &Vec<Attr>, variant: Option<usize>) -> (r: Result<
    Option<CategoryKind>,
    DeriveError,
>)
    ensures
        crate::derive::error::view_result(r) == category_attr(attrs@, variant),
{
    match find_attr(attrs, "category") {
        None => Ok(None),
        Some(i) => {
            let ident = match attr_ident(&attrs[i], variant, i) {
                Ok(ident) => ident,
                Err(e) => return Err(e),
            };
            match category_from_ident(ident.as_str()) {
                Some(k) => Ok(Some(k)),
                None => Err(DeriveError::new(ErrorKind::UnknownCategory, variant, Some(i))),
            }
        },
    }
}

/// Reads the first `#[status(...)]` among `attrs`.
pub fn parse_status_attrs(attrs: &Vec<Attr>, variant: Option<usize>) -> (r: Result<
    Option<(usize, Status)>,
    DeriveError,
>)
    ensures
        crate::derive::error::view_result(r) == status_attr(attrs@, variant),
{
    match find_attr(attrs, "status") {
        None => Ok(None),
        Some(i) => {
            let ident = match attr_ident(&attrs[i], variant, i) {
                Ok(ident) => ident,
                Err(e) => return Err(e),
            };
            match status_from_ident(ident.as_str()) {
                Some(s) => Ok(Some((i, s))),
                None => Err(DeriveError::new(ErrorKind::UnknownStatus, variant, Some(i))),
            }
        },
    }
}

/// Reads the first `#[anomaly(...)]` among `attrs`.
pub fn parse_transparent_attr(attrs: &Vec<Attr>, variant: Option<usize>) -> (r: Result<
    Option<usize>,
    DeriveError,
>)
    ensures
        crate::derive::error::view_result(r) == transparent_attr(attrs@, variant),
{
    match find_attr(attrs, "anomaly") {
        None => Ok(None),
        Some(i) => {
            let ident = match attr_ident(&attrs[i], variant, i) {
                Ok(ident) => ident,
                Err(e) => return Err(e),
            };
            if str_eq(ident.as_str(), "transparent") {
                Ok(Some(i))
            } else {
                Err(DeriveError::new(ErrorKind::UnknownAnomalyMode, variant, Some(i)))
            }
        },
    }
}

} // verus!
