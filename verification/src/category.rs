//! Classification of anomalies by kind.
//!
//! Each constant in this module answers the question *what kind of problem is this?*
//! Return one from [`crate::anomaly::HasCategory::category`] to classify an error type.
//! Beside each constant stands a zero-sized marker type of the same name, which
//! carries the category at the type level (see [`crate::typed`]).
#![allow(non_upper_case_globals)]

use vstd::prelude::*;
use vstd::std_specs::cmp::PartialEqSpec;

verus! {

/// The name of a category defined outside this crate.
///
/// Only [`Category::new`] builds one, and only for a name that none of the nine
/// built-in categories carries, so that every category has exactly one value.
#[derive(Copy, Clone, Hash, PartialEq, Eq, Debug)]
pub struct CustomName(&'static str);

/// A category answers the question *what kind of problem is this?* independently
/// of the specific error type.
///
/// Two categories are equal exactly when their names are equal. The nine built-in
/// categories are the variants below, and [`Category::new`] maps their names to
/// them; any other name becomes a [`Category::Custom`].
#[derive(Copy, Clone, Hash, Eq, Debug)]
pub enum Category {
    /// See [`Unavailable`].
    Unavailable,
    /// See [`Interrupted`].
    Interrupted,
    /// See [`Busy`].
    Busy,
    /// See [`Incorrect`].
    Incorrect,
    /// See [`Forbidden`].
    Forbidden,
    /// See [`Unsupported`].
    Unsupported,
    /// See [`NotFound`].
    NotFound,
    /// See [`Conflict`].
    Conflict,
    /// See [`Fault`].
    Fault,
    /// A category defined outside this crate with [`Category::new`].
    Custom(CustomName),
}

/// The built-in category whose name is `name`, if any.
pub open spec fn builtin_category(name: Seq<char>) -> Option<Category> {
    if name == "unavailable"@ {
        Some(Category::Unavailable)
    } else if name == "interrupted"@ {
        Some(Category::Interrupted)
    } else if name == "busy"@ {
        Some(Category::Busy)
    } else if name == "incorrect"@ {
        Some(Category::Incorrect)
    } else if name == "forbidden"@ {
        Some(Category::Forbidden)
    } else if name == "unsupported"@ {
        Some(Category::Unsupported)
    } else if name == "not-found"@ {
        Some(Category::NotFound)
    } else if name == "conflict"@ {
        Some(Category::Conflict)
    } else if name == "fault"@ {
        Some(Category::Fault)
    } else {
        None
    }
}

impl CustomName {
    /// The name as characters.
    pub closed spec fn chars(self) -> Seq<char> {
        self.0@
    }
}

impl Category {
    /// The name of the category, as its string form shows it.
    pub open spec fn name(self) -> Seq<char> {
        match self {
            Category::Unavailable => "unavailable"@,
            Category::Interrupted => "interrupted"@,
            Category::Busy => "busy"@,
            Category::Incorrect => "incorrect"@,
            Category::Forbidden => "forbidden"@,
            Category::Unsupported => "unsupported"@,
            Category::NotFound => "not-found"@,
            Category::Conflict => "conflict"@,
            Category::Fault => "fault"@,
            Category::Custom(c) => c.chars(),
        }
    }

    /// A category is canonical when a custom one does not carry a built-in name.
    pub open spec fn canonical(self) -> bool {
        self matches Category::Custom(c) ==> builtin_category(c.chars()) is None
    }

    /// Creates a new category with the given name.
    ///
    /// Use this to define custom categories outside the crate. A built-in name
    /// gives back the built-in category of that name.
    pub fn new(name: &'static str) -> (c: Self)
        ensures
            c.name() == name@,
            c.canonical(),
            builtin_category(name@) matches Some(b) ==> c == b,
            builtin_category(name@) is None ==> c is Custom,
    {
        if str_eq(name, "unavailable") {
            Category::Unavailable
        } else if str_eq(name, "interrupted") {
            Category::Interrupted
        } else if str_eq(name, "busy") {
            Category::Busy
        } else if str_eq(name, "incorrect") {
            Category::Incorrect
        } else if str_eq(name, "forbidden") {
            Category::Forbidden
        } else if str_eq(name, "unsupported") {
            Category::Unsupported
        } else if str_eq(name, "not-found") {
            Category::NotFound
        } else if str_eq(name, "conflict") {
            Category::Conflict
        } else if str_eq(name, "fault") {
            Category::Fault
        } else {
            Category::Custom(CustomName(name))
        }
    }

    fn name_str(&self) -> (s: &'static str)
        ensures
            s@ == self.name(),
    {
        match self {
            Category::Unavailable => "unavailable",
            Category::Interrupted => "interrupted",
            Category::Busy => "busy",
            Category::Incorrect => "incorrect",
            Category::Forbidden => "forbidden",
            Category::Unsupported => "unsupported",
            Category::NotFound => "not-found",
            Category::Conflict => "conflict",
            Category::Fault => "fault",
            Category::Custom(c) => c.0,
        }
    }

    /// The name of the category as a `String`: what its string form shows.
    pub fn to_string(&self) -> (s: String)
        ensures
            s@ == self.name(),
    {
        self.name_str().to_owned()
    }
}

impl PartialEq for Category {
    fn eq(&self, other: &Self) -> (r: bool) {
        str_eq(self.name_str(), other.name_str())
    }
}

impl vstd::std_specs::cmp::PartialEqSpecImpl for Category {
    open spec fn obeys_eq_spec() -> bool {
        true
    }

    open spec fn eq_spec(&self, other: &Self) -> bool {
        self.name() == other.name()
    }
}

/// Categories compare by name: two calls of [`Category::new`] give equal
/// categories exactly when their names are equal, and a built-in name gives a
/// category equal to that built-in constant.
pub proof fn law_categories_compare_by_name(a: Category, b: Category)
    ensures
        a.eq_spec(&b) <==> a.name() == b.name(),
{
}

/// The nine built-in names are told apart by their lengths and letters.
proof fn lemma_builtin_names_differ()
    ensures
        "unavailable"@.len() == 11 && "unavailable"@[0] == 'u' && "unavailable"@[2] == 'a',
        "interrupted"@.len() == 11 && "interrupted"@[0] == 'i',
        "busy"@.len() == 4,
        "incorrect"@.len() == 9 && "incorrect"@[0] == 'i',
        "forbidden"@.len() == 9 && "forbidden"@[0] == 'f',
        "unsupported"@.len() == 11 && "unsupported"@[0] == 'u' && "unsupported"@[2] == 's',
        "not-found"@.len() == 9 && "not-found"@[0] == 'n',
        "conflict"@.len() == 8,
        "fault"@.len() == 5,
{
    reveal_strlit("unavailable");
    reveal_strlit("interrupted");
    reveal_strlit("busy");
    reveal_strlit("incorrect");
    reveal_strlit("forbidden");
    reveal_strlit("unsupported");
    reveal_strlit("not-found");
    reveal_strlit("conflict");
    reveal_strlit("fault");
}

/// Each built-in category is the one its name stands for: the name of a
/// built-in category gives back that category, and a name that stands for a
/// built-in category is that category's name. So [`Category::new`] of a
/// built-in category's name gives that very category.
pub proof fn law_builtin_names(c: Category, name: Seq<char>)
    ensures
        !(c is Custom) ==> builtin_category(c.name()) == Some(c),
        builtin_category(name) matches Some(b) ==> b.name() == name && !(b is Custom),
{
    lemma_builtin_names_differ();
}

/// Character-wise equality of two strings.
pub(crate) fn str_eq(a: &str, b: &str) -> (r: bool)
    ensures
        r == (a@ == b@),
{
    let n = a.unicode_len();
    if n != b.unicode_len() {
        return false;
    }
    let mut i: usize = 0;
    while i < n
        invariant
            n == a@.len(),
            n == b@.len(),
            i <= n,
            forall|j: int| 0 <= j < i ==> a@[j] == b@[j],
        decreases n - i,
    {
        if a.get_char(i) != b.get_char(i) {
            return false;
        }
        i = i + 1;
    }
    assert(a@ =~= b@);
    true
}

/// The requested resource or service is not currently reachable.
///
/// Unlike [`Busy`], `Unavailable` implies the dependency itself is absent or
/// down, not merely overloaded. The request may succeed later if the dependency
/// recovers.
///
/// Default status: [`Status::Temporary`](crate::status::Status::Temporary).
pub const Unavailable: Category = Category::Unavailable;

/// The operation was cut short before it could complete.
///
/// The system was reachable and processing the request, but something (a timeout,
/// a cancellation signal, a network reset) stopped it mid-flight. Whether the
/// caller should retry depends on whether the partial work was committed; there is
/// no universal default status for this category.
pub const Interrupted: Category = Category::Interrupted;

/// The system is reachable but overloaded and cannot accept more work right now.
///
/// Unlike [`Unavailable`], the dependency is up and healthy: it just has more
/// demand than capacity at this moment. Callers should back off and retry.
///
/// Default status: [`Status::Temporary`](crate::status::Status::Temporary).
pub const Busy: Category = Category::Busy;

/// The request itself is malformed or invalid.
///
/// The problem is with what was asked, not with the system's current state.
/// Retrying the same request unchanged will not help.
///
/// Default status: [`Status::Permanent`](crate::status::Status::Permanent).
pub const Incorrect: Category = Category::Incorrect;

/// The caller does not have permission to perform the operation.
///
/// The request was understood but authorization was denied. Retrying with the same
/// credentials will not help; the caller needs elevated privileges or a different
/// identity.
///
/// Default status: [`Status::Permanent`](crate::status::Status::Permanent).
pub const Forbidden: Category = Category::Forbidden;

/// The operation is not supported by this implementation.
///
/// The system understood the request but has no capability to fulfill it. This is
/// a permanent condition: the feature simply does not exist.
///
/// Default status: [`Status::Permanent`](crate::status::Status::Permanent).
pub const Unsupported: Category = Category::Unsupported;

/// The requested resource does not exist.
///
/// The identifier or path is valid but points to nothing. Whether this is
/// permanent depends on context (e.g. a deleted record vs. a race with a
/// concurrent create), so there is no universal default status for this category.
pub const NotFound: Category = Category::NotFound;

/// The operation cannot be applied because it conflicts with existing state.
///
/// Typically a uniqueness violation, an optimistic-lock mismatch, or a
/// precondition failure. Retrying the same request unchanged will not resolve
/// the conflict; the caller must reconcile the state difference first.
///
/// Default status: [`Status::Permanent`](crate::status::Status::Permanent).
pub const Conflict: Category = Category::Conflict;

/// An internal error that is the system's fault, not the caller's.
///
/// The request was valid but something went wrong internally: a bug, a failed
/// invariant, an unexpected state. The caller cannot fix this by changing their
/// request.
///
/// Default status: [`Status::Permanent`](crate::status::Status::Permanent).
pub const Fault: Category = Category::Fault;

/// Type-level marker of the [`Unavailable`] category.
pub struct Unavailable {}

/// Type-level marker of the [`Interrupted`] category.
pub struct Interrupted {}

/// Type-level marker of the [`Busy`] category.
pub struct Busy {}

/// Type-level marker of the [`Incorrect`] category.
pub struct Incorrect {}

/// Type-level marker of the [`Forbidden`] category.
pub struct Forbidden {}

/// Type-level marker of the [`Unsupported`] category.
pub struct Unsupported {}

/// Type-level marker of the [`NotFound`] category.
pub struct NotFound {}

/// Type-level marker of the [`Conflict`] category.
pub struct Conflict {}

/// Type-level marker of the [`Fault`] category.
pub struct Fault {}

} // verus!
