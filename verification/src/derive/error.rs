//! The errors that `#[derive(Anomaly)]` reports.
use vstd::prelude::*;

verus! {

/// What went wrong.
#[derive(Debug, Clone, Copy, PartialEq, Eq, Structural)]
pub enum ErrorKind {
    /// The arguments of a `category`, `status` or `anomaly` attribute are not one
    /// identifier; the error's detail holds the parser's message.
    InvalidArguments,
    /// `#[category(...)]` names no category.
    UnknownCategory,
    /// `#[status(...)]` names no status.
    UnknownStatus,
    /// `#[anomaly(...)]` holds something other than `transparent`.
    UnknownAnomalyMode,
    /// The derive was applied to a union.
    Union,
    /// A struct has no `#[category(...)]`.
    MissingCategory,
    /// `#[status(...)]` given for a category that has a default status.
    StatusWithDefault,
    /// A variant carries both `#[anomaly(transparent)]` and `#[category(...)]`.
    TransparentWithCategory,
    /// A variant carries both `#[anomaly(transparent)]` and `#[status(...)]`.
    TransparentWithStatus,
    /// A transparent variant has other than exactly one field.
    TransparentFieldCount,
    /// A variant's category has no default status and the variant no `#[status(...)]`.
    MissingStatus,
    /// A variant has neither `#[category(...)]` nor `#[anomaly(transparent)]`.
    MissingAnnotation,
}

/// An error of the derive, with where it points: the variant (for an enum) and
/// the attribute (by its index among the struct's or the variant's attributes).
/// Neither set: the error points at the whole type; only the variant set: at the
/// variant's name.
pub struct DeriveError {
    pub kind: ErrorKind,
    pub variant: Option<usize>,
    pub attr: Option<usize>,
    /// The parser's message for [`ErrorKind::InvalidArguments`], empty otherwise.
    pub detail: String,
}

/// The mathematical value of a [`DeriveError`].
pub struct Failure {
    pub kind: ErrorKind,
    pub variant: Option<usize>,
    pub attr: Option<usize>,
    pub detail: Seq<char>,
}

impl View for DeriveError {
    type V = Failure;

    open spec fn view(&self) -> Failure {
        Failure { kind: self.kind, variant: self.variant, attr: self.attr, detail: self.detail@ }
    }
}

/// A failure with no detail.
pub open spec fn failure(kind: ErrorKind, variant: Option<usize>, attr: Option<usize>) -> Failure {
    Failure { kind, variant, attr, detail: Seq::empty() }
}

/// A result whose error is taken by its view.
pub open spec fn view_result<T>(r: Result<T, DeriveError>) -> Result<T, Failure> {
    match r {
        Ok(t) => Ok(t),
        Err(e) => Err(e@),
    }
}

/// The message the derive reports for an error of kind `kind` with detail `detail`.
pub open spec fn message_of(kind: ErrorKind, detail: Seq<char>) -> Seq<char> {
    match kind {
        ErrorKind::InvalidArguments => detail,
        ErrorKind::UnknownCategory => "expected `unavailable`, `interrupted`, `busy`, `incorrect`, `forbidden`, `unsupported`, `conflict`, `not_found`, or `fault`"@,
        ErrorKind::UnknownStatus => "expected `temporary`, `permanent`, or `persistent`"@,
        ErrorKind::UnknownAnomalyMode => "expected `transparent`"@,
        ErrorKind::Union => "#[derive(Anomaly)] is not supported for unions"@,
        ErrorKind::MissingCategory => "expected `#[category(...)]` attribute"@,
        ErrorKind::StatusWithDefault => "`#[status(...)]` is only valid for categories without a default (`interrupted`, `not_found`)"@,
        ErrorKind::TransparentWithCategory => "`#[anomaly(transparent)]` cannot be combined with `#[category(...)]`"@,
        ErrorKind::TransparentWithStatus => "`#[anomaly(transparent)]` cannot be combined with `#[status(...)]`"@,
        ErrorKind::TransparentFieldCount => "`#[anomaly(transparent)]` requires exactly one field"@,
        ErrorKind::MissingStatus => "variant has no default status; add `#[status(temporary|permanent|persistent)]`"@,
        ErrorKind::MissingAnnotation => "expected `#[category(...)]` or `#[anomaly(transparent)]` on variant"@,
    }
}

impl DeriveError {
    /// An error with no detail.
    pub fn new(kind: ErrorKind, variant: Option<usize>, attr: Option<usize>) -> (e: DeriveError)
        ensures
            e@ == failure(kind, variant, attr),
    {
        DeriveError { kind, variant, attr, detail: String::new() }
    }

    /// The message the derive reports for this error.
    pub fn message(&self) -> (m: String)
        ensures
            m@ == message_of(self.kind, self.detail@),
    {
        match self.kind {
            ErrorKind::InvalidArguments => self.detail.clone(),
            ErrorKind::UnknownCategory => "expected `unavailable`, `interrupted`, `busy`, `incorrect`, `forbidden`, `unsupported`, `conflict`, `not_found`, or `fault`".to_owned(),
            ErrorKind::UnknownStatus => "expected `temporary`, `permanent`, or `persistent`".to_owned(),
            ErrorKind::UnknownAnomalyMode => "expected `transparent`".to_owned(),
            ErrorKind::Union => "#[derive(Anomaly)] is not supported for unions".to_owned(),
            ErrorKind::MissingCategory => "expected `#[category(...)]` attribute".to_owned(),
            ErrorKind::StatusWithDefault => "`#[status(...)]` is only valid for categories without a default (`interrupted`, `not_found`)".to_owned(),
            ErrorKind::TransparentWithCategory => "`#[anomaly(transparent)]` cannot be combined with `#[category(...)]`".to_owned(),
            ErrorKind::TransparentWithStatus => "`#[anomaly(transparent)]` cannot be combined with `#[status(...)]`".to_owned(),
            ErrorKind::TransparentFieldCount => "`#[anomaly(transparent)]` requires exactly one field".to_owned(),
            ErrorKind::MissingStatus => "variant has no default status; add `#[status(temporary|permanent|persistent)]`".to_owned(),
            ErrorKind::MissingAnnotation => "expected `#[category(...)]` or `#[anomaly(transparent)]` on variant".to_owned(),
        }
    }
}

} // verus!
