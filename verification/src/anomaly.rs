//! Traits for structured, categorized errors.
//!
//! [`Anomaly`] is the base trait: a type with a [`Category`] and a retry [`Status`].
//! The derive in [`crate::derive`] computes, from the `#[category(...)]`,
//! `#[status(...)]` and `#[anomaly(transparent)]` attributes of a type, the
//! [`HasCategory`] and [`HasStatus`] implementations that the type receives.
//!
//! ## Choosing a category
//!
//! | `#[category(...)]` | `status()` default | Fix |
//! |---|---|---|
//! | `unavailable` | `Temporary` | make sure callee is healthy |
//! | `interrupted` | context dependent | stop interrupting |
//! | `busy` | `Temporary` | backoff and retry |
//! | `incorrect` | `Permanent` | fix caller bug |
//! | `forbidden` | `Permanent` | fix caller creds |
//! | `unsupported` | `Permanent` | fix caller verb |
//! | `not_found` | context dependent | fix caller noun |
//! | `conflict` | `Permanent` | coordinate with callee |
//! | `fault` | `Permanent` | fix callee bug |
use vstd::prelude::*;

use crate::category::Category;
use crate::status::Status;

verus! {

/// A structured error that carries a [`Category`] and a retry [`Status`].
///
/// Implement [`HasCategory`] and [`HasStatus`], then add an empty
/// `impl Anomaly for YourType {}`.
pub trait Anomaly: HasCategory + HasStatus {

}

/// Returns the [`Category`] that classifies this anomaly.
pub trait HasCategory {
    /// Returns the category that classifies this anomaly.
    fn category(&self) -> Category;
}

/// Returns the retry [`Status`] for this anomaly.
pub trait HasStatus {
    /// Returns whether the caller should retry.
    fn status(&self) -> Status;
}

} // verus!
