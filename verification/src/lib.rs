//! Structured, categorized error handling.
//!
//! An error type that implements this crate's [`anomaly`] traits signals its
//! *category*, a stable, cross-cutting classification that callers can act on
//! without knowing anything about the specific error type, and its retry
//! [`status`].
pub mod category;
pub mod status;
pub mod anomaly;
pub mod typed;
pub mod derive;
