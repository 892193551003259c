//! What `#[derive(Anomaly)]` generates for a type.
//!
//! The derive reads three attributes: `#[category(...)]` on a struct or on each
//! variant of an enum, `#[status(...)]` for the categories without a default
//! status (`interrupted`, `not_found`), and `#[anomaly(transparent)]` on a variant
//! that wraps another anomaly. [`plan::derive_anomaly_inner`] turns the shape of
//! the type ([`input::DeriveInput`]) into a [`plan::Plan`], which fixes what the
//! generated `HasCategory` and `HasStatus` implementations return, or into the
//! [`error::DeriveError`] that the derive reports.
pub mod attrs;
pub mod error;
pub mod input;
pub mod plan;
pub mod laws;
