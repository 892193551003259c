use std::fmt::{Display, Formatter, Result};

use anomalies::anomaly::{Anomaly, HasCategory, HasStatus};
use anomalies::category::{Busy, Category, Fault, Forbidden, NotFound};
use anomalies::derive::input::{Attr, Data, DeriveInput, Fields, Variant};
use anomalies::derive::plan::{derive_anomaly_inner, fixed_pattern, ArmPlan, Binding, Pattern, Plan};
use anomalies::status::Status;

fn variant(attrs: &[&str], fields: Fields) -> Variant {
    Variant { attrs: attrs.iter().map(|a| Attr::new(a)).collect(), fields }
}

// What `#[derive(Anomaly)]` generates for an enum: one arm per variant.
fn derived(variants: Vec<Variant>) -> Vec<ArmPlan> {
    match derive_anomaly_inner(&DeriveInput { attrs: Vec::new(), data: Data::Enum(variants) }) {
        Ok(Plan::Enum(arms)) => arms,
        _ => panic!("the derive refused the enum"),
    }
}

// ── Plain enum ────────────────────────────────────────────────────────────────

#[derive(Debug)]
enum RockNSoul {
    /// not_found + explicit #[status(permanent)]
    ShesGone(String),

    /// fault — inherits default Permanent
    Falling { message: String },

    /// busy — inherits default Temporary
    WaitForMe,

    /// forbidden — inherits default Permanent
    ICantGoForThat(String),
}

fn rock_n_soul_arms() -> Vec<ArmPlan> {
    derived(vec![
        variant(
            &[
                "doc = r\" not_found + explicit #[status(permanent)]\"",
                "category(not_found)",
                "status(permanent)",
            ],
            Fields::Unnamed(1),
        ),
        variant(
            &["doc = r\" fault — inherits default Permanent\"", "category(fault)"],
            Fields::Named(1),
        ),
        variant(
            &["doc = r\" busy — inherits default Temporary\"", "category(busy)"],
            Fields::Unit,
        ),
        variant(
            &["doc = r\" forbidden — inherits default Permanent\"", "category(forbidden)"],
            Fields::Unnamed(1),
        ),
    ])
}

impl RockNSoul {
    fn arm(&self) -> ArmPlan {
        let index = match self {
            Self::ShesGone(..) => 0,
            Self::Falling { .. } => 1,
            Self::WaitForMe => 2,
            Self::ICantGoForThat(..) => 3,
        };
        rock_n_soul_arms()[index]
    }
}

impl HasCategory for RockNSoul {
    fn category(&self) -> Category {
        self.arm().category().unwrap()
    }
}

impl HasStatus for RockNSoul {
    fn status(&self) -> Status {
        self.arm().status().unwrap()
    }
}

impl Anomaly for RockNSoul {}

impl std::error::Error for RockNSoul {}
impl Display for RockNSoul {
    fn fmt(&self, f: &mut Formatter<'_>) -> Result {
        match self {
            Self::ShesGone(s) => f.write_str(&format!("she's gone: {s}")),
            Self::Falling { message } => f.write_str(&format!("falling: {message}")),
            Self::WaitForMe => f.write_str("wait for me"),
            Self::ICantGoForThat(s) => f.write_str(&format!("i can't go for that: {s}")),
        }
    }
}

#[test]
fn enum_derives_shes_gone_has_category_not_found() {
    assert_eq!(RockNSoul::ShesGone("x".into()).category(), NotFound)
}

#[test]
fn shes_gone_has_status_permanent_from_attribute() {
    assert_eq!(RockNSoul::ShesGone("x".into()).status(), Status::Permanent)
}

#[test]
fn enum_derives_falling_has_category_fault() {
    assert_eq!(
        RockNSoul::Falling {
            message: "start any way you can".into()
        }
        .category(),
        Fault
    )
}

#[test]
fn falling_has_status_permanent_by_default() {
    assert_eq!(
        RockNSoul::Falling {
            message: "start any way you can".into()
        }
        .status(),
        Status::Permanent
    )
}

#[test]
fn enum_derives_wait_for_me_has_category_busy() {
    assert_eq!(RockNSoul::WaitForMe.category(), Busy)
}

#[test]
fn wait_for_me_has_status_temporary_by_default() {
    assert_eq!(RockNSoul::WaitForMe.status(), Status::Temporary)
}

#[test]
fn enum_derives_i_cant_go_for_that_has_category_forbidden() {
    assert_eq!(
        RockNSoul::ICantGoForThat("no can do".into()).category(),
        Forbidden
    )
}

#[test]
fn i_cant_go_for_that_has_status_permanent_by_default() {
    assert_eq!(
        RockNSoul::ICantGoForThat("no can do".into()).status(),
        Status::Permanent
    )
}

// ── Coexistence with thiserror's attributes ───────────────────────────────────
//
// The `#[error(...)]` attributes that thiserror reads stand beside
// `#[category(...)]` / `#[status(...)]` on the same variants; the derive ignores
// them. `Display` is written out here as thiserror generates it.

#[derive(Debug)]
enum VoicesCarry {
    ShesGone(String),
    Falling,
    WaitForMe,
}

fn voices_carry_arms() -> Vec<ArmPlan> {
    derived(vec![
        variant(
            &["category(not_found)", "status(permanent)", "error(\"she's gone: {0}\")"],
            Fields::Unnamed(1),
        ),
        variant(&["category(fault)", "error(\"start any way you can\")"], Fields::Unit),
        variant(&["category(busy)", "error(\"midnight hour almost over\")"], Fields::Unit),
    ])
}

impl VoicesCarry {
    fn arm(&self) -> ArmPlan {
        let index = match self {
            Self::ShesGone(..) => 0,
            Self::Falling => 1,
            Self::WaitForMe => 2,
        };
        voices_carry_arms()[index]
    }
}

impl HasCategory for VoicesCarry {
    fn category(&self) -> Category {
        self.arm().category().unwrap()
    }
}

impl HasStatus for VoicesCarry {
    fn status(&self) -> Status {
        self.arm().status().unwrap()
    }
}

impl Anomaly for VoicesCarry {}

impl std::error::Error for VoicesCarry {}
impl Display for VoicesCarry {
    fn fmt(&self, f: &mut Formatter<'_>) -> Result {
        match self {
            Self::ShesGone(s) => f.write_str(&format!("she's gone: {}", s)),
            Self::Falling => f.write_str("start any way you can"),
            Self::WaitForMe => f.write_str("midnight hour almost over"),
        }
    }
}

#[test]
fn voices_carry_shes_gone_has_category_not_found() {
    assert_eq!(VoicesCarry::ShesGone("x".into()).category(), NotFound)
}

#[test]
fn voices_carry_shes_gone_has_status_permanent() {
    assert_eq!(
        VoicesCarry::ShesGone("x".into()).status(),
        Status::Permanent
    )
}

#[test]
fn voices_carry_falling_has_category_fault() {
    assert_eq!(VoicesCarry::Falling.category(), Fault)
}

#[test]
fn voices_carry_falling_has_status_permanent() {
    assert_eq!(VoicesCarry::Falling.status(), Status::Permanent)
}

#[test]
fn voices_carry_wait_for_me_has_category_busy() {
    assert_eq!(VoicesCarry::WaitForMe.category(), Busy)
}

#[test]
fn voices_carry_wait_for_me_has_status_temporary() {
    assert_eq!(VoicesCarry::WaitForMe.status(), Status::Temporary)
}

#[test]
fn thiserror_display_is_unaffected() {
    assert_eq!(
        VoicesCarry::ShesGone("Record Row".into()).to_string(),
        "she's gone: Record Row"
    )
}

// ── Transparent variants ──────────────────────────────────────────────────────

#[derive(Debug)]
struct DbError {
    retryable: bool,
}

impl HasCategory for DbError {
    fn category(&self) -> Category {
        Fault
    }
}

impl HasStatus for DbError {
    fn status(&self) -> Status {
        if self.retryable {
            Status::Temporary
        } else {
            Status::Permanent
        }
    }
}

#[derive(Debug)]
enum RepoError {
    Missing { id: u64 },
    BadRequest(String),
    Database(DbError),
}

fn repo_error_arms() -> Vec<ArmPlan> {
    derived(vec![
        variant(&["category(not_found)", "status(permanent)"], Fields::Named(1)),
        variant(&["category(incorrect)"], Fields::Unnamed(1)),
        variant(&["anomaly(transparent)"], Fields::Unnamed(1)),
    ])
}

impl HasCategory for RepoError {
    fn category(&self) -> Category {
        let arms = repo_error_arms();
        match self {
            Self::Missing { .. } => arms[0].category().unwrap(),
            Self::BadRequest(..) => arms[1].category().unwrap(),
            Self::Database(inner) => arms[2].category().unwrap_or_else(|| inner.category()),
        }
    }
}

impl HasStatus for RepoError {
    fn status(&self) -> Status {
        let arms = repo_error_arms();
        match self {
            Self::Missing { .. } => arms[0].status().unwrap(),
            Self::BadRequest(..) => arms[1].status().unwrap(),
            Self::Database(inner) => arms[2].status().unwrap_or_else(|| inner.status()),
        }
    }
}

#[test]
fn transparent_variant_delegates_to_inner_value() {
    let retryable = RepoError::Database(DbError { retryable: true });
    let permanent = RepoError::Database(DbError { retryable: false });
    assert_eq!(retryable.category(), Fault);
    assert_eq!(retryable.status(), Status::Temporary);
    assert_eq!(permanent.status(), Status::Permanent);
    assert_eq!(RepoError::Missing { id: 7 }.category(), NotFound);
    assert_eq!(RepoError::BadRequest("x".into()).status(), Status::Permanent);
}

#[test]
fn transparent_arm_records_its_binding() {
    let arms = derived(vec![
        variant(&["anomaly(transparent)"], Fields::Unnamed(1)),
        variant(&["anomaly(transparent)"], Fields::Named(1)),
    ]);
    assert_eq!(
        arms,
        vec![ArmPlan::Transparent(Binding::Positional), ArmPlan::Transparent(Binding::Named)]
    );
}

#[test]
fn enum_without_variants_has_no_arms() {
    assert!(derived(Vec::new()).is_empty());
}

#[test]
fn fixed_arm_pattern_follows_the_fields() {
    use_pattern(Fields::Unit, Pattern::Unit);
    use_pattern(Fields::Unnamed(2), Pattern::Tuple);
    use_pattern(Fields::Named(1), Pattern::Braced);
}

fn use_pattern(fields: Fields, expected: Pattern) {
    assert_eq!(fixed_pattern(&fields), expected);
}
