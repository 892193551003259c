//! Anomalies whose category is a type parameter.
//!
//! [`Anomaly<C>`] carries its category as the marker type `C` of
//! [`crate::category`]. Each category has a sub-trait ([`Unavailable`], [`Busy`],
//! [`Incorrect`], ...) with an implementation of `Anomaly<C>` for every type that
//! implements it, so an implementor only declares one `impl` block; for the
//! categories with a fixed status that block is empty.
use vstd::prelude::*;

use crate::category;
use crate::status::Status;

verus! {

/// A structured error whose category is the marker type `C`.
///
/// Implement one of the category-specific sub-traits instead of this trait: each of
/// them provides `Anomaly<C>` for its category.
pub trait Anomaly<C> {
    /// Returns the category of this anomaly.
    fn category(&self) -> C;

    /// Returns whether retrying the same request is safe and likely to succeed.
    fn status(&self) -> Status;
}

/// A resource or service that was expected to be reachable is not.
///
/// An empty `impl Unavailable for MyError {}` is valid.
pub trait Unavailable {

}

impl<T: Unavailable> Anomaly<category::Unavailable> for T {
    fn category(&self) -> category::Unavailable {
        category::Unavailable {  }
    }

    fn status(&self) -> (s: Status)
        ensures
            s == Status::Temporary,
    {
        Status::Temporary
    }
}

/// An operation that was cut short before completing.
///
/// There is no default `status()` because whether a retry is safe depends on
/// whether partial work was committed. Implementors must provide it.
pub trait Interrupted {
    /// Returns whether retrying is safe given the partial-work context.
    fn status(&self) -> Status;
}

impl<T: Interrupted> Anomaly<category::Interrupted> for T {
    fn category(&self) -> category::Interrupted {
        category::Interrupted {  }
    }

    fn status(&self) -> (s: Status)
        ensures
            call_ensures(<T as Interrupted>::status, (self,), s),
    {
        <T as Interrupted>::status(self)
    }
}

/// A reachable system that is temporarily too busy to accept new work.
///
/// An empty `impl Busy for MyError {}` is valid.
pub trait Busy {

}

impl<T: Busy> Anomaly<category::Busy> for T {
    fn category(&self) -> category::Busy {
        category::Busy {  }
    }

    fn status(&self) -> (s: Status)
        ensures
            s == Status::Temporary,
    {
        Status::Temporary
    }
}

/// A request that is malformed or violates a domain invariant.
///
/// An empty `impl Incorrect for MyError {}` is valid.
pub trait Incorrect {

}

impl<T: Incorrect> Anomaly<category::Incorrect> for T {
    fn category(&self) -> category::Incorrect {
        category::Incorrect {  }
    }

    fn status(&self) -> (s: Status)
        ensures
            s == Status::Permanent,
    {
        Status::Permanent
    }
}

/// An operation that was denied due to insufficient permissions.
///
/// An empty `impl Forbidden for MyError {}` is valid.
pub trait Forbidden {

}

impl<T: Forbidden> Anomaly<category::Forbidden> for T {
    fn category(&self) -> category::Forbidden {
        category::Forbidden {  }
    }

    fn status(&self) -> (s: Status)
        ensures
            s == Status::Permanent,
    {
        Status::Permanent
    }
}

/// An operation that the implementation does not support.
///
/// An empty `impl Unsupported for MyError {}` is valid.
pub trait Unsupported {

}

impl<T: Unsupported> Anomaly<category::Unsupported> for T {
    fn category(&self) -> category::Unsupported {
        category::Unsupported {  }
    }

    fn status(&self) -> (s: Status)
        ensures
            s == Status::Permanent,
    {
        Status::Permanent
    }
}

/// A resource that does not exist at the given identifier.
///
/// There is no default `status()` because permanence depends on context: a
/// hard-deleted record is permanently gone, but a resource that hasn't been created
/// yet might appear later. Implementors must provide it.
pub trait NotFound {
    /// Returns whether this absence is permanent or transient.
    fn status(&self) -> Status;
}

impl<T: NotFound> Anomaly<category::NotFound> for T {
    fn category(&self) -> category::NotFound {
        category::NotFound {  }
    }

    fn status(&self) -> (s: Status)
        ensures
            call_ensures(<T as NotFound>::status, (self,), s),
    {
        <T as NotFound>::status(self)
    }
}

/// An operation that cannot be applied due to a conflict with existing state.
///
/// An empty `impl Conflict for MyError {}` is valid.
pub trait Conflict {

}

impl<T: Conflict> Anomaly<category::Conflict> for T {
    fn category(&self) -> category::Conflict {
        category::Conflict {  }
    }

    fn status(&self) -> (s: Status)
        ensures
            s == Status::Permanent,
    {
        Status::Permanent
    }
}

/// An internal error that is the system's fault, not the caller's.
///
/// An empty `impl Fault for MyError {}` is valid.
pub trait Fault {

}

impl<T: Fault> Anomaly<category::Fault> for T {
    fn category(&self) -> category::Fault {
        category::Fault {  }
    }

    fn status(&self) -> (s: Status)
        ensures
            s == Status::Permanent,
    {
        Status::Permanent
    }
}

} // verus!
