//! The result of one remote fetch: a decoded value or an opaque failure.

use vstd::prelude::*;

verus! {

/// One fetch's result. A fetch is atomic: it either produced a value or
/// failed as a whole; no partial state exists. The failure carries no
/// detail on purpose — the transport is a black box to this library.
pub enum FetchOutcome<T> {
    Success(T),
    Failure,
}

impl<T> FetchOutcome<T> {
    /// Whether the fetch produced a value.
    pub open spec fn is_success(&self) -> bool {
        match self {
            FetchOutcome::Success(_) => true,
            FetchOutcome::Failure => false,
        }
    }

    /// The fetched value; meaningful only when `is_success()`.
    pub open spec fn value(&self) -> T
        recommends
            self.is_success(),
    {
        match self {
            FetchOutcome::Success(v) => *v,
            FetchOutcome::Failure => arbitrary(),
        }
    }
}

} // verus!
