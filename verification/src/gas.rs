//! Execution-cost accounting.

use vstd::prelude::*;

verus! {

/// A non-negative counter of execution cost, metered by the execution unit
/// while a handler runs and reported back to the host alongside the result.
///
/// Zero is the defined fallback whenever a dispatch fails before any cost
/// could be measured.
#[derive(Clone, Copy, PartialEq, Eq, Structural, Debug)]
pub struct Gas {
    pub value: u64,
}

impl Gas {
    /// A fresh accumulator holding the given cost.
    pub fn new(value: u64) -> (r: Gas)
        ensures
            r.value == value,
    {
        Gas { value }
    }

    /// The fallback cost reported when no execution took place.
    pub fn zero() -> (r: Gas)
        ensures
            r.value == 0,
    {
        Gas { value: 0 }
    }

    /// The metered cost as a plain number.
    pub fn value(&self) -> (r: u64)
        ensures
            r == self.value,
    {
        self.value
    }

    /// Accumulates further cost without ever wrapping around: once the
    /// counter reaches its maximum it stays there.
    pub fn saturating_add(&self, other: Gas) -> (r: Gas)
        ensures
            r.value == if self.value + other.value > u64::MAX {
                u64::MAX as int
            } else {
                self.value + other.value
            },
    {
        Gas { value: self.value.checked_add(other.value).unwrap_or(u64::MAX) }
    }
}

} // verus!
