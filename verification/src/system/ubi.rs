//! Systemic UBI parameters.

use crate::num::Num;
use vstd::prelude::*;

verus! {

/// Holds systemic UBI parameters.
#[derive(Clone, Copy, Debug)]
pub struct UBIParameters {
    /// The maximum balance a UBI account can hold
    pub ceiling: Num,
    /// How much UBI we get over time
    pub balance_per_day: Num,
}

impl UBIParameters {
    /// Create a new, empty params object (both values zero).
    pub fn new() -> (r: UBIParameters)
        ensures
            r.ceiling == Num::spec_zero(),
            r.balance_per_day == Num::spec_zero(),
    {
        UBIParameters { ceiling: Num::zero(), balance_per_day: Num::zero() }
    }
}

} // verus!
