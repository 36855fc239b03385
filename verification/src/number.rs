//! Ratios: decimal numbers between zero and one, used to take a share of
//! some costs.

use crate::num::{pow10, Num};
use vstd::prelude::*;

verus! {

/// A number between zero and one (inclusive).
#[derive(Clone, Copy, Debug)]
pub struct Ratio {
    inner: Num,
}

impl Ratio {
    /// A ratio is between zero and one.
    #[verifier::type_invariant]
    spec fn inv(self) -> bool {
        0 <= self.inner.value() <= pow10(28)
    }

    /// The ratio's number.
    pub closed spec fn num(self) -> Num {
        self.inner
    }

    /// The ratio of the given number, where it is between zero and one.
    pub fn new(value: Num) -> (r: Option<Ratio>)
        ensures
            r is Some <==> 0 <= value.value() <= pow10(28),
            r matches Some(x) ==> x.num() == value,
    {
        let one = Num::from_i64(1);
        if value.is_negative() || value.gt(&one) {
            None
        } else {
            Some(Ratio { inner: value })
        }
    }

    /// The ratio's number.
    pub fn inner(&self) -> (r: Num)
        ensures
            r == self.num(),
            0 <= r.value() <= pow10(28),
    {
        proof {
            use_type_invariant(self);
        }
        self.inner
    }
}

} // verus!
