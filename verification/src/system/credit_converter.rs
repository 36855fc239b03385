//! Reducing a set of costs to a single credit value, which can be compared
//! with another.

use crate::costs::Costs;
use crate::error::Error;
use crate::models::ids::{CurrencyID, ResourceSpecID};
use crate::num::{spec_sum, Num};
use vstd::prelude::*;

verus! {

/// The sum of some numbers, added in order (`None` where an addition
/// overflows).
pub open spec fn sum_in_order(s: Seq<Num>) -> Option<Num>
    decreases s.len(),
{
    if s.len() == 0 {
        Some(Num::spec_zero())
    } else {
        match sum_in_order(s.drop_last()) {
            Some(t) => spec_sum(t, s.last()),
            None => None,
        }
    }
}

/// Reduces a set of costs into a single decimal value, which can be easily
/// compared with another value.
#[derive(Debug)]
pub struct CreditConverter {}

impl CreditConverter {
    /// Create a new credit converter.
    pub fn new() -> (r: CreditConverter) {
        CreditConverter {  }
    }

    /// The credit value of an amount of a currency: none, as no conversion
    /// information exists yet.
    fn currency(&self, id: &CurrencyID, value: &Num) -> (r: Result<Num, Error>)
        ensures
            r == Ok::<Num, Error>(Num::spec_zero()),
    {
        Ok(Num::zero())
    }

    /// The credit value of an amount of a resource: none, as no conversion
    /// information exists yet.
    fn resource(&self, id: &ResourceSpecID, value: &Num) -> (r: Result<Num, Error>)
        ensures
            r == Ok::<Num, Error>(Num::spec_zero()),
    {
        Ok(Num::zero())
    }

    /// Convert costs into a single credit value: currencies and resources
    /// have no credit value yet, and labor costs are credit costs, so the
    /// result is the sum of the labor values (`NumericOverflow` where the sum
    /// overflows).
    pub fn reduce(&self, costs: &Costs) -> (r: Result<Num, Error>)
        ensures
            match sum_in_order(costs.labor_values()) {
                Some(v) => r == Ok::<Num, Error>(v),
                None => r == Err::<Num, Error>(Error::NumericOverflow),
            },
    {
        let values = costs.labor_amounts();
        let mut credit_value = Num::zero();
        let mut i: usize = 0;
        while i < values.len()
            invariant
                i <= values@.len(),
                values@ == costs.labor_values(),
                sum_in_order(values@.subrange(0, i as int)) == Some(credit_value),
            decreases values.len() - i,
        {
            let ghost before = values@.subrange(0, i as int);
            assert(values@.subrange(0, i + 1).drop_last() =~= before);
            credit_value = match credit_value.checked_add(&values[i]) {
                Some(v) => v,
                None => {
                    proof {
                        lemma_overflow_stays(values@, i as int + 1);
                    }
                    return Err(Error::NumericOverflow);
                },
            };
            i = i + 1;
        }
        assert(values@.subrange(0, i as int) =~= values@);
        Ok(credit_value)
    }
}

/// Once an addition overflows, the whole sum does.
proof fn lemma_overflow_stays(s: Seq<Num>, n: int)
    requires
        0 <= n <= s.len(),
        sum_in_order(s.subrange(0, n)) is None,
    ensures
        sum_in_order(s) is None,
    decreases s.len() - n,
{
    if n < s.len() {
        assert(s.subrange(0, n + 1).drop_last() =~= s.subrange(0, n));
        lemma_overflow_stays(s, n + 1);
    } else {
        assert(s.subrange(0, n) =~= s);
    }
}

} // verus!
