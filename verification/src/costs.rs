//! Costs are a way to model disaggregate tracking of labor and resources while
//! treating the result like any number that can be added, subtracted,
//! multiplied, or divided.
//!
//! A `Costs` object aggregates:
//!
//! - **credits** -- an aggregate total (in credit value) of the costs.
//! - **labor** -- how much total cost *in wages* it took to make something,
//!   per occupation.
//! - **labor hours** -- how many *total hours* it took, per occupation.
//! - **resource** -- the amount of each resource, in a standard unit.
//! - **currency** -- the amount of currency that went into purchasing inputs.
//!
//! Costs are aggregated at the output of each economic node: companies are
//! aggregators (on the input side) and dividers (on the output side) of costs.
//!
//! Operations that `rust_decimal` could not carry out (an overflow) give `None`
//! (or `Error::NumericOverflow`).

use crate::cost_map::{all_exact, entries_set, 
    all_storable, any_missing, any_negative, any_positive, combined_value, lookup, merge_exact, merge_ok,
    merged, scale_ok, scaled, set_value, storable, CostMap,
};
use crate::error::Error;
use crate::models::ids::{CurrencyID, OccupationID, ResourceSpecID};
use crate::num::{
    add_is_exact, canonical, in_bounds, is_normalized, lemma_canonical_value, spec_product, spec_sum, Num,
};
use vstd::prelude::*;

verus! {

/// What a `Costs` object holds.
pub struct CostsView {
    pub credits: Num,
    pub resource: Map<Seq<char>, Num>,
    pub labor: Map<Seq<char>, Num>,
    pub labor_hours: Map<Seq<char>, Num>,
    pub currency: Map<Seq<char>, Num>,
}

impl CostsView {
    /// The empty costs.
    pub open spec fn empty() -> CostsView {
        CostsView {
            credits: Num::spec_zero(),
            resource: Map::empty(),
            labor: Map::empty(),
            labor_hours: Map::empty(),
            currency: Map::empty(),
        }
    }

    /// Every bucket holds only storable values and the credits are in bounds.
    pub open spec fn well_formed(self) -> bool {
        &&& in_bounds(self.credits)
        &&& all_storable(self.resource)
        &&& all_storable(self.labor)
        &&& all_storable(self.labor_hours)
        &&& all_storable(self.currency)
        &&& self.resource.dom().finite()
        &&& self.labor.dom().finite()
        &&& self.labor_hours.dom().finite()
        &&& self.currency.dom().finite()
    }

    /// The costs after tracking `val` of resource `k` worth
    /// `credit_value_per_unit` each.
    pub open spec fn with_resource(self, k: Seq<char>, val: Num, credit_value_per_unit: Num) -> Option<
        CostsView,
    > {
        match (spec_sum(lookup(self.resource, k), val), spec_product(val, credit_value_per_unit)) {
            (Some(e), Some(p)) => match spec_sum(self.credits, p) {
                Some(c) => Some(
                    CostsView {
                        credits: canonical(c),
                        resource: set_value(self.resource, k, canonical(e)),
                        ..self
                    },
                ),
                None => None,
            },
            _ => None,
        }
    }

    /// The costs after tracking `val` of wages for occupation `k`.
    pub open spec fn with_labor(self, k: Seq<char>, val: Num) -> Option<CostsView> {
        match (spec_sum(lookup(self.labor, k), val), spec_sum(self.credits, val)) {
            (Some(e), Some(c)) => Some(
                CostsView {
                    credits: canonical(c),
                    labor: set_value(self.labor, k, canonical(e)),
                    ..self
                },
            ),
            _ => None,
        }
    }

    /// The costs after tracking `val` hours of occupation `k`.
    pub open spec fn with_labor_hours(self, k: Seq<char>, val: Num) -> Option<CostsView> {
        match spec_sum(lookup(self.labor_hours, k), val) {
            Some(e) => Some(
                CostsView {
                    credits: canonical(self.credits),
                    labor_hours: set_value(self.labor_hours, k, canonical(e)),
                    ..self
                },
            ),
            None => None,
        }
    }

    /// The costs after tracking `val` of currency `k` at `conversion_rate`.
    pub open spec fn with_currency(self, k: Seq<char>, val: Num, conversion_rate: Num) -> Option<
        CostsView,
    > {
        match (spec_sum(lookup(self.currency, k), val), spec_product(val, conversion_rate)) {
            (Some(e), Some(p)) => match spec_sum(self.credits, p) {
                Some(c) => Some(
                    CostsView {
                        credits: canonical(c),
                        currency: set_value(self.currency, k, canonical(e)),
                        ..self
                    },
                ),
                None => None,
            },
            _ => None,
        }
    }

    /// The same costs with another credit total.
    pub open spec fn with_credits(self, credits: Num) -> CostsView {
        CostsView { credits, ..self }
    }

    /// The same costs with the credit total normalized.
    pub open spec fn normalized(self) -> CostsView {
        CostsView { credits: canonical(self.credits), ..self }
    }

    /// The cost set is empty: no bucket holds a value other than zero (and
    /// as zeros are never stored, no bucket holds anything). The credit total
    /// is not looked at.
    pub open spec fn is_zero(self) -> bool {
        &&& !any_positive(self.resource) && !any_negative(self.resource)
        &&& !any_positive(self.labor) && !any_negative(self.labor)
        &&& !any_positive(self.labor_hours) && !any_negative(self.labor_hours)
        &&& !any_positive(self.currency) && !any_negative(self.currency)
    }

    /// Some value in some bucket is below zero.
    pub open spec fn is_lt_0(self) -> bool {
        any_negative(self.resource) || any_negative(self.labor) || any_negative(self.labor_hours)
            || any_negative(self.currency)
    }

    /// Every value in every bucket is above zero, and there is at least one.
    pub open spec fn is_gt_0(self) -> bool {
        &&& !(any_negative(self.resource) || any_negative(self.labor) || any_negative(
            self.labor_hours,
        ) || any_negative(self.currency))
        &&& (self.resource.len() + self.labor.len() + self.labor_hours.len() + self.currency.len()
            > 0)
    }

    /// Whether adding (or, with `negate`, subtracting) `other` stays within
    /// bounds.
    pub open spec fn combine_ok(self, other: CostsView, negate: bool) -> bool {
        &&& (if negate {
            crate::num::spec_difference(self.credits, other.credits) is Some
        } else {
            spec_sum(self.credits, other.credits) is Some
        })
        &&& merge_ok(self.resource, other.resource, negate)
        &&& merge_ok(self.labor, other.labor, negate)
        &&& merge_ok(self.labor_hours, other.labor_hours, negate)
        &&& merge_ok(self.currency, other.currency, negate)
    }

    /// `self + other` (or `self - other` with `negate`), bucket by bucket.
    pub open spec fn combined(self, other: CostsView, negate: bool) -> CostsView {
        CostsView {
            credits: canonical(
                (if negate {
                    crate::num::spec_difference(self.credits, other.credits)
                } else {
                    spec_sum(self.credits, other.credits)
                }).unwrap(),
            ),
            resource: merged(self.resource, other.resource, negate),
            labor: merged(self.labor, other.labor, negate),
            labor_hours: merged(self.labor_hours, other.labor_hours, negate),
            currency: merged(self.currency, other.currency, negate),
        }
    }

    /// The credit total of `self + other` (or `self - other` with `negate`).
    pub open spec fn credit_combination(self, other: CostsView, negate: bool) -> Option<Num> {
        if negate {
            crate::num::spec_difference(self.credits, other.credits)
        } else {
            spec_sum(self.credits, other.credits)
        }
    }

    /// Where adding (or subtracting) a value is within `rust_decimal`'s exact
    /// range (`add_is_exact`), the result is the exact sum (or difference).
    pub open spec fn combine_exact(self, other: CostsView, negate: bool) -> bool {
        &&& add_is_exact(self.credits, other.credits, negate) ==> (self.credit_combination(
            other,
            negate,
        ) matches Some(n) && in_bounds(n) && n.value() == (if negate {
            self.credits.value() - other.credits.value()
        } else {
            self.credits.value() + other.credits.value()
        }))
        &&& merge_exact(self.resource, other.resource, negate)
        &&& merge_exact(self.labor, other.labor, negate)
        &&& merge_exact(self.labor_hours, other.labor_hours, negate)
        &&& merge_exact(self.currency, other.currency, negate)
    }

    /// Whether adding (or, with `negate`, subtracting) `other` is exact for
    /// the credits and for every value: each exact result fits
    /// `rust_decimal`'s mantissa at the larger of the two scales.
    pub open spec fn all_exact(self, other: CostsView, negate: bool) -> bool {
        &&& add_is_exact(self.credits, other.credits, negate)
        &&& all_exact(self.resource, other.resource, negate)
        &&& all_exact(self.labor, other.labor, negate)
        &&& all_exact(self.labor_hours, other.labor_hours, negate)
        &&& all_exact(self.currency, other.currency, negate)
    }

    /// `self + other`, where it stays within bounds.
    pub open spec fn plus(self, other: CostsView) -> Option<CostsView> {
        if self.combine_ok(other, false) {
            Some(self.combined(other, false))
        } else {
            None
        }
    }

    /// `self - other`, where it stays within bounds.
    pub open spec fn minus(self, other: CostsView) -> Option<CostsView> {
        if self.combine_ok(other, true) {
            Some(self.combined(other, true))
        } else {
            None
        }
    }

    /// Whether scaling every value by `f` stays within bounds.
    pub open spec fn scale_ok(self, f: Num, divide: bool) -> bool {
        &&& (if divide {
            crate::num::spec_quotient(self.credits, f) is Some
        } else {
            spec_product(self.credits, f) is Some
        })
        &&& scale_ok(self.resource, f, divide)
        &&& scale_ok(self.labor, f, divide)
        &&& scale_ok(self.labor_hours, f, divide)
        &&& scale_ok(self.currency, f, divide)
    }

    /// Every value multiplied (or divided) by `f`.
    pub open spec fn scaled(self, f: Num, divide: bool) -> CostsView {
        CostsView {
            credits: canonical(
                (if divide {
                    crate::num::spec_quotient(self.credits, f)
                } else {
                    spec_product(self.credits, f)
                }).unwrap(),
            ),
            resource: scaled(self.resource, f, divide),
            labor: scaled(self.labor, f, divide),
            labor_hours: scaled(self.labor_hours, f, divide),
            currency: scaled(self.currency, f, divide),
        }
    }

    /// `self * f`, where it stays within bounds.
    pub open spec fn times(self, f: Num) -> Option<CostsView> {
        if self.scale_ok(f, false) {
            Some(self.scaled(f, false))
        } else {
            None
        }
    }

    /// `self / f`: unchanged when `self.is_zero()`, else every value divided,
    /// where it stays within bounds.
    pub open spec fn divided_by(self, f: Num) -> Option<CostsView> {
        if self.is_zero() {
            Some(self)
        } else if self.scale_ok(f, true) {
            Some(self.scaled(f, true))
        } else {
            None
        }
    }

    /// Whether two costs are equal: the same credit value and the same
    /// buckets.
    pub open spec fn same(self, other: CostsView) -> bool {
        &&& self.credits.value() == other.credits.value()
        &&& self.resource == other.resource
        &&& self.labor == other.labor
        &&& self.labor_hours == other.labor_hours
        &&& self.currency == other.currency
    }
}

/// Whether subtracting `b` from `a` leaves some negative value (`None` where
/// the subtraction overflows).
pub open spec fn spec_is_sub_lt_0(a: CostsView, b: CostsView) -> Option<bool> {
    match a.minus(b) {
        Some(c) => Some(c.is_lt_0()),
        None => None,
    }
}

/// The view of optional costs.
pub open spec fn opt_costs_view(c: Option<Costs>) -> Option<CostsView> {
    match c {
        Some(x) => Some(x@),
        None => None,
    }
}

/// A copy of optional costs.
pub fn clone_opt_costs(c: &Option<Costs>) -> (r: Option<Costs>)
    ensures
        opt_costs_view(r) == opt_costs_view(*c),
{
    match c {
        Some(x) => Some(x.clone()),
        None => None,
    }
}

/// A container for the various types of disaggregate costs we want to store
/// and track.
#[derive(Debug)]
pub struct Costs {
    credits: Num,
    resource: CostMap,
    labor: CostMap,
    labor_hours: CostMap,
    currency: CostMap,
}

impl View for Costs {
    type V = CostsView;

    closed spec fn view(&self) -> CostsView {
        CostsView {
            credits: self.credits,
            resource: self.resource@,
            labor: self.labor@,
            labor_hours: self.labor_hours@,
            currency: self.currency@,
        }
    }
}

impl Costs {
    #[verifier::type_invariant]
    closed spec fn inv(self) -> bool {
        &&& self.resource.wf()
        &&& self.labor.wf()
        &&& self.labor_hours.wf()
        &&& self.currency.wf()
    }

    /// Every `Costs` value is well formed.
    pub fn lemma_well_formed(&self)
        ensures
            self@.well_formed(),
    {
        proof {
            use_type_invariant(self);
            use_type_invariant(&self.credits);
            self.resource.lemma_wf();
            self.labor.lemma_wf();
            self.labor_hours.lemma_wf();
            self.currency.lemma_wf();
        }
    }

    /// Creates an empty cost object.
    pub fn new() -> (r: Costs)
        ensures
            r@ == CostsView::empty(),
    {
        Costs {
            credits: Num::zero(),
            resource: CostMap::new(),
            labor: CostMap::new(),
            labor_hours: CostMap::new(),
            currency: CostMap::new(),
        }
    }

    /// The labor values, in the order they are held.
    pub closed spec fn labor_values(&self) -> Seq<Num> {
        self.labor.value_seq()
    }

    /// The labor occupations, in the order their values are held.
    pub closed spec fn labor_keys(&self) -> Seq<Seq<char>> {
        self.labor.key_seq()
    }

    /// The labor values are the labor bucket's values, one for each of its
    /// occupations: each occupation comes once, and the values are those of
    /// `self@.labor` at the occupations, in the order `labor_keys` gives.
    pub fn lemma_labor_values(&self)
        ensures
            self.labor_keys().no_duplicates(),
            self.labor_keys().to_set() == self@.labor.dom(),
            self.labor_values() == self.labor_keys().map_values(|k: Seq<char>| self@.labor[k]),
            self.labor_values().len() == self@.labor.len(),
            self.labor_values().to_multiset() == self.labor_keys().map_values(
                |k: Seq<char>| self@.labor[k],
            ).to_multiset(),
    {
        proof {
            use_type_invariant(self);
            self.labor.lemma_value_seq();
        }
    }

    /// The labor values, in the order they are held.
    pub fn labor_amounts(&self) -> (r: Vec<Num>)
        ensures
            r@ == self.labor_values(),
    {
        self.labor.values()
    }

    /// Costs made of a credit value and the entries of each bucket (as
    /// stored costs are read back).
    pub fn from_parts(
        credits: Num,
        resource: &Vec<(String, Num)>,
        labor: &Vec<(String, Num)>,
        labor_hours: &Vec<(String, Num)>,
        currency: &Vec<(String, Num)>,
    ) -> (r: Costs)
        ensures
            r@ == (CostsView {
                credits,
                resource: entries_set(resource@),
                labor: entries_set(labor@),
                labor_hours: entries_set(labor_hours@),
                currency: entries_set(currency@),
            }),
    {
        Costs {
            credits,
            resource: CostMap::from_entries(resource),
            labor: CostMap::from_entries(labor),
            labor_hours: CostMap::from_entries(labor_hours),
            currency: CostMap::from_entries(currency),
        }
    }

    /// The resource bucket: the amount of each resource.
    pub fn resource(&self) -> (r: &CostMap)
        ensures
            r@ == self@.resource,
            r.wf(),
    {
        proof {
            use_type_invariant(self);
        }
        &self.resource
    }

    /// The labor bucket: the wages paid, per occupation.
    pub fn labor(&self) -> (r: &CostMap)
        ensures
            r@ == self@.labor,
            r.wf(),
    {
        proof {
            use_type_invariant(self);
        }
        &self.labor
    }

    /// The labor hours bucket: the hours worked, per occupation.
    pub fn labor_hours(&self) -> (r: &CostMap)
        ensures
            r@ == self@.labor_hours,
            r.wf(),
    {
        proof {
            use_type_invariant(self);
        }
        &self.labor_hours
    }

    /// The currency bucket: the amount of each currency.
    pub fn currency(&self) -> (r: &CostMap)
        ensures
            r@ == self@.currency,
            r.wf(),
    {
        proof {
            use_type_invariant(self);
        }
        &self.currency
    }

    /// The aggregate credit value.
    pub fn credits(&self) -> (r: Num)
        ensures
            r == self@.credits,
    {
        self.credits
    }

    /// Standard abstraction around decimal rounding (to 16 places).
    pub fn do_round(val: &Num) -> (r: Num)
        ensures
            r == crate::num::spec_round_dp(*val, 16),
    {
        val.round_dp(16)
    }

    /// Make sure this Costs object is in a standard format: values normalized,
    /// zero values removed. Every value is already so but for the credit
    /// total, which `track_credits` can leave unnormalized.
    pub fn normalize(&mut self)
        ensures
            final(self)@ == old(self)@.normalized(),
    {
        proof {
            use_type_invariant(&*self);
        }
        self.credits = self.credits.normalize();
    }

    /// A resource value, defaulting to zero if not found.
    pub fn get_resource(&self, id: &ResourceSpecID) -> (r: Num)
        ensures
            r == lookup(self@.resource, id@),
    {
        proof {
            use_type_invariant(self);
        }
        self.resource.get(id.as_string())
    }

    /// A labor value, defaulting to zero if not found.
    pub fn get_labor(&self, id: &OccupationID) -> (r: Num)
        ensures
            r == lookup(self@.labor, id@),
    {
        proof {
            use_type_invariant(self);
        }
        self.labor.get(id.as_string())
    }

    /// A labor hours value, defaulting to zero if not found.
    pub fn get_labor_hours(&self, id: &OccupationID) -> (r: Num)
        ensures
            r == lookup(self@.labor_hours, id@),
    {
        proof {
            use_type_invariant(self);
        }
        self.labor_hours.get(id.as_string())
    }

    /// A currency value, defaulting to zero if not found.
    pub fn get_currency(&self, id: &CurrencyID) -> (r: Num)
        ensures
            r == lookup(self@.currency, id@),
    {
        proof {
            use_type_invariant(self);
        }
        self.currency.get(id.as_string())
    }

    /// Create a new Cost, with one resource entry.
    pub fn new_with_resource(id: &ResourceSpecID, resource: Num, credit_value_per_unit: Num) -> (r:
        Result<Costs, Error>)
        requires
            resource.value() >= 0,
        ensures
            r is Ok <==> CostsView::empty().with_resource(id@, resource, credit_value_per_unit) is Some,
            r matches Ok(c) ==> c@ == CostsView::empty().with_resource(
                id@,
                resource,
                credit_value_per_unit,
            ).unwrap(),
            r is Err ==> r == Err::<Costs, Error>(Error::NumericOverflow),
    {
        let mut costs = Costs::new();
        match costs.track_resource(id, resource, credit_value_per_unit) {
            Ok(()) => Ok(costs),
            Err(e) => Err(e),
        }
    }

    /// Create a new Cost, with one labor entry.
    pub fn new_with_labor(id: &OccupationID, labor: Num) -> (r: Result<Costs, Error>)
        requires
            labor.value() >= 0,
        ensures
            r is Ok <==> CostsView::empty().with_labor(id@, labor) is Some,
            r matches Ok(c) ==> c@ == CostsView::empty().with_labor(id@, labor).unwrap(),
            r matches Ok(c) ==> lookup(c@.labor, id@).value() == labor.value(),
            r is Err ==> r == Err::<Costs, Error>(Error::NumericOverflow),
    {
        let mut costs = Costs::new();
        proof {
            Num::lemma_zero();
        }
        match costs.track_labor(id, labor) {
            Ok(()) => Ok(costs),
            Err(e) => Err(e),
        }
    }

    /// Create a new Cost, with one labor_hours entry.
    pub fn new_with_labor_hours(id: &OccupationID, labor_hours: Num) -> (r: Result<Costs, Error>)
        requires
            labor_hours.value() >= 0,
        ensures
            r is Ok <==> CostsView::empty().with_labor_hours(id@, labor_hours) is Some,
            r matches Ok(c) ==> c@ == CostsView::empty().with_labor_hours(id@, labor_hours).unwrap(),
            r is Err ==> r == Err::<Costs, Error>(Error::NumericOverflow),
    {
        let mut costs = Costs::new();
        match costs.track_labor_hours(id, labor_hours) {
            Ok(()) => Ok(costs),
            Err(e) => Err(e),
        }
    }

    /// Create a new Cost, with one currency entry.
    pub fn new_with_currency(id: &CurrencyID, currency: Num, conversion_rate: Num) -> (r: Result<
        Costs,
        Error,
    >)
        requires
            currency.value() >= 0,
        ensures
            r is Ok <==> CostsView::empty().with_currency(id@, currency, conversion_rate) is Some,
            r matches Ok(c) ==> c@ == CostsView::empty().with_currency(
                id@,
                currency,
                conversion_rate,
            ).unwrap(),
            r is Err ==> r == Err::<Costs, Error>(Error::NumericOverflow),
    {
        let mut costs = Costs::new();
        match costs.track_currency(id, currency, conversion_rate) {
            Ok(()) => Ok(costs),
            Err(e) => Err(e),
        }
    }

    /// Add a resource cost to this Cost: the amount of resource goes into the
    /// resource bucket and its credit value (`val * credit_value_per_unit`)
    /// into the credit total. The given value must be >= 0.
    pub fn track_resource(&mut self, id: &ResourceSpecID, val: Num, credit_value_per_unit: Num) -> (r:
        Result<(), Error>)
        requires
            val.value() >= 0,
        ensures
            r is Ok <==> old(self)@.with_resource(id@, val, credit_value_per_unit) is Some,
            r is Ok ==> final(self)@ == old(self)@.with_resource(
                id@,
                val,
                credit_value_per_unit,
            ).unwrap(),
            r is Err ==> r == Err::<(), Error>(Error::NumericOverflow) && final(self)@ == old(self)@,
    {
        proof {
            use_type_invariant(&*self);
        }
        let cur = self.resource.get(id.as_string());
        let entry = cur.checked_add(&val);
        let credit_value = val.checked_mul(&credit_value_per_unit);
        match (entry, credit_value) {
            (Some(entry), Some(credit_value)) => match self.credits.checked_add(&credit_value) {
                Some(credits) => {
                    let mut m = self.resource.clone();
                    m.set(id.as_string(), entry.normalize());
                    self.resource = m;
                    self.credits = credits.normalize();
                    Ok(())
                },
                None => Err(Error::NumericOverflow),
            },
            _ => Err(Error::NumericOverflow),
        }
    }

    /// Add a labor cost to this Cost: the wage goes into the labor bucket and
    /// into the credit total. The given value must be >= 0.
    pub fn track_labor(&mut self, id: &OccupationID, val: Num) -> (r: Result<(), Error>)
        requires
            val.value() >= 0,
        ensures
            r is Ok <==> old(self)@.with_labor(id@, val) is Some,
            r is Ok ==> final(self)@ == old(self)@.with_labor(id@, val).unwrap(),
            (r is Ok && lookup(old(self)@.labor, id@).value() == 0) ==> lookup(
                final(self)@.labor,
                id@,
            ).value() == val.value(),
            (add_is_exact(lookup(old(self)@.labor, id@), val, false) && add_is_exact(
                old(self)@.credits,
                val,
                false,
            )) ==> (r is Ok && lookup(final(self)@.labor, id@).value() == lookup(
                old(self)@.labor,
                id@,
            ).value() + val.value() && final(self)@.credits.value() == old(self)@.credits.value()
                + val.value()),
            r is Err ==> r == Err::<(), Error>(Error::NumericOverflow) && final(self)@ == old(self)@,
    {
        proof {
            use_type_invariant(&*self);
        }
        let cur = self.labor.get(id.as_string());
        let entry = cur.checked_add(&val);
        let credits = self.credits.checked_add(&val);
        match (entry, credits) {
            (Some(entry), Some(credits)) => {
                let ne = entry.normalize();
                let mut m = self.labor.clone();
                m.set(id.as_string(), ne);
                proof {
                    Num::lemma_zero();
                    assert(lookup(m@, id@).value() == ne.value());
                }
                self.labor = m;
                self.credits = credits.normalize();
                Ok(())
            },
            _ => Err(Error::NumericOverflow),
        }
    }

    /// Add a labor hours cost to this Cost (hours do not count toward the
    /// credit total). The given value must be >= 0.
    pub fn track_labor_hours(&mut self, id: &OccupationID, val: Num) -> (r: Result<(), Error>)
        requires
            val.value() >= 0,
        ensures
            r is Ok <==> old(self)@.with_labor_hours(id@, val) is Some,
            r is Ok ==> final(self)@ == old(self)@.with_labor_hours(id@, val).unwrap(),
            (r is Ok && lookup(old(self)@.labor_hours, id@).value() == 0) ==> lookup(
                final(self)@.labor_hours,
                id@,
            ).value() == val.value(),
            add_is_exact(lookup(old(self)@.labor_hours, id@), val, false) ==> (r is Ok && lookup(
                final(self)@.labor_hours,
                id@,
            ).value() == lookup(old(self)@.labor_hours, id@).value() + val.value()),
            r is Err ==> r == Err::<(), Error>(Error::NumericOverflow) && final(self)@ == old(self)@,
    {
        proof {
            use_type_invariant(&*self);
        }
        let cur = self.labor_hours.get(id.as_string());
        match cur.checked_add(&val) {
            Some(entry) => {
                let ne = entry.normalize();
                let mut m = self.labor_hours.clone();
                m.set(id.as_string(), ne);
                proof {
                    Num::lemma_zero();
                    assert(lookup(m@, id@).value() == ne.value());
                }
                self.labor_hours = m;
                self.credits = self.credits.normalize();
                Ok(())
            },
            None => Err(Error::NumericOverflow),
        }
    }

    /// Add a currency cost to this Cost: the amount goes into the currency
    /// bucket and its credit value (`val * conversion_rate`) into the credit
    /// total. The given value must be >= 0.
    pub fn track_currency(&mut self, id: &CurrencyID, val: Num, conversion_rate: Num) -> (r: Result<
        (),
        Error,
    >)
        requires
            val.value() >= 0,
        ensures
            r is Ok <==> old(self)@.with_currency(id@, val, conversion_rate) is Some,
            r is Ok ==> final(self)@ == old(self)@.with_currency(id@, val, conversion_rate).unwrap(),
            r is Err ==> r == Err::<(), Error>(Error::NumericOverflow) && final(self)@ == old(self)@,
    {
        proof {
            use_type_invariant(&*self);
        }
        let cur = self.currency.get(id.as_string());
        let entry = cur.checked_add(&val);
        let credit_value = val.checked_mul(&conversion_rate);
        match (entry, credit_value) {
            (Some(entry), Some(credit_value)) => match self.credits.checked_add(&credit_value) {
                Some(credits) => {
                    let mut m = self.currency.clone();
                    m.set(id.as_string(), entry.normalize());
                    self.currency = m;
                    self.credits = credits.normalize();
                    Ok(())
                },
                None => Err(Error::NumericOverflow),
            },
            _ => Err(Error::NumericOverflow),
        }
    }

    /// Add a credit cost to this Cost.
    pub fn track_credits(&mut self, val: Num) -> (r: Result<(), Error>)
        ensures
            r is Ok <==> spec_sum(old(self)@.credits, val) is Some,
            r is Ok ==> final(self)@ == old(self)@.with_credits(spec_sum(old(self)@.credits, val).unwrap()),
            r is Err ==> r == Err::<(), Error>(Error::NumericOverflow),
    {
        proof {
            use_type_invariant(&*self);
        }
        match self.credits.checked_add(&val) {
            Some(c) => {
                self.credits = c;
                Ok(())
            },
            None => Err(Error::NumericOverflow),
        }
    }

    /// Whether the cost set is empty (no bucket holds a value other than
    /// zero).
    pub fn is_zero(&self) -> (r: bool)
        ensures
            r == self@.is_zero(),
    {
        proof {
            use_type_invariant(self);
        }
        !(self.resource.any_positive() || self.resource.any_negative()
            || self.labor.any_positive() || self.labor.any_negative()
            || self.labor_hours.any_positive() || self.labor_hours.any_negative()
            || self.currency.any_positive() || self.currency.any_negative())
    }

    /// Whether any value in any bucket is below zero.
    pub fn is_lt_0(&self) -> (r: bool)
        ensures
            r == self@.is_lt_0(),
    {
        proof {
            use_type_invariant(self);
        }
        self.resource.any_negative() || self.labor.any_negative()
            || self.labor_hours.any_negative() || self.currency.any_negative()
    }

    /// Whether the costs are greater than zero: every value in every bucket
    /// is above zero and there is at least one.
    pub fn is_gt_0(&self) -> (r: bool)
        ensures
            r == self@.is_gt_0(),
    {
        proof {
            use_type_invariant(self);
        }
        if self.is_lt_0() {
            return false;
        }
        let n1 = self.resource.len();
        let n2 = self.labor.len();
        let n3 = self.labor_hours.len();
        let n4 = self.currency.len();
        n1 > 0 || n2 > 0 || n3 > 0 || n4 > 0
    }

    /// Whether dividing `costs1` by `costs2`, bucket by bucket, would divide
    /// by zero: some key held in `costs1` is missing from `costs2`.
    pub fn is_div_by_0(costs1: &Costs, costs2: &Costs) -> (r: bool)
        ensures
            r == (any_missing(costs1@.resource, costs2@.resource) || any_missing(
                costs1@.labor,
                costs2@.labor,
            ) || any_missing(costs1@.labor_hours, costs2@.labor_hours) || any_missing(
                costs1@.currency,
                costs2@.currency,
            )),
    {
        proof {
            use_type_invariant(costs1);
            use_type_invariant(costs2);
        }
        costs1.resource.any_missing_from(&costs2.resource) || costs1.labor.any_missing_from(
            &costs2.labor,
        ) || costs1.labor_hours.any_missing_from(&costs2.labor_hours)
            || costs1.currency.any_missing_from(&costs2.currency)
    }

    fn combine(self, other: &Costs, negate: bool) -> (r: Option<Costs>)
        ensures
            r is Some <==> self@.combine_ok(other@, negate),
            r matches Some(c) ==> c@ == self@.combined(other@, negate),
            r is Some ==> self@.combine_exact(other@, negate),
    {
        proof {
            use_type_invariant(&self);
            use_type_invariant(other);
        }
        let ghost v = self@;
        let Costs { credits, mut resource, mut labor, mut labor_hours, mut currency } = self;
        let credits = if negate {
            credits.checked_sub(&other.credits)
        } else {
            credits.checked_add(&other.credits)
        };
        let credits = match credits {
            Some(c) => {
                proof {
                    use_type_invariant(&c);
                }
                c.normalize()
            },
            None => {
                return None;
            },
        };
        let ok1 = resource.merge(&other.resource, negate);
        let ok2 = labor.merge(&other.labor, negate);
        let ok3 = labor_hours.merge(&other.labor_hours, negate);
        let ok4 = currency.merge(&other.currency, negate);
        if ok1 && ok2 && ok3 && ok4 {
            Some(Costs { credits, resource, labor, labor_hours, currency })
        } else {
            None
        }
    }

    /// Add two costs together, bucket by bucket. `None` where it overflows.
    pub fn add(self, other: Costs) -> (r: Option<Costs>)
        ensures
            r is Some <==> self@.plus(other@) is Some,
            r matches Some(c) ==> c@ == self@.plus(other@).unwrap(),
            r is Some ==> self@.combine_exact(other@, false),
    {
        self.combine(&other, false)
    }

    /// Subtract costs, bucket by bucket (negative values are allowed).
    /// `None` where it overflows.
    pub fn sub(self, other: Costs) -> (r: Option<Costs>)
        ensures
            r is Some <==> self@.minus(other@) is Some,
            r matches Some(c) ==> c@ == self@.minus(other@).unwrap(),
            r is Some ==> self@.combine_exact(other@, true),
    {
        self.combine(&other, true)
    }

    fn scale(self, f: Num, divide: bool) -> (r: Option<Costs>)
        ensures
            r is Some <==> self@.scale_ok(f, divide),
            r matches Some(c) ==> c@ == self@.scaled(f, divide),
    {
        proof {
            use_type_invariant(&self);
        }
        let credits = if divide {
            self.credits.checked_div(&f)
        } else {
            self.credits.checked_mul(&f)
        };
        let credits = match credits {
            Some(c) => c.normalize(),
            None => {
                return None;
            },
        };
        let resource = self.resource.scale(f, divide);
        let labor = self.labor.scale(f, divide);
        let labor_hours = self.labor_hours.scale(f, divide);
        let currency = self.currency.scale(f, divide);
        match (resource, labor, labor_hours, currency) {
            (Some(resource), Some(labor), Some(labor_hours), Some(currency)) => {
                Some(Costs { credits, resource, labor, labor_hours, currency })
            },
            _ => None,
        }
    }

    /// Multiply every value by `rhs`. `None` where it overflows.
    pub fn mul(self, rhs: Num) -> (r: Option<Costs>)
        ensures
            r is Some <==> self@.times(rhs) is Some,
            r matches Some(c) ==> c@ == self@.times(rhs).unwrap(),
    {
        self.scale(rhs, false)
    }

    /// Divide every value by `rhs`, negative values included. Empty costs are
    /// returned unchanged; otherwise `None` where it overflows.
    pub fn div(self, rhs: Num) -> (r: Option<Costs>)
        requires
            self@.is_zero() || rhs.value() != 0,
        ensures
            r is Some <==> self@.divided_by(rhs) is Some,
            r matches Some(c) ==> c@ == self@.divided_by(rhs).unwrap(),
    {
        if self.is_zero() {
            return Some(self);
        }
        self.scale(rhs, true)
    }

    /// Determine if subtracting one set of costs from another results in any
    /// negative values. `None` where the subtraction overflows.
    pub fn is_sub_lt_0(costs1: &Costs, costs2: &Costs) -> (r: Option<bool>)
        ensures
            r == spec_is_sub_lt_0(costs1@, costs2@),
    {
        match costs1.clone().sub(costs2.clone()) {
            Some(c) => Some(c.is_lt_0()),
            None => None,
        }
    }

    /// Whether two costs are equal (the same credit value and the same
    /// buckets).
    pub fn same_as(&self, other: &Costs) -> (r: bool)
        ensures
            r == self@.same(other@),
    {
        proof {
            use_type_invariant(self);
            use_type_invariant(other);
        }
        self.credits.eq_value(&other.credits) && self.resource.same_as(&other.resource)
            && self.labor.same_as(&other.labor) && self.labor_hours.same_as(&other.labor_hours)
            && self.currency.same_as(&other.currency)
    }
}

impl Clone for Costs {
    fn clone(&self) -> (r: Costs)
        ensures
            r@ == self@,
    {
        proof {
            use_type_invariant(self);
        }
        Costs {
            credits: self.credits,
            resource: self.resource.clone(),
            labor: self.labor.clone(),
            labor_hours: self.labor_hours.clone(),
            currency: self.currency.clone(),
        }
    }
}

impl PartialEq for Costs {
    fn eq(&self, other: &Costs) -> (r: bool) {
        self.same_as(other)
    }
}

impl vstd::std_specs::cmp::PartialEqSpecImpl for Costs {
    open spec fn obeys_eq_spec() -> bool {
        true
    }

    open spec fn eq_spec(&self, other: &Costs) -> bool {
        self@.same(other@)
    }
}

} // verus!

verus! {

/// The number minus one.
pub open spec fn minus_one() -> Num {
    Num::spec_new(-1, 0)
}

/// What releasing `amount` from `costs` gives: the costs left, or the error.
pub open spec fn spec_release(costs: CostsView, amount: CostsView) -> Result<CostsView, Error> {
    match spec_is_sub_lt_0(costs, amount) {
        None => Err(Error::NumericOverflow),
        Some(true) => Err(Error::NegativeCosts),
        Some(false) => Ok(costs.minus(amount).unwrap()),
    }
}

/// What receiving `amount` into `costs` gives: whether the costs changed and
/// the new costs, or the error.
pub open spec fn spec_receive(costs: CostsView, amount: CostsView) -> Result<(bool, CostsView), Error> {
    if amount.is_zero() {
        Ok((false, costs))
    } else {
        match amount.times(minus_one()) {
            None => Err(Error::NumericOverflow),
            Some(negative) => match spec_is_sub_lt_0(costs, negative) {
                None => Err(Error::NumericOverflow),
                Some(true) => Err(Error::NegativeCosts),
                Some(false) => match costs.plus(amount) {
                    None => Err(Error::NumericOverflow),
                    Some(c) => Ok((true, c)),
                },
            },
        }
    }
}

/// Release (give) `costs_to_release` from `costs`, reducing them, and return
/// the released costs. Fails, leaving `costs` as they were, where the costs
/// would fall below zero.
pub fn release_costs(costs: &mut Costs, costs_to_release: &Costs) -> (r: Result<Costs, Error>)
    ensures
        r is Ok <==> spec_release(old(costs)@, costs_to_release@) is Ok,
        r matches Ok(c) ==> c@ == costs_to_release@ && final(costs)@ == spec_release(
            old(costs)@,
            costs_to_release@,
        )->Ok_0,
        r matches Err(e) ==> e == spec_release(old(costs)@, costs_to_release@)->Err_0 && final(costs)@ == old(costs)@,
        r is Ok ==> old(costs)@.combine_exact(costs_to_release@, true),
        r is Ok ==> !final(costs)@.is_lt_0(),
{
    match Costs::is_sub_lt_0(costs, costs_to_release) {
        None => Err(Error::NumericOverflow),
        Some(true) => Err(Error::NegativeCosts),
        Some(false) => {
            match costs.clone().sub(costs_to_release.clone()) {
                Some(new_costs) => {
                    *costs = new_costs;
                    Ok(costs_to_release.clone())
                },
                None => Err(Error::NumericOverflow),
            }
        },
    }
}

/// Receive (take) `costs_to_receive` into `costs`, increasing them. Returns
/// whether the costs changed (they do not when the received costs are
/// empty). Fails, leaving `costs` as they were, where the result
/// would hold a value below zero.
pub fn receive_costs(costs: &mut Costs, costs_to_receive: &Costs) -> (r: Result<bool, Error>)
    ensures
        r is Ok <==> spec_receive(old(costs)@, costs_to_receive@) is Ok,
        r matches Ok(b) ==> b == spec_receive(old(costs)@, costs_to_receive@)->Ok_0.0
            && final(costs)@ == spec_receive(old(costs)@, costs_to_receive@)->Ok_0.1,
        r matches Err(e) ==> e == spec_receive(old(costs)@, costs_to_receive@)->Err_0 && final(costs)@ == old(costs)@,
        (r is Ok && !costs_to_receive@.is_zero()) ==> old(costs)@.combine_exact(costs_to_receive@, false),
{
    if costs_to_receive.is_zero() {
        return Ok(false);
    }
    let negative = match costs_to_receive.clone().mul(Num::new(-1, 0)) {
        Some(n) => n,
        None => {
            return Err(Error::NumericOverflow);
        },
    };
    match Costs::is_sub_lt_0(costs, &negative) {
        None => Err(Error::NumericOverflow),
        Some(true) => Err(Error::NegativeCosts),
        Some(false) => {
            match costs.clone().add(costs_to_receive.clone()) {
                Some(c) => {
                    *costs = c;
                    Ok(true)
                },
                None => Err(Error::NumericOverflow),
            }
        },
    }
}

/// Whether the values of a bucket, summed over the two sides, are the same
/// before and after.
pub open spec fn bucket_conserved(
    f0: Map<Seq<char>, Num>,
    t0: Map<Seq<char>, Num>,
    f1: Map<Seq<char>, Num>,
    t1: Map<Seq<char>, Num>,
) -> bool {
    forall|k: Seq<char>|
        #![trigger lookup(f1, k), lookup(t1, k)]
        lookup(f1, k).value() + lookup(t1, k).value() == lookup(f0, k).value() + lookup(t0, k).value()
}

/// Whether the costs of two objects, summed, are the same before and after:
/// the credits and every value of every bucket.
pub open spec fn costs_conserved(f0: CostsView, t0: CostsView, f1: CostsView, t1: CostsView) -> bool {
    &&& f1.credits.value() + t1.credits.value() == f0.credits.value() + t0.credits.value()
    &&& bucket_conserved(f0.resource, t0.resource, f1.resource, t1.resource)
    &&& bucket_conserved(f0.labor, t0.labor, f1.labor, t1.labor)
    &&& bucket_conserved(f0.labor_hours, t0.labor_hours, f1.labor_hours, t1.labor_hours)
    &&& bucket_conserved(f0.currency, t0.currency, f1.currency, t1.currency)
}

/// Whether moving the values of bucket `a` from `f` to `t` is exact for
/// every value: each exact result fits `rust_decimal`'s mantissa.
pub open spec fn bucket_move_exact(f: Map<Seq<char>, Num>, t: Map<Seq<char>, Num>, a: Map<Seq<char>, Num>) -> bool {
    forall|k: Seq<char>|
        #[trigger] a.contains_key(k) ==> add_is_exact(lookup(f, k), a[k], true) && add_is_exact(
            lookup(t, k),
            a[k],
            false,
        )
}

/// Whether moving `amount` from `from` to `to` is exact for the credits and
/// for every value (as it is unless an exact result would not fit
/// `rust_decimal`'s 96-bit mantissa at the larger scale).
pub open spec fn move_exact(from: CostsView, to: CostsView, amount: CostsView) -> bool {
    &&& add_is_exact(from.credits, amount.credits, true)
    &&& add_is_exact(to.credits, amount.credits, false)
    &&& bucket_move_exact(from.resource, to.resource, amount.resource)
    &&& bucket_move_exact(from.labor, to.labor, amount.labor)
    &&& bucket_move_exact(from.labor_hours, to.labor_hours, amount.labor_hours)
    &&& bucket_move_exact(from.currency, to.currency, amount.currency)
}

/// A bucket moved exactly is conserved.
proof fn lemma_bucket_conserved(f0: Map<Seq<char>, Num>, t0: Map<Seq<char>, Num>, a: Map<Seq<char>, Num>)
    requires
        merge_exact(f0, a, true),
        merge_exact(t0, a, false),
        bucket_move_exact(f0, t0, a),
    ensures
        bucket_conserved(f0, t0, merged(f0, a, true), merged(t0, a, false)),
{
    let f1 = merged(f0, a, true);
    let t1 = merged(t0, a, false);
    assert forall|k: Seq<char>|
        #![trigger lookup(f1, k), lookup(t1, k)]
        lookup(f1, k).value() + lookup(t1, k).value() == lookup(f0, k).value() + lookup(
            t0,
            k,
        ).value() by {
        Num::lemma_zero();
        if a.contains_key(k) {
            let n1 = combined_value(f0, a, k, true).unwrap();
            let n2 = combined_value(t0, a, k, false).unwrap();
            lemma_canonical_value(n1);
            lemma_canonical_value(n2);
            assert(lookup(f1, k).value() == n1.value());
            assert(lookup(t1, k).value() == n2.value());
        } else {
            assert(lookup(f1, k) == lookup(f0, k));
            assert(lookup(t1, k) == lookup(t0, k));
        }
    }
}

/// Moving costs exactly conserves them.
pub proof fn lemma_move_conserves(from: CostsView, to: CostsView, amount: CostsView)
    requires
        from.minus(amount) is Some,
        to.plus(amount) is Some,
        from.combine_exact(amount, true),
        to.combine_exact(amount, false),
        move_exact(from, to, amount),
    ensures
        costs_conserved(from, to, from.minus(amount).unwrap(), to.plus(amount).unwrap()),
{
    lemma_bucket_conserved(from.resource, to.resource, amount.resource);
    lemma_bucket_conserved(from.labor, to.labor, amount.labor);
    lemma_bucket_conserved(from.labor_hours, to.labor_hours, amount.labor_hours);
    lemma_bucket_conserved(from.currency, to.currency, amount.currency);
    let c1 = from.credit_combination(amount, true).unwrap();
    let c2 = to.credit_combination(amount, false).unwrap();
    lemma_canonical_value(c1);
    lemma_canonical_value(c2);
}

/// Move `amount` from `from` to `to`: release it from `from`, then receive
/// it into `to`. Returns whether `to` changed.
///
/// Costs are moved, never made or lost: where the move succeeds, `amount`
/// is not empty and `rust_decimal` adds and subtracts exactly,
/// the two objects hold between them, in credits and in every bucket, what
/// they held before.
pub fn move_costs(from: &mut Costs, to: &mut Costs, amount: &Costs) -> (r: Result<bool, Error>)
    ensures
        (r is Ok && !amount@.is_zero() && move_exact(old(from)@, old(to)@, amount@)) ==> costs_conserved(
            old(from)@,
            old(to)@,
            final(from)@,
            final(to)@,
        ),
        spec_release(old(from)@, amount@) is Err ==> r == Err::<bool, Error>(
            spec_release(old(from)@, amount@)->Err_0,
        ) && final(from)@ == old(from)@ && final(to)@ == old(to)@,
        spec_release(old(from)@, amount@) is Ok ==> final(from)@ == spec_release(
            old(from)@,
            amount@,
        )->Ok_0 && match spec_receive(old(to)@, amount@) {
            Ok(p) => r == Ok::<bool, Error>(p.0) && final(to)@ == p.1,
            Err(e) => r == Err::<bool, Error>(e) && final(to)@ == old(to)@,
        },
{
    let released = release_costs(from, amount)?;
    let r = receive_costs(to, &released);
    proof {
        if r is Ok && !amount@.is_zero() && move_exact(old(from)@, old(to)@, amount@) {
            lemma_move_conserves(old(from)@, old(to)@, amount@);
        }
    }
    r
}

} // verus!
