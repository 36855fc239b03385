//! Measurements: a numeric value with its unit of measure (such as 6
//! kilograms, or 3.5 hours), and the arithmetic the event processor does on
//! resource quantities.

use crate::error::Error;
use crate::num::{add_is_exact, spec_difference, spec_sum, Num};
use vstd::prelude::*;

verus! {

/// A unit of measure, by name (`"one"`, `"hour"`, `"kilogram"`, ...).
#[derive(Debug, Eq, Hash)]
pub struct Unit {
    name: String,
}

impl View for Unit {
    type V = Seq<char>;

    closed spec fn view(&self) -> Seq<char> {
        self.name@
    }
}

impl Unit {
    /// A unit by name.
    pub fn new(name: &str) -> (r: Unit)
        ensures
            r@ == name@,
    {
        Unit { name: name.to_string() }
    }

    /// The name of the unit of time that labor is recorded in.
    pub open spec fn hour_name() -> Seq<char> {
        "hour"@
    }

    /// Hours.
    pub fn hour() -> (r: Unit)
        ensures
            r@ == Unit::hour_name(),
    {
        Unit::new("hour")
    }

    /// Whether this is the hour unit.
    pub fn is_hour(&self) -> (r: bool)
        ensures
            r == (self@ == Unit::hour_name()),
    {
        let h = Unit::hour();
        self.name == h.name
    }

    /// The unit's name.
    pub fn as_str(&self) -> (r: &str)
        ensures
            r@ == self@,
    {
        self.name.as_str()
    }
}

impl Clone for Unit {
    fn clone(&self) -> (r: Unit)
        ensures
            r == *self,
    {
        Unit { name: self.name.clone() }
    }
}

impl PartialEq for Unit {
    fn eq(&self, other: &Unit) -> (r: bool) {
        self.name == other.name
    }
}

impl vstd::std_specs::cmp::PartialEqSpecImpl for Unit {
    open spec fn obeys_eq_spec() -> bool {
        true
    }

    open spec fn eq_spec(&self, other: &Unit) -> bool {
        self@ == other@
    }
}

/// A numeric value with its unit of measure.
#[derive(Debug)]
pub struct Measure {
    pub has_numerical_value: Num,
    pub has_unit: Unit,
}

/// What a measure holds: its number and the name of its unit.
pub struct MeasureView {
    pub value: Num,
    pub unit: Seq<char>,
}

impl View for Measure {
    type V = MeasureView;

    open spec fn view(&self) -> MeasureView {
        MeasureView { value: self.has_numerical_value, unit: self.has_unit@ }
    }
}

/// Two measures are equal when their numbers have the same value and their
/// units the same name.
pub open spec fn measure_same(a: MeasureView, b: MeasureView) -> bool {
    a.value.value() == b.value.value() && a.unit == b.unit
}

/// Two optional measures are equal: both absent, or both present and equal.
pub open spec fn opt_measure_same(a: Option<MeasureView>, b: Option<MeasureView>) -> bool {
    match (a, b) {
        (None, None) => true,
        (Some(x), Some(y)) => measure_same(x, y),
        _ => false,
    }
}

/// The view of an optional measure.
pub open spec fn opt_measure_view(m: Option<Measure>) -> Option<MeasureView> {
    match m {
        Some(x) => Some(x@),
        None => None,
    }
}

/// What increasing `m` by `by` gives (a measurement cannot go below zero,
/// which an increase by a negative amount could make it do).
pub open spec fn spec_inc(m: MeasureView, by: MeasureView) -> Result<MeasureView, Error> {
    if m.unit != by.unit {
        Err(Error::MeasureUnitsMismatched)
    } else {
        match spec_sum(m.value, by.value) {
            Some(v) => if v.value() < 0 {
                Err(Error::NegativeMeasurement)
            } else {
                Ok(MeasureView { value: v, unit: m.unit })
            },
            None => Err(Error::NumericOverflow),
        }
    }
}

/// What decreasing `m` by `by` gives (a measurement cannot go below zero).
pub open spec fn spec_dec(m: MeasureView, by: MeasureView) -> Result<MeasureView, Error> {
    if m.unit != by.unit {
        Err(Error::MeasureUnitsMismatched)
    } else {
        match spec_difference(m.value, by.value) {
            Some(v) => if v.value() < 0 {
                Err(Error::NegativeMeasurement)
            } else {
                Ok(MeasureView { value: v, unit: m.unit })
            },
            None => Err(Error::NumericOverflow),
        }
    }
}

/// What increasing `m` by `by` gives, as a measure (in `m`'s unit).
pub open spec fn spec_inc_measure(m: Measure, by: Measure) -> Result<Measure, Error> {
    match spec_inc(m@, by@) {
        Ok(v) => Ok(Measure { has_numerical_value: v.value, has_unit: m.has_unit }),
        Err(e) => Err(e),
    }
}

/// What decreasing `m` by `by` gives, as a measure (in `m`'s unit).
pub open spec fn spec_dec_measure(m: Measure, by: Measure) -> Result<Measure, Error> {
    match spec_dec(m@, by@) {
        Ok(v) => Ok(Measure { has_numerical_value: v.value, has_unit: m.has_unit }),
        Err(e) => Err(e),
    }
}

/// The measure if there is one, else a zero measure in the unit of
/// `default`.
pub open spec fn spec_unwrap_or_zero(m: Option<Measure>, default: Measure) -> Measure {
    match m {
        Some(x) => x,
        None => Measure { has_numerical_value: Num::spec_zero(), has_unit: default.has_unit },
    }
}

/// A measure with its value set to zero (keeping its unit).
pub open spec fn spec_zeroed(m: Measure) -> Measure {
    Measure { has_numerical_value: Num::spec_zero(), has_unit: m.has_unit }
}

impl Measure {
    /// A measure of `value` in `unit`.
    pub fn new(value: Num, unit: Unit) -> (r: Measure)
        ensures
            r == (Measure { has_numerical_value: value, has_unit: unit }),
            r@ == (MeasureView { value, unit: unit@ }),
    {
        Measure { has_numerical_value: value, has_unit: unit }
    }

    /// Whether two measures are equal in value and unit.
    pub fn same_as(&self, other: &Measure) -> (r: bool)
        ensures
            r == measure_same(self@, other@),
    {
        self.has_numerical_value.eq_value(&other.has_numerical_value) && self.has_unit
            == other.has_unit
    }
}

impl Clone for Measure {
    fn clone(&self) -> (r: Measure)
        ensures
            r == *self,
    {
        Measure { has_numerical_value: self.has_numerical_value, has_unit: self.has_unit.clone() }
    }
}

impl PartialEq for Measure {
    fn eq(&self, other: &Measure) -> (r: bool) {
        self.same_as(other)
    }
}

impl vstd::std_specs::cmp::PartialEqSpecImpl for Measure {
    open spec fn obeys_eq_spec() -> bool {
        true
    }

    open spec fn eq_spec(&self, other: &Measure) -> bool {
        measure_same(self@, other@)
    }
}

/// Whether two optional measures are equal.
pub fn opt_measure_same_as(a: &Option<Measure>, b: &Option<Measure>) -> (r: bool)
    ensures
        r == opt_measure_same(opt_measure_view(*a), opt_measure_view(*b)),
{
    match (a, b) {
        (None, None) => true,
        (Some(x), Some(y)) => x.same_as(y),
        _ => false,
    }
}

/// A copy of an optional measure.
pub fn clone_opt_measure(m: &Option<Measure>) -> (r: Option<Measure>)
    ensures
        r == *m,
{
    match m {
        Some(x) => Some(x.clone()),
        None => None,
    }
}

/// The measure if there is one, else a zero measure in the unit of
/// `default`.
pub fn unwrap_or_zero(measure: &Option<Measure>, default: &Measure) -> (r: Measure)
    ensures
        r == spec_unwrap_or_zero(*measure, *default),
{
    match measure {
        Some(m) => m.clone(),
        None => Measure::new(Num::zero(), default.has_unit.clone()),
    }
}

/// Increase `measure` by `inc`, which must be in the same unit; the result
/// cannot be negative.
pub fn inc_measure(measure: &mut Measure, inc: &Measure) -> (r: Result<(), Error>)
    ensures
        r is Ok <==> spec_inc(old(measure)@, inc@) is Ok,
        r is Ok ==> *final(measure) == spec_inc_measure(*old(measure), *inc)->Ok_0,
        r matches Err(e) ==> e == spec_inc(old(measure)@, inc@)->Err_0 && *final(measure) == *old(
            measure,
        ),
        old(measure)@.unit != inc@.unit ==> r == Err::<(), Error>(Error::MeasureUnitsMismatched)
            && *final(measure) == *old(measure),
        r is Ok ==> final(measure)@.unit == old(measure)@.unit && inc@.unit == old(measure)@.unit
            && final(measure)@.value.value() >= 0,
        (r is Ok && add_is_exact(old(measure)@.value, inc@.value, false)) ==> final(measure)@.value.value()
            == old(measure)@.value.value() + inc@.value.value(),
        (old(measure)@.unit == inc@.unit && add_is_exact(old(measure)@.value, inc@.value, false))
            ==> (r is Ok <==> old(measure)@.value.value() + inc@.value.value() >= 0),
{
    if measure.has_unit != inc.has_unit {
        return Err(Error::MeasureUnitsMismatched);
    }
    match measure.has_numerical_value.checked_add(&inc.has_numerical_value) {
        Some(v) => {
            if v.is_negative() {
                return Err(Error::NegativeMeasurement);
            }
            measure.has_numerical_value = v;
            Ok(())
        },
        None => Err(Error::NumericOverflow),
    }
}

/// Decrease `measure` by `dec`, which must be in the same unit; the result
/// cannot be negative.
pub fn dec_measure(measure: &mut Measure, dec: &Measure) -> (r: Result<(), Error>)
    ensures
        r is Ok <==> spec_dec(old(measure)@, dec@) is Ok,
        r is Ok ==> *final(measure) == spec_dec_measure(*old(measure), *dec)->Ok_0,
        r matches Err(e) ==> e == spec_dec(old(measure)@, dec@)->Err_0 && *final(measure) == *old(
            measure,
        ),
        old(measure)@.unit != dec@.unit ==> r == Err::<(), Error>(Error::MeasureUnitsMismatched)
            && *final(measure) == *old(measure),
        r is Ok ==> final(measure)@.unit == old(measure)@.unit && dec@.unit == old(measure)@.unit
            && final(measure)@.value.value() >= 0,
        (r is Ok && add_is_exact(old(measure)@.value, dec@.value, true)) ==> final(measure)@.value.value()
            == old(measure)@.value.value() - dec@.value.value(),
        (old(measure)@.unit == dec@.unit && add_is_exact(old(measure)@.value, dec@.value, true))
            ==> (r is Ok <==> old(measure)@.value.value() - dec@.value.value() >= 0),
{
    if measure.has_unit != dec.has_unit {
        return Err(Error::MeasureUnitsMismatched);
    }
    match measure.has_numerical_value.checked_sub(&dec.has_numerical_value) {
        Some(v) => {
            if v.is_negative() {
                return Err(Error::NegativeMeasurement);
            }
            measure.has_numerical_value = v;
            Ok(())
        },
        None => Err(Error::NumericOverflow),
    }
}

/// Set a measure's value to zero (keeping its unit).
pub fn set_zero(measure: &mut Measure)
    ensures
        *final(measure) == spec_zeroed(*old(measure)),
{
    measure.has_numerical_value = Num::zero();
}

} // verus!
