//! Exact decimal numbers.
//!
//! `Num` holds a decimal as a mantissa and a scale, the value being
//! `mantissa / 10^scale`, with the same limits as `rust_decimal::Decimal`
//! (a 96-bit mantissa and a scale of at most 28). All arithmetic is done by
//! `rust_decimal`; the contracts here say what its source shows of it.
//!
//! In specifications a number is measured by `value()`, which is the number
//! multiplied by `10^28` (always an integer, since the scale is at most 28).

use rust_decimal::Decimal;
use vstd::prelude::*;

verus! {

#[verifier::external_type_specification]
#[verifier::external_body]
pub struct ExDecimal(Decimal);

/// `10^n`
pub open spec fn pow10(n: nat) -> int
    decreases n,
{
    if n == 0 {
        1
    } else {
        10 * pow10((n - 1) as nat)
    }
}

/// The exclusive bound on the magnitude of a mantissa: `2^96`.
pub open spec fn mantissa_limit() -> int {
    0x1_0000_0000_0000_0000_0000_0000
}

/// The largest scale a number can have.
pub const MAX_SCALE: u32 = 28;

/// What `rust_decimal` computes for `a + b`, given the mantissa and scale of
/// each (`None` on overflow).
pub uninterp spec fn decimal_sum(am: int, ascale: int, bm: int, bscale: int) -> Option<(int, int)>;

/// What `rust_decimal` computes for `a - b` (`None` on overflow).
pub uninterp spec fn decimal_difference(am: int, ascale: int, bm: int, bscale: int) -> Option<(int, int)>;

/// What `rust_decimal` computes for `a * b` (`None` on overflow).
pub uninterp spec fn decimal_product(am: int, ascale: int, bm: int, bscale: int) -> Option<(int, int)>;

/// What `rust_decimal` computes for `a / b` (`None` on overflow or a zero
/// divisor).
pub uninterp spec fn decimal_quotient(am: int, ascale: int, bm: int, bscale: int) -> Option<(int, int)>;

/// A decimal number.
#[derive(Clone, Copy, Debug)]
pub struct Num {
    mantissa: i128,
    scale: u32,
}

/// The result of a decimal operation, as a number.
pub open spec fn as_num_result(r: Option<Num>) -> Option<(int, int)> {
    match r {
        Some(n) => Some((n.mant(), n.scl())),
        None => None,
    }
}

/// A decimal operation's result, as a number.
pub open spec fn num_of(p: Option<(int, int)>) -> Option<Num> {
    match p {
        Some(q) => Some(Num::spec_new(q.0, q.1)),
        None => None,
    }
}

/// What `a + b` gives (`None` on overflow).
pub open spec fn spec_sum(a: Num, b: Num) -> Option<Num> {
    num_of(decimal_sum(a.mant(), a.scl(), b.mant(), b.scl()))
}

/// What `a - b` gives (`None` on overflow).
pub open spec fn spec_difference(a: Num, b: Num) -> Option<Num> {
    num_of(decimal_difference(a.mant(), a.scl(), b.mant(), b.scl()))
}

/// What `a * b` gives (`None` on overflow).
pub open spec fn spec_product(a: Num, b: Num) -> Option<Num> {
    num_of(decimal_product(a.mant(), a.scl(), b.mant(), b.scl()))
}

/// `n / 10^d` rounded to the nearest integer, a half going to the even
/// neighbour (banker's rounding).
pub open spec fn half_even(n: nat, d: nat) -> int {
    let q = n as int / pow10(d);
    let rem = n as int % pow10(d);
    if 2 * rem > pow10(d) || (2 * rem == pow10(d) && q % 2 == 1) {
        q + 1
    } else {
        q
    }
}

/// The mantissa and scale of a number (given by its mantissa and scale)
/// rounded to `dp` decimal places: unchanged where it has no more places
/// than that, else its magnitude rounded half to even at scale `dp`, the
/// sign kept.
pub open spec fn rounded_dp(m: int, scale: int, dp: int) -> (int, int) {
    if scale <= dp {
        (m, scale)
    } else {
        let q = half_even(abs(m) as nat, (scale - dp) as nat);
        (if m < 0 {
            -q
        } else {
            q
        }, dp)
    }
}

/// What rounding `a` to `dp` decimal places gives.
pub open spec fn spec_round_dp(a: Num, dp: int) -> Num {
    Num::spec_new(rounded_dp(a.mant(), a.scl(), dp).0, rounded_dp(a.mant(), a.scl(), dp).1)
}

/// What `a / b` gives (`None` on overflow or a zero divisor).
pub open spec fn spec_quotient(a: Num, b: Num) -> Option<Num> {
    num_of(decimal_quotient(a.mant(), a.scl(), b.mant(), b.scl()))
}

/// Whether a number is within the limits of the representation.
pub open spec fn in_bounds(n: Num) -> bool {
    &&& -mantissa_limit() < n.mant() < mantissa_limit()
    &&& 0 <= n.scl() <= 28
}

/// The normalized form of a number: same value, no trailing zeros.
pub open spec fn canonical(n: Num) -> Num {
    choose|r: Num| in_bounds(r) && r.value() == n.value() && is_normalized(r)
}

impl Num {
    /// The representation stays within the limits of `rust_decimal`.
    #[verifier::type_invariant]
    pub open spec fn inv(self) -> bool {
        in_bounds(self)
    }

    /// The mantissa.
    pub closed spec fn mant(self) -> int {
        self.mantissa as int
    }

    /// The scale (number of digits after the decimal point).
    pub closed spec fn scl(self) -> int {
        self.scale as int
    }

    /// The number, multiplied by `10^28`.
    pub open spec fn value(self) -> int {
        self.mant() * pow10((28 - self.scl()) as nat)
    }

    /// The zero number.
    pub open spec fn spec_zero() -> Num {
        Num::spec_new(0, 0)
    }

    /// A number with the given mantissa and scale.
    pub closed spec fn spec_new(mantissa: int, scale: int) -> Num {
        Num { mantissa: mantissa as i128, scale: scale as u32 }
    }

    pub proof fn lemma_spec_new(mantissa: int, scale: int)
        requires
            -mantissa_limit() < mantissa < mantissa_limit(),
            0 <= scale <= 28,
        ensures
            Num::spec_new(mantissa, scale).mant() == mantissa,
            Num::spec_new(mantissa, scale).scl() == scale,
    {
    }

    /// The zero number's parts.
    pub proof fn lemma_zero()
        ensures
            Num::spec_zero().mant() == 0,
            Num::spec_zero().scl() == 0,
            Num::spec_zero().value() == 0,
            in_bounds(Num::spec_zero()),
            is_normalized(Num::spec_zero()),
    {
    }

    /// Two numbers with the same mantissa and scale are the same number.
    pub proof fn lemma_ext(a: Num, b: Num)
        requires
            a.mant() == b.mant(),
            a.scl() == b.scl(),
            in_bounds(a),
            in_bounds(b),
        ensures
            a == b,
    {
    }

    /// A number is zero exactly when its mantissa is.
    pub proof fn lemma_value_sign(self)
        ensures
            (self.value() == 0) == (self.mant() == 0),
            (self.value() < 0) == (self.mant() < 0),
            (self.value() > 0) == (self.mant() > 0),
    {
        lemma_pow10_pos((28 - self.scl()) as nat);
        let p = pow10((28 - self.scl()) as nat);
        assert(self.value() == self.mant() * p);
        if self.mant() > 0 {
            assert(self.mant() * p > 0) by (nonlinear_arith)
                requires
                    self.mant() > 0,
                    p > 0,
            ;
        } else if self.mant() < 0 {
            assert(self.mant() * p < 0) by (nonlinear_arith)
                requires
                    self.mant() < 0,
                    p > 0,
            ;
        }
    }

    /// Builds `num / 10^scale` (as `Decimal::new` does).
    pub fn new(num: i64, scale: u32) -> (r: Num)
        requires
            scale <= MAX_SCALE,
        ensures
            r.mant() == num,
            r.scl() == scale,
            r == Num::spec_new(num as int, scale as int),
    {
        Num { mantissa: num as i128, scale }
    }

    /// Builds `num / 10^scale` from a wide mantissa.
    pub fn from_i128_with_scale(num: i128, scale: u32) -> (r: Num)
        requires
            scale <= MAX_SCALE,
            -mantissa_limit() < num < mantissa_limit(),
        ensures
            r == Num::spec_new(num as int, scale as int),
            r.mant() == num,
            r.scl() == scale,
    {
        Num { mantissa: num, scale }
    }

    /// The zero number.
    pub fn zero() -> (r: Num)
        ensures
            r == Num::spec_zero(),
            r.mant() == 0,
            r.scl() == 0,
            r.value() == 0,
    {
        Num { mantissa: 0, scale: 0 }
    }

    /// A whole number.
    pub fn from_i64(num: i64) -> (r: Num)
        ensures
            r == Num::spec_new(num as int, 0),
            r.mant() == num,
            r.scl() == 0,
            r.value() == num * pow10(28),
    {
        Num { mantissa: num as i128, scale: 0 }
    }

    /// The mantissa.
    pub fn mantissa(&self) -> (r: i128)
        ensures
            r == self.mant(),
    {
        self.mantissa
    }

    /// The scale.
    pub fn scale(&self) -> (r: u32)
        ensures
            r == self.scl(),
    {
        self.scale
    }

    /// Whether the number is zero.
    pub fn is_zero(&self) -> (r: bool)
        ensures
            r == (self.value() == 0),
    {
        proof {
            self.lemma_value_sign();
        }
        self.mantissa == 0
    }

    /// Whether the number is below zero.
    pub fn is_negative(&self) -> (r: bool)
        ensures
            r == (self.value() < 0),
    {
        proof {
            self.lemma_value_sign();
        }
        self.mantissa < 0
    }

    /// Whether the number is above zero.
    pub fn is_positive(&self) -> (r: bool)
        ensures
            r == (self.value() > 0),
    {
        proof {
            self.lemma_value_sign();
        }
        self.mantissa > 0
    }

    /// `self + other`, or `None` where `rust_decimal` overflows.
    pub fn checked_add(&self, other: &Num) -> (r: Option<Num>)
        ensures
            r == spec_sum(*self, *other),
            add_is_exact(*self, *other, false) ==> (r matches Some(n) && n.value() == self.value()
                + other.value()),
            self.value() == 0 ==> r == Some(*other),
            (other.value() == 0 && self.value() != 0) ==> r == Some(*self),
    {
        proof {
            use_type_invariant(self);
            use_type_invariant(other);
            other.lemma_value_sign();
            self.lemma_value_sign();
        }
        match decimal_checked_add(*self, *other) {
            Some(n) => {
                proof {
                    use_type_invariant(&n);
                }
                Some(n)
            },
            None => None,
        }
    }

    /// `self - other`, or `None` where `rust_decimal` overflows.
    pub fn checked_sub(&self, other: &Num) -> (r: Option<Num>)
        ensures
            r == spec_difference(*self, *other),
            add_is_exact(*self, *other, true) ==> (r matches Some(n) && n.value() == self.value()
                - other.value()),
            (other.value() == 0 && self.value() != 0) ==> r == Some(*self),
    {
        proof {
            use_type_invariant(self);
            use_type_invariant(other);
            other.lemma_value_sign();
        }
        match decimal_checked_sub(*self, *other) {
            Some(n) => {
                proof {
                    use_type_invariant(&n);
                }
                Some(n)
            },
            None => None,
        }
    }

    /// `self * other`, or `None` where `rust_decimal` overflows.
    pub fn checked_mul(&self, other: &Num) -> (r: Option<Num>)
        ensures
            r == spec_product(*self, *other),
            (self.value() == 0 || other.value() == 0) ==> r == Some(Num::spec_zero()),
    {
        proof {
            use_type_invariant(self);
            use_type_invariant(other);
            self.lemma_value_sign();
            other.lemma_value_sign();
        }
        match decimal_checked_mul(*self, *other) {
            Some(n) => {
                proof {
                    use_type_invariant(&n);
                }
                Some(n)
            },
            None => None,
        }
    }

    /// `self / other`, or `None` where `rust_decimal` overflows or `other` is
    /// zero.
    pub fn checked_div(&self, other: &Num) -> (r: Option<Num>)
        ensures
            r == spec_quotient(*self, *other),
            other.value() == 0 ==> r is None,
            (self.value() == 0 && other.value() != 0) ==> r == Some(Num::spec_zero()),
            (self.value() >= 0 && other.value() > 0) ==> (r matches Some(q) ==> q.value() >= 0),
    {
        proof {
            use_type_invariant(self);
            use_type_invariant(other);
            self.lemma_value_sign();
            other.lemma_value_sign();
        }
        match decimal_checked_div(*self, *other) {
            Some(n) => {
                proof {
                    use_type_invariant(&n);
                    n.lemma_value_sign();
                }
                Some(n)
            },
            None => None,
        }
    }

    /// The same number with trailing zeros stripped from its mantissa.
    pub fn normalize(&self) -> (r: Num)
        ensures
            r.value() == self.value(),
            is_normalized(r),
            r == canonical(*self),
    {
        proof {
            use_type_invariant(self);
        }
        let r = decimal_normalize(*self);
        proof {
            use_type_invariant(&r);
            lemma_canonical(*self, r);
        }
        r
    }

    /// The number rounded to `dp` decimal places (banker's rounding, as
    /// `rust_decimal` does).
    pub fn round_dp(&self, dp: u32) -> (r: Num)
        ensures
            r == spec_round_dp(*self, dp as int),
    {
        proof {
            use_type_invariant(self);
        }
        let r = decimal_round_dp(*self, dp);
        proof {
            use_type_invariant(&r);
        }
        r
    }

    /// Whether the number has no trailing zeros.
    pub fn is_normal(&self) -> (r: bool)
        ensures
            r == is_normalized(*self),
    {
        (self.scale == 0 || self.mantissa % 10 != 0) && (self.mantissa != 0 || self.scale == 0)
    }

    /// Compares two numbers: -1, 0 or 1 as `self` is below, equal to or above
    /// `other`.
    pub fn compare(&self, other: &Num) -> (r: i8)
        ensures
            r == -1 <==> self.value() < other.value(),
            r == 0 <==> self.value() == other.value(),
            r == 1 <==> self.value() > other.value(),
    {
        proof {
            use_type_invariant(self);
            use_type_invariant(other);
        }
        decimal_compare(*self, *other)
    }

    /// `self < other`
    pub fn lt(&self, other: &Num) -> (r: bool)
        ensures
            r == (self.value() < other.value()),
    {
        self.compare(other) == -1
    }

    /// `self <= other`
    pub fn le(&self, other: &Num) -> (r: bool)
        ensures
            r == (self.value() <= other.value()),
    {
        self.compare(other) != 1
    }

    /// `self > other`
    pub fn gt(&self, other: &Num) -> (r: bool)
        ensures
            r == (self.value() > other.value()),
    {
        self.compare(other) == 1
    }

    /// The number with its sign flipped (as `rust_decimal` negates: the same
    /// mantissa, negated, at the same scale).
    pub fn neg(&self) -> (r: Num)
        ensures
            r == Num::spec_new(-self.mant(), self.scl()),
            r.mant() == -self.mant(),
            r.scl() == self.scl(),
            r.value() == -self.value(),
    {
        proof {
            use_type_invariant(self);
            let p = pow10((28 - self.scl()) as nat);
            assert((-self.mant()) * p == -(self.mant() * p)) by (nonlinear_arith);
        }
        Num { mantissa: -self.mantissa, scale: self.scale }
    }

    /// Whether two numbers are equal in value (`1.0 == 1.00`).
    pub fn eq_value(&self, other: &Num) -> (r: bool)
        ensures
            r == (self.value() == other.value()),
    {
        self.compare(other) == 0
    }
}

impl PartialEq for Num {
    fn eq(&self, other: &Num) -> (r: bool) {
        self.eq_value(other)
    }
}

impl vstd::std_specs::cmp::PartialEqSpecImpl for Num {
    open spec fn obeys_eq_spec() -> bool {
        true
    }

    open spec fn eq_spec(&self, other: &Num) -> bool {
        self.value() == other.value()
    }
}

pub proof fn lemma_pow10_add(a: nat, b: nat)
    ensures
        pow10(a + b) == pow10(a) * pow10(b),
    decreases a,
{
    if a > 0 {
        lemma_pow10_add((a - 1) as nat, b);
        assert(pow10(a + b) == 10 * pow10((a - 1 + b) as nat));
        assert(10 * (pow10((a - 1) as nat) * pow10(b)) == (10 * pow10((a - 1) as nat)) * pow10(b))
            by (nonlinear_arith);
    }
}

/// Two normalized numbers of the same value are the same number.
pub proof fn lemma_normalized_unique(x: Num, y: Num)
    requires
        in_bounds(x),
        in_bounds(y),
        is_normalized(x),
        is_normalized(y),
        x.value() == y.value(),
    ensures
        x == y,
{
    if x.scl() <= y.scl() {
        lemma_normalized_unique_ordered(x, y);
    } else {
        lemma_normalized_unique_ordered(y, x);
    }
}

proof fn lemma_normalized_unique_ordered(x: Num, y: Num)
    requires
        in_bounds(x),
        in_bounds(y),
        is_normalized(x),
        is_normalized(y),
        x.value() == y.value(),
        x.scl() <= y.scl(),
    ensures
        x == y,
{
    let d = (y.scl() - x.scl()) as nat;
    let e = (28 - y.scl()) as nat;
    lemma_pow10_add(d, e);
    assert((28 - x.scl()) as nat == d + e);
    lemma_pow10_pos(e);
    lemma_pow10_pos(d);
    let pd = pow10(d);
    let pe = pow10(e);
    assert(x.value() == x.mant() * (pd * pe));
    assert(y.value() == y.mant() * pe);
    assert(x.mant() * (pd * pe) == (x.mant() * pd) * pe) by (nonlinear_arith);
    assert(y.mant() == x.mant() * pd) by (nonlinear_arith)
        requires
            (x.mant() * pd) * pe == y.mant() * pe,
            pe > 0,
    ;
    if d > 0 {
        let q = pow10((d - 1) as nat);
        assert(pd == 10 * q);
        assert(y.mant() == (x.mant() * q) * 10) by (nonlinear_arith)
            requires
                y.mant() == x.mant() * pd,
                pd == 10 * q,
        ;
        assert(y.mant() % 10 == 0);
        assert(false);
    }
    assert(pd == 1);
    Num::lemma_ext(x, y);
}

/// `canonical` is the normalized number of the same value.
pub proof fn lemma_canonical(n: Num, r: Num)
    requires
        in_bounds(r),
        r.value() == n.value(),
        is_normalized(r),
    ensures
        r == canonical(n),
        in_bounds(canonical(n)),
        canonical(n).value() == n.value(),
        is_normalized(canonical(n)),
{
    let c = canonical(n);
    assert(in_bounds(c) && c.value() == n.value() && is_normalized(c));
    lemma_normalized_unique(r, c);
}

/// Every number has a canonical form, of the same value.
pub proof fn lemma_canonical_value(n: Num)
    requires
        in_bounds(n),
    ensures
        in_bounds(canonical(n)),
        canonical(n).value() == n.value(),
        is_normalized(canonical(n)),
    decreases n.scl(),
{
    if is_normalized(n) {
        lemma_canonical(n, n);
    } else {
        let m = n.mant() / 10;
        let s = n.scl() - 1;
        assert(n.mant() == m * 10);
        Num::lemma_spec_new(m, s);
        let n2 = Num::spec_new(m, s);
        let p = pow10((28 - n.scl()) as nat);
        assert(pow10((28 - s) as nat) == 10 * p);
        assert(n2.value() == n.value()) by (nonlinear_arith)
            requires
                n2.value() == m * pow10((28 - s) as nat),
                pow10((28 - s) as nat) == 10 * p,
                n.value() == n.mant() * p,
                n.mant() == m * 10,
        ;
        lemma_canonical_value(n2);
        lemma_canonical(n, canonical(n2));
    }
}

pub proof fn lemma_pow10_pos(n: nat)
    ensures
        pow10(n) > 0,
    decreases n,
{
    if n > 0 {
        lemma_pow10_pos((n - 1) as nat);
    }
}

/// The absolute value of an integer.
pub open spec fn abs(x: int) -> int {
    if x < 0 {
        -x
    } else {
        x
    }
}

/// When `rust_decimal` adds (or, with `negate_b`, subtracts) two numbers
/// exactly: the exact result, written at the larger of the two scales, fits
/// the 96-bit mantissa. Its code rounds only where that result does not fit.
pub open spec fn add_is_exact(a: Num, b: Num, negate_b: bool) -> bool {
    let s = if a.scl() >= b.scl() {
        a.scl()
    } else {
        b.scl()
    };
    let am = a.mant() * pow10((s - a.scl()) as nat);
    let bm = b.mant() * pow10((s - b.scl()) as nat);
    let sum = if negate_b {
        am - bm
    } else {
        am + bm
    };
    abs(sum) < mantissa_limit()
}

/// A number without trailing zeros in its mantissa (as `normalize` leaves
/// it): the scale is zero or the mantissa is not a multiple of ten; zero has
/// scale zero.
pub open spec fn is_normalized(n: Num) -> bool {
    &&& (n.scl() == 0 || n.mant() % 10 != 0)
    &&& (n.mant() == 0 ==> n.scl() == 0)
}

/// `Decimal::checked_add`. Its result is named by `decimal_sum`. Its source
/// (`add_sub_internal`) returns the second operand unchanged when the first
/// is zero (so adding two zeros gives the second), and the first when only
/// the second is zero. Otherwise it aligns both at the larger scale and adds
/// exactly (in its 32-bit or 64-bit fast paths, or in `aligned_add` /
/// `unaligned_add`), rounding only where the exact result does not fit 96
/// bits: so where `add_is_exact` holds the sum is exact. Nothing is said of
/// the rounding it does on other inputs.
#[verifier::external_body]
fn decimal_checked_add(a: Num, b: Num) -> (r: Option<Num>)
    requires
        -mantissa_limit() < a.mant() < mantissa_limit(),
        0 <= a.scl() <= 28,
        -mantissa_limit() < b.mant() < mantissa_limit(),
        0 <= b.scl() <= 28,
    ensures
        as_num_result(r) == decimal_sum(a.mant(), a.scl(), b.mant(), b.scl()),
        add_is_exact(a, b, false) ==> (r is Some && r.unwrap().value() == a.value() + b.value()),
        a.mant() == 0 ==> r == Some(b),
        (b.mant() == 0 && a.mant() != 0) ==> r == Some(a),
{
    match Decimal::from_i128_with_scale(a.mantissa, a.scale).checked_add(
        Decimal::from_i128_with_scale(b.mantissa, b.scale),
    ) {
        Some(d) => Some(Num { mantissa: d.mantissa(), scale: d.scale() }),
        None => None,
    }
}

/// `Decimal::checked_sub`. Its result is named by `decimal_difference`. Its
/// source (the same `add_sub_internal` as addition) returns the second
/// operand negated when the first is zero (so `0 - 0` gives the second zero),
/// and the first unchanged when only the second is zero; otherwise it is
/// exact wherever the exact difference, at the larger scale, fits 96 bits.
#[verifier::external_body]
fn decimal_checked_sub(a: Num, b: Num) -> (r: Option<Num>)
    requires
        -mantissa_limit() < a.mant() < mantissa_limit(),
        0 <= a.scl() <= 28,
        -mantissa_limit() < b.mant() < mantissa_limit(),
        0 <= b.scl() <= 28,
    ensures
        as_num_result(r) == decimal_difference(a.mant(), a.scl(), b.mant(), b.scl()),
        add_is_exact(a, b, true) ==> (r is Some && r.unwrap().value() == a.value() - b.value()),
        a.mant() == 0 ==> r == Some(Num::spec_new(-b.mant(), b.scl())),
        (b.mant() == 0 && a.mant() != 0) ==> r == Some(a),
{
    match Decimal::from_i128_with_scale(a.mantissa, a.scale).checked_sub(
        Decimal::from_i128_with_scale(b.mantissa, b.scale),
    ) {
        Some(d) => Some(Num { mantissa: d.mantissa(), scale: d.scale() }),
        None => None,
    }
}

/// `Decimal::checked_mul`. Its result is named by `decimal_product`; a zero
/// operand gives `Decimal::ZERO` (mantissa and scale zero). Nothing is said of
/// the rounding it does.
#[verifier::external_body]
fn decimal_checked_mul(a: Num, b: Num) -> (r: Option<Num>)
    requires
        -mantissa_limit() < a.mant() < mantissa_limit(),
        0 <= a.scl() <= 28,
        -mantissa_limit() < b.mant() < mantissa_limit(),
        0 <= b.scl() <= 28,
    ensures
        as_num_result(r) == decimal_product(a.mant(), a.scl(), b.mant(), b.scl()),
        (a.mant() == 0 || b.mant() == 0) ==> r == Some(Num::spec_zero()),
{
    match Decimal::from_i128_with_scale(a.mantissa, a.scale).checked_mul(
        Decimal::from_i128_with_scale(b.mantissa, b.scale),
    ) {
        Some(d) => Some(Num { mantissa: d.mantissa(), scale: d.scale() }),
        None => None,
    }
}

/// `Decimal::checked_div`. Its result is named by `decimal_quotient`; a zero
/// divisor gives `None`, a zero dividend over a non-zero divisor gives
/// `Decimal::ZERO`, and the quotient's sign is the exclusive or of the
/// operands' signs (so a non-negative number over a positive one is not
/// negative). Nothing is said of the rounding it does.
#[verifier::external_body]
fn decimal_checked_div(a: Num, b: Num) -> (r: Option<Num>)
    requires
        -mantissa_limit() < a.mant() < mantissa_limit(),
        0 <= a.scl() <= 28,
        -mantissa_limit() < b.mant() < mantissa_limit(),
        0 <= b.scl() <= 28,
    ensures
        as_num_result(r) == decimal_quotient(a.mant(), a.scl(), b.mant(), b.scl()),
        b.mant() == 0 ==> r is None,
        (a.mant() == 0 && b.mant() != 0) ==> r == Some(Num::spec_zero()),
        (a.mant() >= 0 && b.mant() > 0 && r is Some) ==> r.unwrap().mant() >= 0,
{
    match Decimal::from_i128_with_scale(a.mantissa, a.scale).checked_div(
        Decimal::from_i128_with_scale(b.mantissa, b.scale),
    ) {
        Some(d) => Some(Num { mantissa: d.mantissa(), scale: d.scale() }),
        None => None,
    }
}

/// `Decimal::normalize`: the same value with trailing zeros stripped from the
/// mantissa (and zero given scale zero), as its source shows.
#[verifier::external_body]
fn decimal_normalize(a: Num) -> (r: Num)
    requires
        -mantissa_limit() < a.mant() < mantissa_limit(),
        0 <= a.scl() <= 28,
    ensures
        r.value() == a.value(),
        is_normalized(r),
{
    let d = Decimal::from_i128_with_scale(a.mantissa, a.scale).normalize();
    Num { mantissa: d.mantissa(), scale: d.scale() }
}

/// `Decimal::round_dp`, which is `round_dp_with_strategy` with
/// `MidpointNearestEven`: a number with no more than `dp` decimal places
/// comes back unchanged; otherwise its magnitude is divided by `10^(scale -
/// dp)`, the quotient raised by one where the remainder is above half, or
/// exactly half with an odd quotient, and the result given the sign and the
/// scale `dp`.
#[verifier::external_body]
fn decimal_round_dp(a: Num, dp: u32) -> (r: Num)
    requires
        -mantissa_limit() < a.mant() < mantissa_limit(),
        0 <= a.scl() <= 28,
    ensures
        (r.mant(), r.scl()) == rounded_dp(a.mant(), a.scl(), dp as int),
{
    let d = Decimal::from_i128_with_scale(a.mantissa, a.scale).round_dp(dp);
    Num { mantissa: d.mantissa(), scale: d.scale() }
}

/// `Decimal::cmp`, which compares the values of two numbers (`1.0` equals
/// `1.00`): -1, 0 or 1.
#[verifier::external_body]
fn decimal_compare(a: Num, b: Num) -> (r: i8)
    requires
        -mantissa_limit() < a.mant() < mantissa_limit(),
        0 <= a.scl() <= 28,
        -mantissa_limit() < b.mant() < mantissa_limit(),
        0 <= b.scl() <= 28,
    ensures
        r == -1 <==> a.value() < b.value(),
        r == 0 <==> a.value() == b.value(),
        r == 1 <==> a.value() > b.value(),
{
    let x = Decimal::from_i128_with_scale(a.mantissa, a.scale);
    let y = Decimal::from_i128_with_scale(b.mantissa, b.scale);
    if x < y {
        -1
    } else if x > y {
        1
    } else {
        0
    }
}

} // verus!
