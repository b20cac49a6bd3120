//! Fixed-precision decimal amounts.
//!
//! A [`Decimal`] is the number `mantissa / 10^scale` with a mantissa of at most 96 bits
//! and a scale of at most 28. Arithmetic, ordering and formatting are carried out by the
//! `rust_decimal` crate. The private functions at the end of this module hand values to
//! it; their contracts are taken on trust, everything else is proved from them.
//!
//! Sums, differences, products and quotients are described by name only
//! ([`decimal_sum`] and its siblings): `rust_decimal` rounds where a result does not
//! fit, and this module states no more about a result than that it is the one
//! `rust_decimal` computes. Ordering is stated exactly.

use vstd::prelude::*;
use vstd::arithmetic::power::pow;
use vstd::arithmetic::power::lemma_pow0;
use vstd::arithmetic::power::lemma_pow_adds;
use vstd::arithmetic::power::lemma_pow_positive;
use vstd::std_specs::cmp::PartialEqSpecImpl;

verus! {

/// Largest magnitude a mantissa can have: `2^96 - 1`.
pub const MAX_MANTISSA: i128 = 0x0000_0000_FFFF_FFFF_FFFF_FFFF_FFFF_FFFF;

/// Largest scale, the number of digits after the decimal point.
pub const MAX_SCALE: u32 = 28;

/// The mathematical content of a [`Decimal`]: the number `mantissa / 10^scale`.
pub struct DecimalValue {
    pub mantissa: int,
    pub scale: nat,
}

/// What `rust_decimal::Decimal::checked_add` returns for `am / 10^asc` and
/// `bm / 10^bsc`, as mantissa and scale; `None` stands for overflow.
pub uninterp spec fn decimal_sum(am: int, asc: nat, bm: int, bsc: nat) -> Option<(int, nat)>;

/// What `rust_decimal::Decimal::checked_sub` returns for `am / 10^asc` minus
/// `bm / 10^bsc`, as mantissa and scale; `None` stands for overflow.
pub uninterp spec fn decimal_difference(am: int, asc: nat, bm: int, bsc: nat) -> Option<
    (int, nat),
>;

/// What `rust_decimal::Decimal::checked_mul` returns for `am / 10^asc` times
/// `bm / 10^bsc`, as mantissa and scale; `None` stands for overflow.
pub uninterp spec fn decimal_product(am: int, asc: nat, bm: int, bsc: nat) -> Option<(int, nat)>;

/// What `rust_decimal::Decimal::checked_div` returns for `am / 10^asc` divided by
/// `bm / 10^bsc`, as mantissa and scale; `None` stands for overflow and for a zero
/// divisor.
pub uninterp spec fn decimal_quotient(am: int, asc: nat, bm: int, bsc: nat) -> Option<(int, nat)>;

/// The text `rust_decimal` writes for `mantissa / 10^scale` when asked for exactly two
/// digits after the decimal point.
pub uninterp spec fn decimal_fixed2_text(mantissa: int, scale: nat) -> Seq<char>;

/// Reads a named result as a value.
pub open spec fn named(r: Option<(int, nat)>) -> Option<DecimalValue> {
    match r {
        Some(p) => Some(DecimalValue { mantissa: p.0, scale: p.1 }),
        None => None,
    }
}

impl DecimalValue {
    /// Whether a `Decimal` can hold this mantissa and scale.
    pub open spec fn representable(self) -> bool {
        &&& -MAX_MANTISSA <= self.mantissa <= MAX_MANTISSA
        &&& self.scale <= MAX_SCALE
    }

    /// The number zero at scale zero.
    pub open spec fn zero() -> DecimalValue {
        DecimalValue { mantissa: 0, scale: 0 }
    }

    /// The whole number `n`.
    pub open spec fn whole(n: int) -> DecimalValue {
        DecimalValue { mantissa: n, scale: 0 }
    }

    /// `self < other` as numbers.
    pub open spec fn lt(self, other: DecimalValue) -> bool {
        self.mantissa * pow(10, other.scale) < other.mantissa * pow(10, self.scale)
    }

    /// `self <= other` as numbers.
    pub open spec fn le(self, other: DecimalValue) -> bool {
        self.mantissa * pow(10, other.scale) <= other.mantissa * pow(10, self.scale)
    }

    /// `self` and `other` are the same number, whatever their scales.
    pub open spec fn same_number(self, other: DecimalValue) -> bool {
        self.mantissa * pow(10, other.scale) == other.mantissa * pow(10, self.scale)
    }

    /// `self` is zero or above.
    pub open spec fn non_negative(self) -> bool {
        self.mantissa >= 0
    }

    /// The number counted in units of `10^-28`. Every representable value is a whole
    /// number of these units, so sums and differences of units are exact.
    pub open spec fn units(self) -> int {
        self.mantissa * pow(10, (MAX_SCALE - self.scale) as nat)
    }

    /// The larger of the two; `self` when they are the same number.
    pub open spec fn max(self, other: DecimalValue) -> DecimalValue {
        if self.lt(other) {
            other
        } else {
            self
        }
    }

    /// The sum as `rust_decimal` computes it; `None` when it overflows.
    pub open spec fn sum(self, other: DecimalValue) -> Option<DecimalValue> {
        named(decimal_sum(self.mantissa, self.scale, other.mantissa, other.scale))
    }

    /// The difference as `rust_decimal` computes it; `None` when it overflows.
    pub open spec fn difference(self, other: DecimalValue) -> Option<DecimalValue> {
        named(decimal_difference(self.mantissa, self.scale, other.mantissa, other.scale))
    }

    /// The product as `rust_decimal` computes it; `None` when it overflows.
    pub open spec fn product(self, other: DecimalValue) -> Option<DecimalValue> {
        named(decimal_product(self.mantissa, self.scale, other.mantissa, other.scale))
    }

    /// The quotient as `rust_decimal` computes it; `None` when it overflows or `other`
    /// is zero.
    pub open spec fn quotient(self, other: DecimalValue) -> Option<DecimalValue> {
        named(decimal_quotient(self.mantissa, self.scale, other.mantissa, other.scale))
    }

    /// The text with two digits after the decimal point.
    pub open spec fn fixed2_text(self) -> Seq<char> {
        decimal_fixed2_text(self.mantissa, self.scale)
    }
}

/// Comparing with zero only looks at the sign of the mantissa.
pub proof fn lemma_lt_zero(v: DecimalValue)
    ensures
        v.lt(DecimalValue::zero()) <==> v.mantissa < 0,
        DecimalValue::zero().lt(v) <==> v.mantissa > 0,
        DecimalValue::zero().le(v) <==> v.non_negative(),
{
    lemma_pow0(10);
    assert(v.mantissa * 1 == v.mantissa);
    assert(0 * pow(10, v.scale) == 0) by (nonlinear_arith);
}

/// Amounts are ordered as their units are: comparing two amounts is comparing two
/// whole numbers.
pub proof fn lemma_order_by_units(a: DecimalValue, b: DecimalValue)
    requires
        a.scale <= MAX_SCALE,
        b.scale <= MAX_SCALE,
    ensures
        a.lt(b) <==> a.units() < b.units(),
        a.le(b) <==> a.units() <= b.units(),
        a.same_number(b) <==> a.units() == b.units(),
        a.non_negative() <==> a.units() >= 0,
{
    let pa = pow(10, (MAX_SCALE - a.scale) as nat);
    let pb = pow(10, (MAX_SCALE - b.scale) as nat);
    let qa = pow(10, a.scale);
    let qb = pow(10, b.scale);
    let whole = pow(10, MAX_SCALE as nat);
    lemma_pow_positive(10, (MAX_SCALE - a.scale) as nat);
    lemma_pow_positive(10, (MAX_SCALE - b.scale) as nat);
    lemma_pow_positive(10, a.scale);
    lemma_pow_positive(10, b.scale);
    lemma_pow_adds(10, (MAX_SCALE - a.scale) as nat, a.scale);
    lemma_pow_adds(10, (MAX_SCALE - b.scale) as nat, b.scale);
    assert(pa * qa == whole);
    assert(pb * qb == whole);
    let x = a.mantissa * qb;
    let y = b.mantissa * qa;
    let scaled = qa * qb;
    assert(x * whole == a.units() * scaled) by (nonlinear_arith)
        requires
            x == a.mantissa * qb,
            whole == pa * qa,
            scaled == qa * qb,
            a.units() == a.mantissa * pa,
    ;
    assert(y * whole == b.units() * scaled) by (nonlinear_arith)
        requires
            y == b.mantissa * qa,
            whole == pb * qb,
            scaled == qa * qb,
            b.units() == b.mantissa * pb,
    ;
    assert(scaled > 0 && whole > 0) by (nonlinear_arith)
        requires
            scaled == qa * qb,
            whole == pa * qa,
            pa > 0,
            qa > 0,
            qb > 0,
    ;
    assert((x < y) <==> (a.units() < b.units())) by (nonlinear_arith)
        requires
            x * whole == a.units() * scaled,
            y * whole == b.units() * scaled,
            scaled > 0,
            whole > 0,
    ;
    assert((x == y) <==> (a.units() == b.units())) by (nonlinear_arith)
        requires
            x * whole == a.units() * scaled,
            y * whole == b.units() * scaled,
            scaled > 0,
            whole > 0,
    ;
    assert((a.mantissa >= 0) <==> (a.units() >= 0)) by (nonlinear_arith)
        requires
            a.units() == a.mantissa * pa,
            pa > 0,
    ;
}

/// The value of an optional amount.
pub open spec fn value_of(r: Option<Decimal>) -> Option<DecimalValue> {
    match r {
        Some(d) => Some(d@),
        None => None,
    }
}

/// A decimal amount.
#[derive(Clone, Copy, Debug)]
pub struct Decimal {
    mantissa: i128,
    scale: u32,
}

impl View for Decimal {
    type V = DecimalValue;

    closed spec fn view(&self) -> DecimalValue {
        DecimalValue { mantissa: self.mantissa as int, scale: self.scale as nat }
    }
}

impl Decimal {
    /// Every `Decimal` is representable.
    #[verifier::type_invariant]
    pub open spec fn well_formed(self) -> bool {
        self@.representable()
    }

    /// The amount `num / 10^scale`.
    pub fn new(num: i64, scale: u32) -> (d: Decimal)
        requires
            scale <= MAX_SCALE,
        ensures
            d@ == (DecimalValue { mantissa: num as int, scale: scale as nat }),
    {
        Decimal { mantissa: num as i128, scale }
    }

    /// The amount `num / 10^scale`, or `None` when a `Decimal` cannot hold it.
    pub fn try_from_i128_with_scale(num: i128, scale: u32) -> (r: Option<Decimal>)
        ensures
            match r {
                Some(d) => d@ == (DecimalValue { mantissa: num as int, scale: scale as nat }),
                None => !(DecimalValue { mantissa: num as int, scale: scale as nat })
                    .representable(),
            },
    {
        if scale > MAX_SCALE || num > MAX_MANTISSA || num < -MAX_MANTISSA {
            None
        } else {
            Some(Decimal { mantissa: num, scale })
        }
    }

    /// Zero.
    pub fn zero() -> (d: Decimal)
        ensures
            d@ == DecimalValue::zero(),
    {
        Decimal { mantissa: 0, scale: 0 }
    }

    /// One hundred.
    pub fn one_hundred() -> (d: Decimal)
        ensures
            d@ == DecimalValue::whole(100),
    {
        Decimal { mantissa: 100, scale: 0 }
    }

    /// The mantissa: the amount times `10^scale`.
    pub fn mantissa(&self) -> (m: i128)
        ensures
            m == self@.mantissa,
            -MAX_MANTISSA <= m <= MAX_MANTISSA,
    {
        proof {
            use_type_invariant(self);
        }
        self.mantissa
    }

    /// The number of digits after the decimal point.
    pub fn scale(&self) -> (s: u32)
        ensures
            s == self@.scale,
            s <= MAX_SCALE,
    {
        proof {
            use_type_invariant(self);
        }
        self.scale
    }

    /// The sum of two amounts, or `None` when it overflows.
    pub fn checked_add(self, other: Decimal) -> (r: Option<Decimal>)
        ensures
            value_of(r) == self@.sum(other@),
    {
        proof {
            use_type_invariant(&self);
            use_type_invariant(&other);
        }
        rd_checked_add(self, other)
    }

    /// `self - other`, or `None` when it overflows.
    pub fn checked_sub(self, other: Decimal) -> (r: Option<Decimal>)
        ensures
            value_of(r) == self@.difference(other@),
    {
        proof {
            use_type_invariant(&self);
            use_type_invariant(&other);
        }
        rd_checked_sub(self, other)
    }

    /// The product of two amounts, or `None` when it overflows.
    pub fn checked_mul(self, other: Decimal) -> (r: Option<Decimal>)
        ensures
            value_of(r) == self@.product(other@),
    {
        proof {
            use_type_invariant(&self);
            use_type_invariant(&other);
        }
        rd_checked_mul(self, other)
    }

    /// `self / other`, or `None` when it overflows or `other` is zero.
    pub fn checked_div(self, other: Decimal) -> (r: Option<Decimal>)
        ensures
            value_of(r) == self@.quotient(other@),
    {
        proof {
            use_type_invariant(&self);
            use_type_invariant(&other);
        }
        rd_checked_div(self, other)
    }

    /// Whether `self` is the smaller number.
    pub fn lt(&self, other: &Decimal) -> (r: bool)
        ensures
            r == self@.lt(other@),
    {
        proof {
            use_type_invariant(self);
            use_type_invariant(other);
        }
        rd_lt(*self, *other)
    }

    /// Whether `self` is the larger number.
    pub fn gt(&self, other: &Decimal) -> (r: bool)
        ensures
            r == other@.lt(self@),
    {
        other.lt(self)
    }

    /// Whether `self` is at most `other`.
    pub fn le(&self, other: &Decimal) -> (r: bool)
        ensures
            r == self@.le(other@),
    {
        !other.lt(self)
    }

    /// Whether `self` is at least `other`.
    pub fn ge(&self, other: &Decimal) -> (r: bool)
        ensures
            r == other@.le(self@),
    {
        !self.lt(other)
    }

    /// The larger of the two amounts; `self` when they are the same number.
    pub fn max(self, other: Decimal) -> (r: Decimal)
        ensures
            r@ == self@.max(other@),
    {
        proof {
            use_type_invariant(&self);
            use_type_invariant(&other);
        }
        rd_max(self, other)
    }

    /// Whether the amount is below zero.
    pub fn is_sign_negative(&self) -> (r: bool)
        ensures
            r == (self@.mantissa < 0),
            r == self@.lt(DecimalValue::zero()),
    {
        proof {
            lemma_lt_zero(self@);
        }
        self.mantissa < 0
    }

    /// The amount with exactly two digits after the decimal point, as text.
    pub fn to_fixed2_string(&self) -> (s: String)
        ensures
            s@ == self@.fixed2_text(),
    {
        proof {
            use_type_invariant(self);
        }
        rd_format_fixed2(*self)
    }
}

impl PartialEq for Decimal {
    /// Two amounts are equal when they are the same number: `1.5 == 1.50`.
    fn eq(&self, other: &Decimal) -> (r: bool) {
        !self.lt(other) && !other.lt(self)
    }
}

impl PartialEqSpecImpl for Decimal {
    open spec fn obeys_eq_spec() -> bool {
        true
    }

    open spec fn eq_spec(&self, other: &Decimal) -> bool {
        self@.same_number(other@)
    }
}

/// Calls `rust_decimal::Decimal::checked_add`. Trusted: the result is the one that
/// [`decimal_sum`] names, and like every `rust_decimal` value it is representable.
#[verifier::external_body]
fn rd_checked_add(a: Decimal, b: Decimal) -> (r: Option<Decimal>)
    requires
        a.well_formed(),
        b.well_formed(),
    ensures
        value_of(r) == named(decimal_sum(a@.mantissa, a@.scale, b@.mantissa, b@.scale)),
        r matches Some(d) ==> d.well_formed(),
{
    let x = rust_decimal::Decimal::from_i128_with_scale(a.mantissa, a.scale);
    let y = rust_decimal::Decimal::from_i128_with_scale(b.mantissa, b.scale);
    match x.checked_add(y) {
        Some(d) => Some(Decimal { mantissa: d.mantissa(), scale: d.scale() }),
        None => None,
    }
}

/// Calls `rust_decimal::Decimal::checked_sub`. Trusted: the result is the one that
/// [`decimal_difference`] names, and it is representable.
#[verifier::external_body]
fn rd_checked_sub(a: Decimal, b: Decimal) -> (r: Option<Decimal>)
    requires
        a.well_formed(),
        b.well_formed(),
    ensures
        value_of(r) == named(decimal_difference(a@.mantissa, a@.scale, b@.mantissa, b@.scale)),
        r matches Some(d) ==> d.well_formed(),
{
    let x = rust_decimal::Decimal::from_i128_with_scale(a.mantissa, a.scale);
    let y = rust_decimal::Decimal::from_i128_with_scale(b.mantissa, b.scale);
    match x.checked_sub(y) {
        Some(d) => Some(Decimal { mantissa: d.mantissa(), scale: d.scale() }),
        None => None,
    }
}

/// Calls `rust_decimal::Decimal::checked_mul`. Trusted: the result is the one that
/// [`decimal_product`] names, and it is representable.
#[verifier::external_body]
fn rd_checked_mul(a: Decimal, b: Decimal) -> (r: Option<Decimal>)
    requires
        a.well_formed(),
        b.well_formed(),
    ensures
        value_of(r) == named(decimal_product(a@.mantissa, a@.scale, b@.mantissa, b@.scale)),
        r matches Some(d) ==> d.well_formed(),
{
    let x = rust_decimal::Decimal::from_i128_with_scale(a.mantissa, a.scale);
    let y = rust_decimal::Decimal::from_i128_with_scale(b.mantissa, b.scale);
    match x.checked_mul(y) {
        Some(d) => Some(Decimal { mantissa: d.mantissa(), scale: d.scale() }),
        None => None,
    }
}

/// Calls `rust_decimal::Decimal::checked_div`. Trusted: the result is the one that
/// [`decimal_quotient`] names, and it is representable.
#[verifier::external_body]
fn rd_checked_div(a: Decimal, b: Decimal) -> (r: Option<Decimal>)
    requires
        a.well_formed(),
        b.well_formed(),
    ensures
        value_of(r) == named(decimal_quotient(a@.mantissa, a@.scale, b@.mantissa, b@.scale)),
        r matches Some(d) ==> d.well_formed(),
{
    let x = rust_decimal::Decimal::from_i128_with_scale(a.mantissa, a.scale);
    let y = rust_decimal::Decimal::from_i128_with_scale(b.mantissa, b.scale);
    match x.checked_div(y) {
        Some(d) => Some(Decimal { mantissa: d.mantissa(), scale: d.scale() }),
        None => None,
    }
}

/// Calls `<` of `rust_decimal::Decimal`. Trusted: it orders amounts as numbers, so
/// `a < b` exactly when `a.mantissa * 10^b.scale < b.mantissa * 10^a.scale`.
#[verifier::external_body]
fn rd_lt(a: Decimal, b: Decimal) -> (r: bool)
    requires
        a.well_formed(),
        b.well_formed(),
    ensures
        r == a@.lt(b@),
{
    let x = rust_decimal::Decimal::from_i128_with_scale(a.mantissa, a.scale);
    let y = rust_decimal::Decimal::from_i128_with_scale(b.mantissa, b.scale);
    x < y
}

/// Calls `rust_decimal::Decimal::max`. Trusted: it returns its argument when the
/// receiver is the smaller number and the receiver otherwise, mantissa and scale
/// unchanged.
#[verifier::external_body]
fn rd_max(a: Decimal, b: Decimal) -> (r: Decimal)
    requires
        a.well_formed(),
        b.well_formed(),
    ensures
        r@ == a@.max(b@),
        r.well_formed(),
{
    let x = rust_decimal::Decimal::from_i128_with_scale(a.mantissa, a.scale);
    let y = rust_decimal::Decimal::from_i128_with_scale(b.mantissa, b.scale);
    let d = x.max(y);
    Decimal { mantissa: d.mantissa(), scale: d.scale() }
}

/// Formats through `rust_decimal`'s `Display` with a precision of two. Trusted: the
/// text is the one that [`decimal_fixed2_text`] names.
#[verifier::external_body]
fn rd_format_fixed2(a: Decimal) -> (s: String)
    requires
        a.well_formed(),
    ensures
        s@ == decimal_fixed2_text(a@.mantissa, a@.scale),
{
    let x = rust_decimal::Decimal::from_i128_with_scale(a.mantissa, a.scale);
    format!("{:.2}", x)
}

} // verus!
