//! Fixed-point decimal numbers, held as a 96-bit mantissa and a power-of-ten
//! scale, whose arithmetic is carried out by `rust_decimal`.
use vstd::arithmetic::power::{lemma_pow_positive, pow};
use vstd::prelude::*;
use core::cmp::Ordering;
use vstd::std_specs::cmp::{PartialEqSpec, PartialEqSpecImpl, PartialOrdSpecImpl};

verus! {

/// Largest magnitude of a mantissa: 2^96 - 1.
pub const MAX_MANTISSA: i128 = 79228162514264337593543950335i128;

/// Largest number of digits after the decimal point.
pub const MAX_SCALE: u32 = 28u32;

/// Whether a mantissa and a scale describe a decimal number.
pub open spec fn parts_in_range(mantissa: int, scale: int) -> bool {
    &&& -MAX_MANTISSA <= mantissa <= MAX_MANTISSA
    &&& 0 <= scale <= MAX_SCALE
}

/// The value of the decimal `mantissa / 10^scale`, counted in units of 10^-28.
pub open spec fn parts_value(mantissa: int, scale: int) -> int {
    mantissa * pow(10, (MAX_SCALE - scale) as nat)
}

/// The larger of the scales of `a` and `b`.
pub open spec fn common_scale(a: DecimalNumber, b: DecimalNumber) -> int {
    if a.scale_of() >= b.scale_of() { a.scale_of() as int } else { b.scale_of() as int }
}

/// The mantissa of `d` written with `scale` digits after the decimal point, for a `scale` no
/// smaller than its own.
pub open spec fn mantissa_at(d: DecimalNumber, scale: int) -> int {
    d.mantissa_of() * pow(10, (scale - d.scale_of()) as nat)
}

/// Whether subtracting `b` from `a` needs no rounding: written at the larger of the two
/// scales, both mantissas and their difference are in range.
pub open spec fn exact_difference(a: DecimalNumber, b: DecimalNumber) -> bool {
    let s = common_scale(a, b);
    &&& -MAX_MANTISSA <= mantissa_at(a, s) <= MAX_MANTISSA
    &&& -MAX_MANTISSA <= mantissa_at(b, s) <= MAX_MANTISSA
    &&& -MAX_MANTISSA <= mantissa_at(a, s) - mantissa_at(b, s) <= MAX_MANTISSA
}

/// Whether multiplying `a` by `b` needs no rounding: the scales add up to at most the
/// largest one and the product of the mantissas is in range.
pub open spec fn exact_product(a: DecimalNumber, b: DecimalNumber) -> bool {
    &&& a.scale_of() + b.scale_of() <= MAX_SCALE
    &&& -MAX_MANTISSA <= a.mantissa_of() * b.mantissa_of() <= MAX_MANTISSA
}

/// What `rust_decimal::Decimal::checked_sub` returns for two decimals given by their parts,
/// as the parts of the difference.
pub uninterp spec fn decimal_checked_sub(a_mantissa: i128, a_scale: u32, b_mantissa: i128, b_scale: u32) -> Option<(i128, u32)>;

/// What `rust_decimal::Decimal::checked_mul` returns for two decimals given by their parts,
/// as the parts of the product.
pub uninterp spec fn decimal_checked_mul(a_mantissa: i128, a_scale: u32, b_mantissa: i128, b_scale: u32) -> Option<(i128, u32)>;

/// The decimal digit for `n` in `0..10`.
pub open spec fn decimal_digit(n: int) -> char {
    (48 + n) as char
}

/// The decimal digits of `n`, most significant first, with no leading zero (none for zero).
pub open spec fn decimal_digits(n: nat) -> Seq<char>
    decreases n,
{
    if n == 0 {
        Seq::empty()
    } else {
        decimal_digits(n / 10).push(decimal_digit((n % 10) as int))
    }
}

/// `count` zeros.
pub open spec fn zeros(count: nat) -> Seq<char> {
    Seq::new(count, |i: int| '0')
}

/// The text that `rust_decimal::Decimal` displays for `mantissa / 10^scale`: a `-` for a
/// negative number, the digits of the whole part (`0` where there are none) and, for a
/// positive scale, a `.` followed by exactly `scale` digits.
pub open spec fn decimal_text(mantissa: int, scale: nat) -> Seq<char> {
    let magnitude = if mantissa < 0 { -mantissa } else { mantissa };
    let digits = decimal_digits(magnitude as nat);
    let padded = if digits.len() < scale { zeros((scale - digits.len()) as nat) + digits } else { digits };
    let whole = padded.subrange(0, padded.len() - scale);
    let body = if scale == 0 {
        if padded.len() == 0 { seq!['0'] } else { padded }
    } else {
        (if whole.len() == 0 { seq!['0'] } else { whole }) + seq!['.'] + padded.subrange(
            padded.len() - scale,
            padded.len() as int,
        )
    };
    if mantissa < 0 { seq!['-'] + body } else { body }
}

/// A decimal number `mantissa / 10^scale`.
#[derive(Clone, Copy, Debug)]
pub struct DecimalNumber {
    mantissa: i128,
    scale: u32,
}

impl DecimalNumber {
    /// Every decimal has its parts in range.
    #[verifier::type_invariant]
    pub open spec fn in_range(self) -> bool {
        parts_in_range(self.mantissa_of() as int, self.scale_of() as int)
    }

    /// The mantissa.
    pub closed spec fn mantissa_of(self) -> i128 {
        self.mantissa
    }

    /// The scale: the number of digits after the decimal point.
    pub closed spec fn scale_of(self) -> u32 {
        self.scale
    }

    /// The value, counted in units of 10^-28 (an integer for every decimal).
    pub open spec fn value(self) -> int {
        parts_value(self.mantissa_of() as int, self.scale_of() as int)
    }

    /// The decimal `mantissa / 10^scale`.
    pub fn from_i128_with_scale(mantissa: i128, scale: u32) -> (r: DecimalNumber)
        requires
            parts_in_range(mantissa as int, scale as int),
        ensures
            r.mantissa_of() == mantissa,
            r.scale_of() == scale,
    {
        DecimalNumber { mantissa, scale }
    }

    /// The decimal `mantissa / 10^scale`, or `None` when the parts are out of range.
    pub fn try_from_i128_with_scale(mantissa: i128, scale: u32) -> (r: Option<DecimalNumber>)
        ensures
            r is Some <==> parts_in_range(mantissa as int, scale as int),
            r matches Some(d) ==> d.mantissa_of() == mantissa && d.scale_of() == scale,
    {
        if scale <= MAX_SCALE && -MAX_MANTISSA <= mantissa && mantissa <= MAX_MANTISSA {
            Some(DecimalNumber { mantissa, scale })
        } else {
            None
        }
    }

    /// The whole number `n`, with no digits after the decimal point.
    pub fn from_i64(n: i64) -> (r: DecimalNumber)
        ensures
            r.mantissa_of() == n,
            r.scale_of() == 0,
    {
        DecimalNumber { mantissa: n as i128, scale: 0 }
    }

    pub fn mantissa(&self) -> (r: i128)
        ensures
            r == self.mantissa_of(),
            -MAX_MANTISSA <= r <= MAX_MANTISSA,
    {
        proof {
            use_type_invariant(self);
        }
        self.mantissa
    }

    pub fn scale(&self) -> (r: u32)
        ensures
            r == self.scale_of(),
            r <= MAX_SCALE,
    {
        proof {
            use_type_invariant(self);
        }
        self.scale
    }

    /// `self - other`, or `None` where `rust_decimal` reports an overflow.
    pub fn checked_sub(&self, other: &DecimalNumber) -> (r: Option<DecimalNumber>)
        ensures
            match decimal_checked_sub(self.mantissa_of(), self.scale_of(), other.mantissa_of(), other.scale_of()) {
                Some(p) => r matches Some(d) && d.mantissa_of() == p.0 && d.scale_of() == p.1,
                None => r is None,
            },
            exact_difference(*self, *other) ==> (r matches Some(d) && d.value() == self.value() - other.value()),
    {
        rust_decimal_checked_sub(self, other)
    }

    /// `self * other`, or `None` where `rust_decimal` reports an overflow.
    pub fn checked_mul(&self, other: &DecimalNumber) -> (r: Option<DecimalNumber>)
        ensures
            match decimal_checked_mul(self.mantissa_of(), self.scale_of(), other.mantissa_of(), other.scale_of()) {
                Some(p) => r matches Some(d) && d.mantissa_of() == p.0 && d.scale_of() == p.1,
                None => r is None,
            },
            exact_product(*self, *other) ==> (r matches Some(d) && d.value() == parts_value(
                self.mantissa_of() * other.mantissa_of(),
                self.scale_of() + other.scale_of(),
            )),
    {
        rust_decimal_checked_mul(self, other)
    }

    /// The decimal as `rust_decimal` displays it.
    pub fn to_string(&self) -> (r: String)
        ensures
            r@ == decimal_text(self.mantissa_of() as int, self.scale_of() as nat),
    {
        rust_decimal_display(self)
    }
}

/// Calls `rust_decimal::Decimal::checked_sub`; the contract claims that the parts of its result
/// are what `decimal_checked_sub` names, and that where the operand with the smaller scale,
/// brought to the larger one, still fits in 96 bits and so does the difference, the result is
/// the exact difference: the crate's fast paths subtract the aligned mantissas in 128 bits,
/// and its slow path multiplies the smaller-scale operand up by powers of ten and subtracts
/// in 96 bits, rounding only where the aligned operand or the sum needs more. The parts of
/// any decimal are in range. Which parts the result has beyond its value, and how it is
/// rounded in the other cases, is left to the name.
#[verifier::external_body]
fn rust_decimal_checked_sub(a: &DecimalNumber, b: &DecimalNumber) -> (r: Option<DecimalNumber>)
    ensures
        match decimal_checked_sub(a.mantissa_of(), a.scale_of(), b.mantissa_of(), b.scale_of()) {
            Some(p) => r matches Some(d) && d.mantissa_of() == p.0 && d.scale_of() == p.1,
            None => r is None,
        },
        exact_difference(*a, *b) ==> r is Some && r->0.value() == a.value() - b.value(),
{
    let x = rust_decimal::Decimal::from_i128_with_scale(a.mantissa, a.scale);
    let y = rust_decimal::Decimal::from_i128_with_scale(b.mantissa, b.scale);
    match x.checked_sub(y) {
        Some(d) => Some(DecimalNumber { mantissa: d.mantissa(), scale: d.scale() }),
        None => None,
    }
}

/// Calls `rust_decimal::Decimal::checked_mul`; the contract claims that the parts of its result
/// are what `decimal_checked_mul` names, and that where the scales add up to at most 28 and
/// the product of the mantissas is in range, the result is the exact product (the crate
/// only rescales a product wider than 96 bits or with a larger scale). Rounding in the
/// other cases is left to the name.
#[verifier::external_body]
fn rust_decimal_checked_mul(a: &DecimalNumber, b: &DecimalNumber) -> (r: Option<DecimalNumber>)
    ensures
        match decimal_checked_mul(a.mantissa_of(), a.scale_of(), b.mantissa_of(), b.scale_of()) {
            Some(p) => r matches Some(d) && d.mantissa_of() == p.0 && d.scale_of() == p.1,
            None => r is None,
        },
        exact_product(*a, *b) ==> r is Some && r->0.value() == parts_value(
            a.mantissa_of() * b.mantissa_of(),
            a.scale_of() + b.scale_of(),
        ),
{
    let x = rust_decimal::Decimal::from_i128_with_scale(a.mantissa, a.scale);
    let y = rust_decimal::Decimal::from_i128_with_scale(b.mantissa, b.scale);
    match x.checked_mul(y) {
        Some(d) => Some(DecimalNumber { mantissa: d.mantissa(), scale: d.scale() }),
        None => None,
    }
}

/// Calls `PartialEq::eq` of `rust_decimal::Decimal`; the contract claims that it compares the
/// two numbers by value, whatever their scales.
#[verifier::external_body]
fn rust_decimal_eq(a: &DecimalNumber, b: &DecimalNumber) -> (r: bool)
    ensures
        r == (a.value() == b.value()),
{
    rust_decimal::Decimal::from_i128_with_scale(a.mantissa, a.scale)
        == rust_decimal::Decimal::from_i128_with_scale(b.mantissa, b.scale)
}

/// Calls `ToString::to_string` on a `rust_decimal::Decimal`; the contract claims the text that
/// the crate's `to_str_internal` writes with no precision and `pad_integral` signs: the digits
/// of the mantissa with the point `scale` places from the right.
#[verifier::external_body]
fn rust_decimal_display(a: &DecimalNumber) -> (r: String)
    ensures
        r@ == decimal_text(a.mantissa_of() as int, a.scale_of() as nat),
{
    rust_decimal::Decimal::from_i128_with_scale(a.mantissa, a.scale).to_string()
}

impl PartialEq for DecimalNumber {
    fn eq(&self, other: &DecimalNumber) -> (r: bool) {
        rust_decimal_eq(self, other)
    }
}

impl PartialEqSpecImpl for DecimalNumber {
    open spec fn obeys_eq_spec() -> bool {
        true
    }

    open spec fn eq_spec(&self, other: &DecimalNumber) -> bool {
        self.value() == other.value()
    }
}

impl Eq for DecimalNumber {}

/// Two decimals are equal exactly when they have the same value, whatever their scales; at
/// the same scale, exactly when their mantissas are equal. So a nonzero number never equals
/// its negation, and `1.5` equals `1.50`.
pub proof fn lemma_eq_is_value_equality(a: DecimalNumber, b: DecimalNumber)
    ensures
        PartialEqSpec::eq_spec(&a, &b) <==> a.value() == b.value(),
        a.scale_of() == b.scale_of() ==> (PartialEqSpec::eq_spec(&a, &b) <==> a.mantissa_of() == b.mantissa_of()),
        a.scale_of() == b.scale_of() && a.mantissa_of() == -b.mantissa_of() && a.mantissa_of() != 0
            ==> !PartialEqSpec::eq_spec(&a, &b),
{
    if a.scale_of() == b.scale_of() {
        let p = pow(10, (MAX_SCALE - a.scale_of()) as nat);
        lemma_pow_positive(10, (MAX_SCALE - a.scale_of()) as nat);
        let ma = a.mantissa_of() as int;
        let mb = b.mantissa_of() as int;
        assert(ma * p == mb * p <==> ma == mb) by (nonlinear_arith)
            requires
                p > 0,
        ;
    }
}

/// How `a` compares with `b` by value, whatever their scales.
pub open spec fn value_order(a: DecimalNumber, b: DecimalNumber) -> Option<Ordering> {
    if a.value() < b.value() {
        Some(Ordering::Less)
    } else if a.value() > b.value() {
        Some(Ordering::Greater)
    } else {
        Some(Ordering::Equal)
    }
}

/// Calls `PartialOrd::partial_cmp` of `rust_decimal::Decimal`; the contract claims that it
/// orders the two numbers by value, whatever their scales (the crate's `cmp_impl` brings both
/// to the larger scale before comparing, and always answers).
#[verifier::external_body]
fn rust_decimal_partial_cmp(a: &DecimalNumber, b: &DecimalNumber) -> (r: Option<Ordering>)
    ensures
        r == value_order(*a, *b),
{
    rust_decimal::Decimal::from_i128_with_scale(a.mantissa, a.scale).partial_cmp(
        &rust_decimal::Decimal::from_i128_with_scale(b.mantissa, b.scale),
    )
}

impl PartialOrd for DecimalNumber {
    fn partial_cmp(&self, other: &DecimalNumber) -> (r: Option<Ordering>) {
        rust_decimal_partial_cmp(self, other)
    }
}

impl PartialOrdSpecImpl for DecimalNumber {
    open spec fn obeys_partial_cmp_spec() -> bool {
        true
    }

    open spec fn partial_cmp_spec(&self, other: &DecimalNumber) -> Option<Ordering> {
        value_order(*self, *other)
    }
}

impl Default for DecimalNumber {
    /// Zero, with no digits after the decimal point.
    fn default() -> (r: DecimalNumber)
        ensures
            r.mantissa_of() == 0,
            r.scale_of() == 0,
    {
        DecimalNumber { mantissa: 0, scale: 0 }
    }
}

} // verus!
