//! Decimal amounts of money, and the arithmetic of `rust_decimal` on them.
use vstd::prelude::*;
use rust_decimal::Decimal;

verus! {

/// The largest mantissa of a decimal: 2^96 - 1.
pub const MAX_MANTISSA: i128 = 79228162514264337593543950335;

/// The largest number of digits after the point of a decimal.
pub const MAX_SCALE: u32 = 28;

/// Ten to the power `n`.
pub open spec fn pow10(n: nat) -> int
    decreases n,
{
    if n == 0 {
        1
    } else {
        10 * pow10((n - 1) as nat)
    }
}

/// A decimal number `mantissa / 10^scale`, as a `rust_decimal::Decimal`
/// holds one.
#[derive(Clone, Copy, Debug)]
pub struct Amount {
    pub mantissa: i128,
    pub scale: u32,
}

impl Amount {
    /// Whether the number is one that a `Decimal` can hold.
    pub open spec fn wf(self) -> bool {
        &&& self.scale <= MAX_SCALE
        &&& -MAX_MANTISSA <= self.mantissa <= MAX_MANTISSA
    }

    /// The number, counted in units of 10^-28.
    pub open spec fn value(self) -> int {
        self.mantissa * pow10((MAX_SCALE - self.scale) as nat)
    }

    /// Zero, as `Decimal::from(0)` writes it.
    pub fn zero() -> (r: Amount)
        ensures
            r.mantissa == 0,
            r.scale == 0,
            r.wf(),
            r.value() == 0,
    {
        Amount { mantissa: 0, scale: 0 }
    }
}

/// The larger of the scales of two numbers.
pub open spec fn larger_scale(a: Amount, b: Amount) -> u32 {
    if a.scale >= b.scale {
        a.scale
    } else {
        b.scale
    }
}

/// The mantissa of `a` written with `scale` digits after the point.
pub open spec fn aligned(a: Amount, scale: u32) -> int {
    a.mantissa * pow10((scale - a.scale) as nat)
}

/// Whether a mantissa fits in the 96 bits of a decimal.
pub open spec fn fits(m: int) -> bool {
    -MAX_MANTISSA <= m <= MAX_MANTISSA
}

/// Whether the exact sum of two numbers, written with the larger of their
/// scales, fits in a decimal.
pub open spec fn sum_fits(a: Amount, b: Amount) -> bool {
    fits(aligned(a, larger_scale(a, b)) + aligned(b, larger_scale(a, b)))
}

/// Whether the exact difference of two numbers, written with the larger of
/// their scales, fits in a decimal.
pub open spec fn difference_fits(a: Amount, b: Amount) -> bool {
    fits(aligned(a, larger_scale(a, b)) - aligned(b, larger_scale(a, b)))
}

/// Whether a number, in units of 10^-28, lies within the range of the
/// decimals with `scale` digits after the point.
pub open spec fn within(value: int, scale: u32) -> bool {
    -MAX_MANTISSA * pow10((MAX_SCALE - scale) as nat) <= value <= MAX_MANTISSA * pow10(
        (MAX_SCALE - scale) as nat,
    )
}

/// The number of a mantissa and a scale.
pub open spec fn amount_of(p: (i128, u32)) -> Amount {
    Amount { mantissa: p.0, scale: p.1 }
}

/// The mantissa and scale of `Decimal::checked_add` on two decimals, each
/// given by its mantissa and scale.
pub uninterp spec fn decimal_sum(a_mantissa: i128, a_scale: u32, b_mantissa: i128, b_scale: u32) -> Option<(i128, u32)>;

/// The mantissa and scale of `Decimal::checked_sub` on two decimals, each
/// given by its mantissa and scale.
pub uninterp spec fn decimal_difference(a_mantissa: i128, a_scale: u32, b_mantissa: i128, b_scale: u32) -> Option<(i128, u32)>;

/// `a + b` as `rust_decimal` computes it, `None` where it overflows.
pub open spec fn sum_of(a: Amount, b: Amount) -> Option<Amount> {
    match decimal_sum(a.mantissa, a.scale, b.mantissa, b.scale) {
        Some(p) => Some(amount_of(p)),
        None => None,
    }
}

/// `a - b` as `rust_decimal` computes it, `None` where it overflows.
pub open spec fn difference_of(a: Amount, b: Amount) -> Option<Amount> {
    match decimal_difference(a.mantissa, a.scale, b.mantissa, b.scale) {
        Some(p) => Some(amount_of(p)),
        None => None,
    }
}

/// `Decimal::checked_add` on two decimals built by
/// `Decimal::from_i128_with_scale`. The result is named. Its source
/// (`ops::add::add_sub_internal`) shows the facts stated: the result is a
/// decimal whose scale is at most the larger scale of the two; where the
/// exact sum, written with that scale, fits in 96 bits, the result is
/// there and is exact. Where it does not fit, the source rounds or reports
/// an overflow; which, is left unsaid.
#[verifier::external_body]
fn decimal_checked_add(a: Amount, b: Amount) -> (r: Option<(i128, u32)>)
    requires
        a.wf(),
        b.wf(),
    ensures
        r == decimal_sum(a.mantissa, a.scale, b.mantissa, b.scale),
        r matches Some(p) ==> (amount_of(p).wf() && p.1 <= larger_scale(a, b)),
        sum_fits(a, b) ==> r is Some,
        r matches Some(p) ==> (sum_fits(a, b) ==> amount_of(p).value() == a.value() + b.value()),
{
    let x = Decimal::from_i128_with_scale(a.mantissa, a.scale);
    let y = Decimal::from_i128_with_scale(b.mantissa, b.scale);
    match x.checked_add(y) {
        Some(d) => Some((d.mantissa(), d.scale())),
        None => None,
    }
}

/// `Decimal::checked_sub` on two decimals built by
/// `Decimal::from_i128_with_scale`. The result is named; the facts stated
/// are those of `decimal_checked_add`, for the difference (the source
/// computes both in `ops::add::add_sub_internal`).
#[verifier::external_body]
fn decimal_checked_sub(a: Amount, b: Amount) -> (r: Option<(i128, u32)>)
    requires
        a.wf(),
        b.wf(),
    ensures
        r == decimal_difference(a.mantissa, a.scale, b.mantissa, b.scale),
        r matches Some(p) ==> (amount_of(p).wf() && p.1 <= larger_scale(a, b)),
        difference_fits(a, b) ==> r is Some,
        r matches Some(p) ==> (difference_fits(a, b) ==> amount_of(p).value() == a.value()
            - b.value()),
{
    let x = Decimal::from_i128_with_scale(a.mantissa, a.scale);
    let y = Decimal::from_i128_with_scale(b.mantissa, b.scale);
    match x.checked_sub(y) {
        Some(d) => Some((d.mantissa(), d.scale())),
        None => None,
    }
}

/// `a + b` as `rust_decimal` computes it; `None` where the sum overflows.
pub fn checked_sum(a: &Amount, b: &Amount) -> (r: Option<Amount>)
    requires
        a.wf(),
        b.wf(),
    ensures
        r == sum_of(*a, *b),
        r matches Some(c) ==> (c.wf() && c.scale <= larger_scale(*a, *b)),
        sum_fits(*a, *b) ==> r is Some,
        r matches Some(c) ==> (sum_fits(*a, *b) ==> c.value() == a.value() + b.value()),
{
    match decimal_checked_add(*a, *b) {
        Some(p) => Some(Amount { mantissa: p.0, scale: p.1 }),
        None => None,
    }
}

/// `a - b` as `rust_decimal` computes it; `None` where the difference
/// overflows.
pub fn checked_difference(a: &Amount, b: &Amount) -> (r: Option<Amount>)
    requires
        a.wf(),
        b.wf(),
    ensures
        r == difference_of(*a, *b),
        r matches Some(c) ==> (c.wf() && c.scale <= larger_scale(*a, *b)),
        difference_fits(*a, *b) ==> r is Some,
        r matches Some(c) ==> (difference_fits(*a, *b) ==> c.value() == a.value() - b.value()),
{
    match decimal_checked_sub(*a, *b) {
        Some(p) => Some(Amount { mantissa: p.0, scale: p.1 }),
        None => None,
    }
}

/// Powers of ten are positive.
pub proof fn lemma_pow10_positive(n: nat)
    ensures
        pow10(n) > 0,
    decreases n,
{
    if n > 0 {
        lemma_pow10_positive((n - 1) as nat);
    }
}

/// `10^(m + n) == 10^m * 10^n`.
pub proof fn lemma_pow10_add(m: nat, n: nat)
    ensures
        pow10(m + n) == pow10(m) * pow10(n),
    decreases m,
{
    if m > 0 {
        lemma_pow10_add((m - 1) as nat, n);
        let a = pow10((m - 1) as nat);
        let b = pow10(n);
        assert(pow10(m + n) == 10 * pow10((m - 1 + n) as nat));
        assert(10 * (a * b) == (10 * a) * b) by (nonlinear_arith);
    }
}

/// Powers of ten grow with the exponent.
pub proof fn lemma_pow10_monotone(m: nat, n: nat)
    requires
        m <= n,
    ensures
        pow10(m) <= pow10(n),
{
    lemma_pow10_add(m, (n - m) as nat);
    lemma_pow10_positive(m);
    lemma_pow10_positive((n - m) as nat);
    let a = pow10(m);
    let b = pow10((n - m) as nat);
    assert(a <= a * b) by (nonlinear_arith)
        requires
            a > 0,
            b >= 1,
    ;
}

/// The value of a number is its mantissa written with `scale` digits after
/// the point, times `10^(28 - scale)`.
proof fn lemma_value_aligned(a: Amount, scale: u32)
    requires
        a.wf(),
        a.scale <= scale <= MAX_SCALE,
    ensures
        a.value() == aligned(a, scale) * pow10((MAX_SCALE - scale) as nat),
{
    let x = pow10((scale - a.scale) as nat);
    let y = pow10((MAX_SCALE - scale) as nat);
    lemma_pow10_add((scale - a.scale) as nat, (MAX_SCALE - scale) as nat);
    assert(((scale - a.scale) as nat) + ((MAX_SCALE - scale) as nat) == (MAX_SCALE
        - a.scale) as nat);
    let m = a.mantissa as int;
    assert(m * (x * y) == (m * x) * y) by (nonlinear_arith);
}

/// A mantissa times a positive factor stays within `MAX_MANTISSA` times a
/// factor at least as large only where the mantissa fits.
proof fn lemma_scaled_fits(m: int, p: int, q: int)
    requires
        p > 0,
        q <= p,
        -MAX_MANTISSA * q <= m * p <= MAX_MANTISSA * q,
    ensures
        fits(m),
{
    let k = MAX_MANTISSA as int;
    assert(-k <= m <= k) by (nonlinear_arith)
        requires
            k > 0,
            p > 0,
            q <= p,
            -k * q <= m * p,
            m * p <= k * q,
    ;
}

/// Two numbers of at most `scale` digits after the point whose exact sum
/// lies within the range of that scale have a sum that fits.
pub proof fn lemma_sum_fits_within(a: Amount, b: Amount, scale: u32)
    requires
        a.wf(),
        b.wf(),
        a.scale <= scale,
        b.scale <= scale,
        scale <= MAX_SCALE,
        within(a.value() + b.value(), scale),
    ensures
        sum_fits(a, b),
{
    let s = larger_scale(a, b);
    lemma_value_aligned(a, s);
    lemma_value_aligned(b, s);
    let p = pow10((MAX_SCALE - s) as nat);
    let q = pow10((MAX_SCALE - scale) as nat);
    lemma_pow10_positive((MAX_SCALE - s) as nat);
    lemma_pow10_monotone((MAX_SCALE - scale) as nat, (MAX_SCALE - s) as nat);
    let x = aligned(a, s);
    let y = aligned(b, s);
    assert((x + y) * p == x * p + y * p) by (nonlinear_arith);
    lemma_scaled_fits(x + y, p, q);
}

/// Two numbers of at most `scale` digits after the point whose exact
/// difference lies within the range of that scale have a difference that
/// fits.
pub proof fn lemma_difference_fits_within(a: Amount, b: Amount, scale: u32)
    requires
        a.wf(),
        b.wf(),
        a.scale <= scale,
        b.scale <= scale,
        scale <= MAX_SCALE,
        within(a.value() - b.value(), scale),
    ensures
        difference_fits(a, b),
{
    let s = larger_scale(a, b);
    lemma_value_aligned(a, s);
    lemma_value_aligned(b, s);
    let p = pow10((MAX_SCALE - s) as nat);
    let q = pow10((MAX_SCALE - scale) as nat);
    lemma_pow10_positive((MAX_SCALE - s) as nat);
    lemma_pow10_monotone((MAX_SCALE - scale) as nat, (MAX_SCALE - s) as nat);
    let x = aligned(a, s);
    let y = aligned(b, s);
    assert((x - y) * p == x * p - y * p) by (nonlinear_arith);
    lemma_scaled_fits(x - y, p, q);
}

} // verus!
