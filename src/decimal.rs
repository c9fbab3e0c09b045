//! Fixed-point decimal values with the arithmetic of `rust_decimal`.
//!
//! A [`Dec`] holds the parts that `rust_decimal::Decimal` is made of: a signed
//! mantissa of at most 96 bits and a scale of at most 28, meaning
//! `mantissa / 10^scale`. Every operation converts to `rust_decimal::Decimal`,
//! makes the call, and converts back.

use vstd::prelude::*;

verus! {

/// Largest mantissa magnitude that `rust_decimal` represents (2^96 - 1).
pub const MAX_MANTISSA: i128 = 79228162514264337593543950335;

/// Largest scale that `rust_decimal` represents.
pub const MAX_SCALE: u32 = 28;

/// Largest mantissa magnitude that `add` and `sub` take (below 2^64).
pub const MAX_ADD_OPERAND: i128 = 18446744073709551615;

/// `10^n`.
pub open spec fn pow10(n: nat) -> int
    decreases n,
{
    if n == 0 {
        1
    } else {
        10 * pow10((n - 1) as nat)
    }
}

pub open spec fn abs(x: int) -> int {
    if x < 0 {
        -x
    } else {
        x
    }
}

/// A decimal number `mantissa / 10^scale`.
#[derive(Clone, Copy, Debug, PartialEq, Eq)]
pub struct Dec {
    pub mantissa: i128,
    pub scale: u32,
}

/// The rounding strategies of `rust_decimal` that this library uses.
#[derive(Clone, Copy, Debug, PartialEq, Eq)]
pub enum RoundingMode {
    /// Drop the digits past the last place kept.
    ToZero,
    /// Step away from zero when any dropped digit is non-zero.
    AwayFromZero,
    /// Round to nearest; an exact half goes toward zero.
    MidpointTowardZero,
    /// Round to nearest; an exact half goes away from zero.
    MidpointAwayFromZero,
}

impl Dec {
    /// The value is one that `rust_decimal::Decimal` can hold.
    pub open spec fn wf(self) -> bool {
        -MAX_MANTISSA <= self.mantissa <= MAX_MANTISSA && self.scale <= MAX_SCALE
    }

    /// `self <= other` as numbers, whatever the two scales.
    pub open spec fn value_le(self, other: Dec) -> bool {
        self.mantissa * pow10(other.scale as nat) <= other.mantissa * pow10(self.scale as nat)
    }

    /// `self == other` as numbers, whatever the two scales.
    pub open spec fn value_eq(self, other: Dec) -> bool {
        self.mantissa * pow10(other.scale as nat) == other.mantissa * pow10(self.scale as nat)
    }

    /// The number of places after the point, as `rust_decimal` reports it.
    pub open spec fn places(self) -> nat {
        self.scale as nat
    }

    /// `num / 10^scale`, as `rust_decimal::Decimal::new` builds it.
    pub fn new(num: i64, scale: u32) -> (r: Dec)
        requires
            scale <= MAX_SCALE,
        ensures
            r.mantissa == num as i128,
            r.scale == scale,
            r.wf(),
    {
        Dec { mantissa: num as i128, scale }
    }

    pub fn zero() -> (r: Dec)
        ensures
            r.mantissa == 0,
            r.scale == 0,
            r.wf(),
    {
        Dec { mantissa: 0, scale: 0 }
    }
}

/// The mantissa that rounding a magnitude `mag` by the divisor `d = 10^k` keeps.
pub open spec fn round_magnitude(mag: int, d: int, mode: RoundingMode) -> int {
    let q = mag / d;
    let rem = mag % d;
    match mode {
        RoundingMode::ToZero => q,
        RoundingMode::AwayFromZero => if rem > 0 { q + 1 } else { q },
        RoundingMode::MidpointTowardZero => if 2 * rem > d { q + 1 } else { q },
        RoundingMode::MidpointAwayFromZero => if 2 * rem >= d { q + 1 } else { q },
    }
}

/// `x` rounded to `dp` places: unchanged when it has no more than `dp` places,
/// otherwise re-expressed with exactly `dp` places.
pub open spec fn round_dp_spec(x: Dec, dp: u32, mode: RoundingMode) -> Dec {
    if x.scale <= dp {
        x
    } else {
        let q = round_magnitude(abs(x.mantissa as int), pow10((x.scale - dp) as nat), mode);
        Dec { mantissa: (if x.mantissa < 0 { -q } else { q }) as i128, scale: dp }
    }
}

/// The exact product, with the scales added; a zero product has scale zero.
pub open spec fn mul_spec(a: Dec, b: Dec) -> Dec {
    if a.mantissa == 0 || b.mantissa == 0 {
        Dec { mantissa: 0, scale: 0 }
    } else {
        Dec { mantissa: (a.mantissa * b.mantissa) as i128, scale: (a.scale + b.scale) as u32 }
    }
}

/// The operands of a product that is exact.
pub open spec fn mul_fits(a: Dec, b: Dec) -> bool {
    a.scale + b.scale <= MAX_SCALE && abs(a.mantissa * b.mantissa) <= MAX_MANTISSA
}

pub open spec fn max_scale(a: Dec, b: Dec) -> u32 {
    if a.scale >= b.scale {
        a.scale
    } else {
        b.scale
    }
}

/// The mantissa of `x` at the larger scale `s`.
pub open spec fn aligned(x: Dec, s: u32) -> int {
    x.mantissa * pow10((s - x.scale) as nat)
}

/// The exact sum at the larger of the two scales; a zero operand leaves the other unchanged.
pub open spec fn add_spec(a: Dec, b: Dec) -> Dec {
    if a.mantissa == 0 {
        b
    } else if b.mantissa == 0 {
        a
    } else {
        let s = max_scale(a, b);
        Dec { mantissa: (aligned(a, s) + aligned(b, s)) as i128, scale: s }
    }
}

/// The exact difference at the larger of the two scales.
pub open spec fn sub_spec(a: Dec, b: Dec) -> Dec {
    if a.mantissa == 0 {
        Dec { mantissa: (-b.mantissa) as i128, scale: b.scale }
    } else if b.mantissa == 0 {
        a
    } else {
        let s = max_scale(a, b);
        Dec { mantissa: (aligned(a, s) - aligned(b, s)) as i128, scale: s }
    }
}

/// Operands whose sum or difference `rust_decimal` computes on its 64-bit paths.
pub open spec fn add_operands_ok(a: Dec, b: Dec) -> bool {
    &&& abs(a.mantissa as int) <= MAX_ADD_OPERAND
    &&& abs(b.mantissa as int) <= MAX_ADD_OPERAND
    &&& abs(a.scale - b.scale) <= 19
}

pub open spec fn add_fits(a: Dec, b: Dec) -> bool {
    let s = max_scale(a, b);
    add_operands_ok(a, b) && abs(aligned(a, s) + aligned(b, s)) <= MAX_MANTISSA
}

pub open spec fn sub_fits(a: Dec, b: Dec) -> bool {
    let s = max_scale(a, b);
    add_operands_ok(a, b) && abs(aligned(a, s) - aligned(b, s)) <= MAX_MANTISSA
}

/// What `rust_decimal::Decimal::checked_div` returns on two decimals, each given
/// by mantissa and scale.
pub uninterp spec fn quotient_of(num_mantissa: int, num_scale: int, den_mantissa: int, den_scale: int) -> Option<(int, int)>;

/// What `rust_decimal::Decimal::checked_mul` returns on two decimals.
pub uninterp spec fn product_of(a_mantissa: int, a_scale: int, b_mantissa: int, b_scale: int) -> Option<(int, int)>;

/// What `rust_decimal::Decimal::checked_add` returns on two decimals.
pub uninterp spec fn sum_of(a_mantissa: int, a_scale: int, b_mantissa: int, b_scale: int) -> Option<(int, int)>;

/// What `rust_decimal::Decimal::checked_sub` returns on two decimals.
pub uninterp spec fn difference_of(a_mantissa: int, a_scale: int, b_mantissa: int, b_scale: int) -> Option<(int, int)>;

/// A mantissa and scale pair as a decimal.
pub open spec fn as_dec(p: Option<(int, int)>) -> Option<Dec> {
    match p {
        Some(q) => Some(Dec { mantissa: q.0 as i128, scale: q.1 as u32 }),
        None => None,
    }
}

/// The outcome of `checked_mul`: exact where `mul_fits`, otherwise as `rust_decimal` decides.
pub open spec fn product(a: Dec, b: Dec) -> Option<Dec> {
    as_dec(product_of(a.mantissa as int, a.scale as int, b.mantissa as int, b.scale as int))
}

/// The outcome of `checked_add`.
pub open spec fn sum(a: Dec, b: Dec) -> Option<Dec> {
    as_dec(sum_of(a.mantissa as int, a.scale as int, b.mantissa as int, b.scale as int))
}

/// The outcome of `checked_sub`.
pub open spec fn difference(a: Dec, b: Dec) -> Option<Dec> {
    as_dec(difference_of(a.mantissa as int, a.scale as int, b.mantissa as int, b.scale as int))
}

/// The outcome of `checked_div`.
pub open spec fn quotient(a: Dec, b: Dec) -> Option<Dec> {
    as_dec(quotient_of(a.mantissa as int, a.scale as int, b.mantissa as int, b.scale as int))
}

/// Relies on `rust_decimal::Decimal::round_dp_with_strategy`: a value with at most
/// `dp` places comes back as it is; otherwise the magnitude is divided by
/// `10^(scale - dp)`, the strategy decides on the remainder, the sign is kept and
/// the scale becomes `dp`.
#[verifier::external_body]
pub(crate) fn round_dp(x: Dec, dp: u32, mode: RoundingMode) -> (r: Dec)
    requires
        x.wf(),
    ensures
        r == round_dp_spec(x, dp, mode),
        r.wf(),
{
    let strategy = match mode {
        RoundingMode::ToZero => rust_decimal::RoundingStrategy::ToZero,
        RoundingMode::AwayFromZero => rust_decimal::RoundingStrategy::AwayFromZero,
        RoundingMode::MidpointTowardZero => rust_decimal::RoundingStrategy::MidpointTowardZero,
        RoundingMode::MidpointAwayFromZero => rust_decimal::RoundingStrategy::MidpointAwayFromZero,
    };
    let d = rust_decimal::Decimal::from_i128_with_scale(x.mantissa, x.scale);
    let r = d.round_dp_with_strategy(dp, strategy);
    Dec { mantissa: r.mantissa(), scale: r.scale() }
}

/// Relies on `rust_decimal::Decimal::checked_mul`: a product of non-zero operands
/// that fits in 96 bits at a scale of at most 28 is exact with the scales added;
/// a zero operand gives `Decimal::ZERO`. Other products are rounded or refused,
/// as a function of the operands alone.
#[verifier::external_body]
pub(crate) fn dec_mul(a: Dec, b: Dec) -> (r: Option<Dec>)
    requires
        a.wf(),
        b.wf(),
    ensures
        mul_fits(a, b) ==> r == Some(mul_spec(a, b)),
        r matches Some(x) ==> product_of(a.mantissa as int, a.scale as int, b.mantissa as int, b.scale as int)
            == Some((x.mantissa as int, x.scale as int)),
        r is None ==> product_of(a.mantissa as int, a.scale as int, b.mantissa as int, b.scale as int) is None,
        r matches Some(x) ==> x.wf(),
{
    let x = rust_decimal::Decimal::from_i128_with_scale(a.mantissa, a.scale);
    let y = rust_decimal::Decimal::from_i128_with_scale(b.mantissa, b.scale);
    x.checked_mul(y).map(|v| Dec { mantissa: v.mantissa(), scale: v.scale() })
}

/// Relies on `rust_decimal::Decimal::checked_add`: on operands below 2^64 whose
/// scales differ by at most 19, the smaller scale is raised to the larger and the
/// mantissas are added exactly when the sum fits in 96 bits; a zero operand
/// returns the other one. Other sums are rounded or refused, as a function of
/// the operands alone.
#[verifier::external_body]
pub(crate) fn dec_add(a: Dec, b: Dec) -> (r: Option<Dec>)
    requires
        a.wf(),
        b.wf(),
    ensures
        add_fits(a, b) ==> r == Some(add_spec(a, b)),
        r matches Some(x) ==> sum_of(a.mantissa as int, a.scale as int, b.mantissa as int, b.scale as int)
            == Some((x.mantissa as int, x.scale as int)),
        r is None ==> sum_of(a.mantissa as int, a.scale as int, b.mantissa as int, b.scale as int) is None,
        r matches Some(x) ==> x.wf(),
{
    let x = rust_decimal::Decimal::from_i128_with_scale(a.mantissa, a.scale);
    let y = rust_decimal::Decimal::from_i128_with_scale(b.mantissa, b.scale);
    x.checked_add(y).map(|v| Dec { mantissa: v.mantissa(), scale: v.scale() })
}

/// Relies on `rust_decimal::Decimal::checked_sub`, which shares the paths of
/// `checked_add`: exact at the larger scale; `0 - b` is `-b`, `a - 0` is `a`.
#[verifier::external_body]
pub(crate) fn dec_sub(a: Dec, b: Dec) -> (r: Option<Dec>)
    requires
        a.wf(),
        b.wf(),
    ensures
        sub_fits(a, b) ==> r == Some(sub_spec(a, b)),
        r matches Some(x) ==> difference_of(a.mantissa as int, a.scale as int, b.mantissa as int, b.scale as int)
            == Some((x.mantissa as int, x.scale as int)),
        r is None ==> difference_of(a.mantissa as int, a.scale as int, b.mantissa as int, b.scale as int) is None,
        r matches Some(x) ==> x.wf(),
{
    let x = rust_decimal::Decimal::from_i128_with_scale(a.mantissa, a.scale);
    let y = rust_decimal::Decimal::from_i128_with_scale(b.mantissa, b.scale);
    x.checked_sub(y).map(|v| Dec { mantissa: v.mantissa(), scale: v.scale() })
}

/// Relies on `<rust_decimal::Decimal as PartialOrd>::le`, which compares values.
#[verifier::external_body]
pub(crate) fn dec_le(a: Dec, b: Dec) -> (r: bool)
    requires
        a.wf(),
        b.wf(),
    ensures
        r == a.value_le(b),
{
    let x = rust_decimal::Decimal::from_i128_with_scale(a.mantissa, a.scale);
    let y = rust_decimal::Decimal::from_i128_with_scale(b.mantissa, b.scale);
    x <= y
}

/// Relies on `rust_decimal::Decimal::checked_div`: `None` on a zero divisor, and
/// otherwise a quotient that depends on the two operands alone.
#[verifier::external_body]
pub(crate) fn dec_div(a: Dec, b: Dec) -> (r: Option<Dec>)
    requires
        a.wf(),
        b.wf(),
    ensures
        r matches Some(q) ==> quotient_of(a.mantissa as int, a.scale as int, b.mantissa as int, b.scale as int)
            == Some((q.mantissa as int, q.scale as int)),
        r is None ==> quotient_of(a.mantissa as int, a.scale as int, b.mantissa as int, b.scale as int) is None,
        r matches Some(q) ==> q.wf(),
        b.mantissa == 0 ==> r is None,
{
    let x = rust_decimal::Decimal::from_i128_with_scale(a.mantissa, a.scale);
    let y = rust_decimal::Decimal::from_i128_with_scale(b.mantissa, b.scale);
    x.checked_div(y).map(|q| Dec { mantissa: q.mantissa(), scale: q.scale() })
}

} // verus!
