//! Exact decimal amounts.

use core::str::FromStr;
use vstd::arithmetic::power::pow;
use vstd::prelude::*;
use vstd::string::*;
use vstd::utf8::*;

verus! {

/// The largest scale a decimal can have.
pub const MAX_SCALE: u32 = 28;

/// The bound that the digits of a decimal stay below in magnitude: 2^96.
pub const MANTISSA_BOUND: i128 = 79228162514264337593543950336;

/// An exact decimal number: `mantissa / 10^scale`.
///
/// The digits are kept as written, so `3.50` has mantissa 350 and scale 2,
/// and `==` tells it apart from `3.5`. To compare two numbers by what they
/// are worth, use `has_same_value` and `is_below`.
#[derive(Clone, Copy, Debug, PartialEq, Eq, Structural)]
pub struct PgDecimal {
    pub mantissa: i128,
    pub scale: u32,
}

impl PgDecimal {
    /// The digits fit in 96 bits and the scale is at most 28.
    pub open spec fn wf(self) -> bool {
        &&& -MANTISSA_BOUND < self.mantissa < MANTISSA_BOUND
        &&& self.scale <= MAX_SCALE
    }

    /// Decides whether the digits fit in 96 bits and the scale is at most 28.
    pub fn is_well_formed(&self) -> (r: bool)
        ensures
            r == self.wf(),
    {
        -MANTISSA_BOUND < self.mantissa && self.mantissa < MANTISSA_BOUND && self.scale
            <= MAX_SCALE
    }

    /// The number is strictly greater than zero.
    pub open spec fn positive(self) -> bool {
        self.mantissa > 0
    }

    /// Decides whether the number is strictly greater than zero.
    pub fn is_positive(&self) -> (r: bool)
        ensures
            r == self.positive(),
    {
        self.mantissa > 0
    }

    /// The two numbers are worth the same, however many trailing zeros each
    /// is written with: brought to a common scale, their digits agree.
    pub open spec fn same_value(self, other: PgDecimal) -> bool {
        self.mantissa * pow(10, other.scale as nat) == other.mantissa * pow(10, self.scale as nat)
    }

    /// `self` is worth less than `other`: brought to a common scale, its
    /// digits are the smaller number.
    pub open spec fn below(self, other: PgDecimal) -> bool {
        self.mantissa * pow(10, other.scale as nat) < other.mantissa * pow(10, self.scale as nat)
    }

    /// Decides whether the two numbers are worth the same.
    pub fn has_same_value(&self, other: &PgDecimal) -> (r: bool)
        requires
            self.wf(),
            other.wf(),
        ensures
            r == self.same_value(*other),
    {
        decimal_eq(self, other)
    }

    /// Decides whether `self` is worth less than `other`.
    pub fn is_below(&self, other: &PgDecimal) -> (r: bool)
        requires
            self.wf(),
            other.wf(),
        ensures
            r == self.below(*other),
    {
        decimal_lt(self, other)
    }

    /// What the bytes of a stored value stand for: the bytes are read as
    /// UTF-8 text and the text as a decimal number.
    pub open spec fn sql_value(bytes: Seq<u8>) -> Option<PgDecimal> {
        if valid_utf8(bytes) {
            PgDecimal::parsed(decode_utf8(bytes))
        } else {
            None
        }
    }

    /// What a text stands for as a decimal number, if anything.
    pub open spec fn parsed(s: Seq<char>) -> Option<PgDecimal> {
        match decimal_from_str(s) {
            Some((mantissa, scale)) => Some(PgDecimal { mantissa, scale }),
            None => None,
        }
    }

    /// Reads a decimal number from a text.
    pub fn parse(s: &str) -> (r: Option<PgDecimal>)
        ensures
            r == PgDecimal::parsed(s@),
            r matches Some(d) ==> d.wf(),
    {
        decimal_parse(s)
    }

    /// What a text stands for as a decimal number that keeps every digit of
    /// the text, if anything.
    pub open spec fn parsed_exact(s: Seq<char>) -> Option<PgDecimal> {
        match decimal_from_str_exact(s) {
            Some((mantissa, scale)) => Some(PgDecimal { mantissa, scale }),
            None => None,
        }
    }

    /// Reads a decimal number from a text, and reads none where digits of
    /// the text would have to be dropped.
    pub fn parse_exact(s: &str) -> (r: Option<PgDecimal>)
        ensures
            r == PgDecimal::parsed_exact(s@),
            r matches Some(d) ==> d.wf(),
    {
        decimal_parse_exact(s)
    }

    /// Reads a decimal number from the bytes of a stored value.
    pub fn from_sql(bytes: &[u8]) -> (r: Option<PgDecimal>)
        ensures
            r == PgDecimal::sql_value(bytes@),
            r matches Some(d) ==> d.wf(),
    {
        match str_from_utf8(bytes) {
            Some(text) => {
                proof {
                    encode_utf8_decode_utf8(text@);
                }
                PgDecimal::parse(text)
            },
            None => None,
        }
    }
}

/// Numbers written with the same digits and the same scale are worth the
/// same, and no number is worth less than itself.
pub proof fn lemma_same_digits_same_value(a: PgDecimal, b: PgDecimal)
    requires
        a == b,
    ensures
        a.same_value(b),
        !a.below(b),
{
}

/// Of two numbers, exactly one holds: the first is worth less, they are
/// worth the same, or the second is worth less.
pub proof fn lemma_value_order_is_total(a: PgDecimal, b: PgDecimal)
    ensures
        a.below(b) || a.same_value(b) || b.below(a),
        !(a.below(b) && a.same_value(b)),
        !(a.below(b) && b.below(a)),
        !(a.same_value(b) && b.below(a)),
        a.same_value(b) == b.same_value(a),
{
}

/// A number is above zero exactly when zero, at any scale, is worth less
/// than it.
pub proof fn lemma_positive_is_above_zero(d: PgDecimal, scale: u32)
    ensures
        d.positive() <==> (PgDecimal { mantissa: 0, scale }).below(d),
{
    let zero = PgDecimal { mantissa: 0, scale };
    let p = pow(10, scale as nat);
    vstd::arithmetic::power::lemma_pow_positive(10, scale as nat);
    assert(0 * pow(10, d.scale as nat) == 0);
    assert(d.mantissa > 0 <==> d.mantissa * p > 0) by (nonlinear_arith)
        requires
            p > 0,
    ;
}

/// Calls `==` of `rust_decimal::Decimal` (`PartialEq::eq`) on the two numbers,
/// each made with `Decimal::from_i128_with_scale`, which panics on digits of
/// more than 96 bits or a scale above 28.
///
/// Claimed and not proved: the crate compares by value, so the result says
/// whether the digits agree once both numbers are brought to a common scale.
#[verifier::external_body]
fn decimal_eq(a: &PgDecimal, b: &PgDecimal) -> (r: bool)
    requires
        a.wf(),
        b.wf(),
    ensures
        r == a.same_value(*b),
{
    rust_decimal::Decimal::from_i128_with_scale(a.mantissa, a.scale)
        == rust_decimal::Decimal::from_i128_with_scale(b.mantissa, b.scale)
}

/// Calls `<` of `rust_decimal::Decimal` (`PartialOrd::lt`) on the two numbers,
/// each made with `Decimal::from_i128_with_scale`, which panics on digits of
/// more than 96 bits or a scale above 28.
///
/// Claimed and not proved: the crate orders by value, so the result says
/// whether the digits of the first are the smaller number once both numbers
/// are brought to a common scale.
#[verifier::external_body]
fn decimal_lt(a: &PgDecimal, b: &PgDecimal) -> (r: bool)
    requires
        a.wf(),
        b.wf(),
    ensures
        r == a.below(*b),
{
    rust_decimal::Decimal::from_i128_with_scale(a.mantissa, a.scale)
        < rust_decimal::Decimal::from_i128_with_scale(b.mantissa, b.scale)
}

/// The number that `rust_decimal` reads from a text, as its digits and its
/// scale, or `None` where it reads none.
pub uninterp spec fn decimal_from_str(s: Seq<char>) -> Option<(i128, u32)>;

/// Calls `<rust_decimal::Decimal as FromStr>::from_str` and hands back the
/// digits (`mantissa`) and the scale (`scale`) of what it read.
///
/// Claimed and not proved: the outcome depends on the text alone, and a
/// number that was read has fewer than 96 bits of digits and a scale of at
/// most 28, as the crate documents of every `Decimal`.
#[verifier::external_body]
fn decimal_parse(s: &str) -> (r: Option<PgDecimal>)
    ensures
        r is Some <==> decimal_from_str(s@) is Some,
        r matches Some(d) ==> decimal_from_str(s@) == Some((d.mantissa, d.scale)) && d.wf(),
{
    match rust_decimal::Decimal::from_str(s) {
        Ok(d) => Some(PgDecimal { mantissa: d.mantissa(), scale: d.scale() }),
        Err(_) => None,
    }
}

/// The number that `rust_decimal` reads from a text without rounding, as its
/// digits and its scale, or `None` where it reads none.
pub uninterp spec fn decimal_from_str_exact(s: Seq<char>) -> Option<(i128, u32)>;

/// Calls `rust_decimal::Decimal::from_str_exact` and hands back the digits
/// (`mantissa`) and the scale (`scale`) of what it read.
///
/// Claimed and not proved: the outcome depends on the text alone, and a
/// number that was read has fewer than 96 bits of digits and a scale of at
/// most 28, as the crate documents of every `Decimal`.
#[verifier::external_body]
fn decimal_parse_exact(s: &str) -> (r: Option<PgDecimal>)
    ensures
        r is Some <==> decimal_from_str_exact(s@) is Some,
        r matches Some(d) ==> decimal_from_str_exact(s@) == Some((d.mantissa, d.scale)) && d.wf(),
{
    match rust_decimal::Decimal::from_str_exact(s) {
        Ok(d) => Some(PgDecimal { mantissa: d.mantissa(), scale: d.scale() }),
        Err(_) => None,
    }
}

/// Calls `core::str::from_utf8`.
///
/// Claimed and not proved: it succeeds exactly on well-formed UTF-8, and the
/// text it gives back is encoded by the bytes it was given.
#[verifier::external_body]
fn str_from_utf8(bytes: &[u8]) -> (r: Option<&str>)
    ensures
        r is Some <==> valid_utf8(bytes@),
        r matches Some(text) ==> text.spec_bytes() == bytes@,
{
    match core::str::from_utf8(bytes) {
        Ok(text) => Some(text),
        Err(_) => None,
    }
}

} // verus!
