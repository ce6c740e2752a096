//! Fixed-point numbers as the sensor's measurements are given in, and the
//! arithmetic of the `fixed` crate on them.

use fixed::types::{I16F16, I18F14, U16F16};
use vstd::prelude::*;
use vstd::std_specs::cmp::PartialEqSpecImpl;

verus! {

/// A signed fixed-point number with 16 integer bits and 16 fractional bits.
///
/// The number is `bits / 65536`: it lies between −32768 and 32768, and
/// neighbouring numbers are 1/65536 apart. The representation is that of
/// `fixed::types::I16F16`, which does the arithmetic on these numbers.
#[derive(Clone, Copy, Debug, Eq, Hash)]
pub struct Fixed {
    /// The number in units of 1/65536.
    pub bits: i32,
}

/// The thousandths in a number of `bits / 65536`, rounded down to a whole
/// number. The two lowest bits are dropped before the multiplication, so
/// that its result stays within 32 bits for numbers up to 131.
pub open spec fn milli_units(bits: int) -> int {
    (bits / 4) * 1000 / 16384
}

/// Whether the thousandths in a number of `bits / 65536` can be computed
/// within 32 bits.
pub open spec fn milli_units_fit(bits: int) -> bool {
    i32::MIN <= (bits / 4) * 1000 <= i32::MAX
}

/// The thousandths can be computed for the numbers from about −131.07 to
/// 131.07: the ranges of the sensor lie well within.
pub proof fn lemma_milli_units_fit(bits: int)
    ensures
        milli_units_fit(bits) <==> -8589932 <= bits <= 8589935,
{
}

/// What the thousandths lose: they are at most the exact `bits * 1000 /
/// 65536`, and less than 1.05 below it.
pub proof fn lemma_milli_units_accuracy(bits: int)
    ensures
        milli_units(bits) * 65536 <= bits * 1000 < (milli_units(bits) + 1) * 65536 + 3000,
{
}

/// A larger number has no fewer thousandths.
pub proof fn lemma_milli_units_monotonic(lower: int, higher: int)
    requires
        lower <= higher,
    ensures
        milli_units(lower) <= milli_units(higher),
{
}

impl Fixed {
    /// The number whose representation is `bits`.
    pub fn from_bits(bits: i32) -> (number: Fixed)
        ensures
            number.bits == bits,
    {
        Fixed { bits }
    }

    /// The representation of the number: its value in units of 1/65536.
    pub fn to_bits(self) -> (bits: i32)
        ensures
            bits == self.bits,
    {
        self.bits
    }

    /// The number in thousandths, rounded down to a whole number. The
    /// number must be one whose thousandths fit 32 bits, as every number is
    /// that the sensor measures; [`Fixed::checked_milli`] takes any number.
    pub fn milli(self) -> (thousandths: i32)
        requires
            milli_units_fit(self.bits as int),
        ensures
            thousandths == milli_units(self.bits as int),
    {
        // Pre-scale to keep the multiplication to millis within the underlying
        // i32 type.
        let scaled = i16f16_to_i18f14(self.bits);
        i18f14_to_int(i18f14_mul_int(scaled, 1000))
    }

    /// The number in thousandths, rounded down to a whole number, or `None`
    /// where computing them overflows.
    pub fn checked_milli(self) -> (thousandths: Option<i32>)
        ensures
            milli_units_fit(self.bits as int) ==> thousandths == Some(
                milli_units(self.bits as int) as i32,
            ),
            !milli_units_fit(self.bits as int) ==> thousandths.is_none(),
    {
        let scaled = i16f16_to_i18f14(self.bits);
        if -2147483 <= scaled && scaled <= 2147483 {
            Some(i18f14_to_int(i18f14_mul_int(scaled, 1000)))
        } else {
            None
        }
    }
}

impl PartialEq for Fixed {
    fn eq(&self, other: &Fixed) -> (equal: bool) {
        self.bits == other.bits
    }
}

impl PartialEqSpecImpl for Fixed {
    open spec fn obeys_eq_spec() -> bool {
        true
    }

    open spec fn eq_spec(&self, other: &Fixed) -> bool {
        self.bits == other.bits
    }
}

/// A fixed-point number equals a whole number where it has that value.
impl PartialEq<i32> for Fixed {
    fn eq(&self, other: &i32) -> (equal: bool) {
        let whole: i32 = *other;
        -32768 <= whole && whole <= 32767 && self.bits == whole * 65536
    }
}

impl PartialEqSpecImpl<i32> for Fixed {
    open spec fn obeys_eq_spec() -> bool {
        true
    }

    open spec fn eq_spec(&self, other: &i32) -> bool {
        self.bits == *other * 65536
    }
}

/// `fixed::FixedU32::from_num`, called for a `U16F16` on a `u16`, gives the
/// unsigned fixed-point number of that value. Its representation, which
/// `to_bits` hands out, is the value shifted left by the 16 fractional bits.
/// Every `u16` fits the 16 integer bits.
#[verifier::external_body]
pub(crate) fn u16f16_from_count(count: u16) -> (bits: u32)
    ensures
        bits == count as int * 65536,
{
    U16F16::from_num(count).to_bits()
}

/// The division of a `fixed::FixedU32` by a `u32`, its `Div<u32>`, divides
/// the representation by that number, rounding down. It panics where the
/// divisor is zero.
#[verifier::external_body]
pub(crate) fn u16f16_div(bits: u32, divisor: u32) -> (quotient: u32)
    requires
        divisor != 0,
    ensures
        quotient == bits as int / divisor as int,
{
    (U16F16::from_bits(bits) / divisor).to_bits()
}

/// `fixed::FixedU32::to_num`, called on a `U16F16` for an `I16F16`, keeps
/// the value, and with it the representation, both types having 16
/// fractional bits. The value must fit the signed type: a number from 32768
/// on may make it panic.
#[verifier::external_body]
pub(crate) fn u16f16_to_i16f16(bits: u32) -> (signed: i32)
    requires
        bits <= i32::MAX,
    ensures
        signed == bits,
{
    U16F16::from_bits(bits).to_num::<I16F16>().to_bits()
}

/// `fixed::FixedI32::const_from_int`, called for an `I16F16`, gives the
/// fixed-point number of a whole value. Its representation is the value
/// shifted left by the 16 fractional bits. It panics where the value does
/// not fit the 16 integer bits.
#[verifier::external_body]
pub(crate) fn i16f16_from_int(value: i32) -> (bits: i32)
    requires
        -32768 <= value <= 32767,
    ensures
        bits == value * 65536,
{
    I16F16::const_from_int(value).to_bits()
}

/// The multiplication of an `i32` with a `fixed::FixedI32`, the
/// `Mul<FixedI32<Frac>>` of `i32`, multiplies the representation by that
/// number. The product must fit 32 bits: an overflow may make it panic.
#[verifier::external_body]
pub(crate) fn int_mul_i16f16(factor: i32, bits: i32) -> (product: i32)
    requires
        i32::MIN <= factor * bits <= i32::MAX,
    ensures
        product == factor * bits,
{
    (factor * I16F16::from_bits(bits)).to_bits()
}

/// The addition of two `fixed::FixedI32`, their `Add`, adds the
/// representations. The sum must fit 32 bits: an overflow may make it panic.
#[verifier::external_body]
pub(crate) fn i16f16_add(left: i32, right: i32) -> (sum: i32)
    requires
        i32::MIN <= left + right <= i32::MAX,
    ensures
        sum == left + right,
{
    (I16F16::from_bits(left) + I16F16::from_bits(right)).to_bits()
}

/// `fixed::FixedI32::to_num`, called on an `I16F16` for an `I18F14`, drops
/// the two lowest fractional bits, which rounds towards −∞. Every value
/// fits, the target having more integer bits.
#[verifier::external_body]
pub(crate) fn i16f16_to_i18f14(bits: i32) -> (scaled: i32)
    ensures
        scaled == bits as int / 4,
{
    I16F16::from_bits(bits).to_num::<I18F14>().to_bits()
}

/// The multiplication of a `fixed::FixedI32` with an `i32`, its `Mul<i32>`,
/// multiplies the representation by that number. The product must fit 32
/// bits: an overflow may make it panic.
#[verifier::external_body]
pub(crate) fn i18f14_mul_int(bits: i32, factor: i32) -> (product: i32)
    requires
        i32::MIN <= bits * factor <= i32::MAX,
    ensures
        product == bits * factor,
{
    (I18F14::from_bits(bits) * factor).to_bits()
}

/// `fixed::FixedI32::to_num`, called on an `I18F14` for an `i32`, drops the
/// 14 fractional bits, which rounds towards −∞. Every value fits.
#[verifier::external_body]
pub(crate) fn i18f14_to_int(bits: i32) -> (whole: i32)
    ensures
        whole == bits as int / 16384,
{
    I18F14::from_bits(bits).to_num::<i32>()
}

} // verus!
