//! Fixed-point numbers with eight fractional bits.
//!
//! Every position, velocity and acceleration of the simulation is a [`Fixed`]:
//! a signed 32-bit integer that counts 1/256ths. The arithmetic itself is done
//! by `agb_fixnum`; this module states what each operation returns over the
//! raw integers, and leaves out the operands on which the machine word would
//! overflow.

use agb_fixnum::Num;
use vstd::prelude::*;

verus! {

/// The raw value of the number one.
pub const ONE_RAW: i32 = 256;

/// Largest magnitude (raw) of a position, size, velocity or health value for
/// which the simulation is defined: 65536 units.
pub const STATE_LIMIT: i32 = 0x100_0000;

/// Largest magnitude (raw) of an acceleration or of a velocity cap for which
/// the simulation is defined: 64 units per tick.
pub const TUNING_LIMIT: i32 = 0x4000;

/// Whether `v` can be held in the 32-bit word behind a [`Fixed`].
pub open spec fn fits(v: int) -> bool {
    i32::MIN <= v <= i32::MAX
}

/// Whether `v` lies in the closed interval `[-limit, limit]`.
pub open spec fn within(v: int, limit: int) -> bool {
    -limit <= v <= limit
}

/// The raw product of two raw fixed-point values: the exact product with the
/// surplus fractional bits dropped, rounding toward negative infinity.
pub open spec fn mul_raw(a: int, b: int) -> int {
    (a * b) / 256
}

/// `a / d` rounded toward zero, for a positive `d`.
pub open spec fn quotient_toward_zero(a: int, d: int) -> int {
    if a >= 0 {
        a / d
    } else {
        -((-a) / d)
    }
}

/// The integral part of a raw value, rounding toward zero.
pub open spec fn trunc_raw(a: int) -> int {
    quotient_toward_zero(a, 256)
}

/// `agb_fixnum`'s `Num<i32, 8>` addition, on raw values. The outside operator
/// adds the two words; the sum must fit, since it panics otherwise in a build
/// with overflow checks.
#[verifier::external_body]
fn num_add(a: i32, b: i32) -> (r: i32)
    requires
        fits(a + b),
    ensures
        r == a + b,
{
    (Num::<i32, 8>::from_raw(a) + Num::<i32, 8>::from_raw(b)).to_raw()
}

/// `agb_fixnum`'s `Num<i32, 8>` subtraction, on raw values. The outside
/// operator subtracts the two words; the difference must fit.
#[verifier::external_body]
fn num_sub(a: i32, b: i32) -> (r: i32)
    requires
        fits(a - b),
    ensures
        r == a - b,
{
    (Num::<i32, 8>::from_raw(a) - Num::<i32, 8>::from_raw(b)).to_raw()
}

/// `agb_fixnum`'s `Num<i32, 8>` multiplication, on raw values. The outside
/// operator computes the full product shifted right by eight bits and keeps
/// its low 32 bits; the contract admits only products that fit, for which
/// nothing is cut off.
#[verifier::external_body]
fn num_mul(a: i32, b: i32) -> (r: i32)
    requires
        fits(mul_raw(a as int, b as int)),
    ensures
        r == mul_raw(a as int, b as int),
{
    (Num::<i32, 8>::from_raw(a) * Num::<i32, 8>::from_raw(b)).to_raw()
}

/// `agb_fixnum`'s `Num<i32, 8>` negation, on a raw value. The most negative
/// word has no negation and is left out.
#[verifier::external_body]
fn num_neg(a: i32) -> (r: i32)
    requires
        a > i32::MIN,
    ensures
        r == -a,
{
    (-Num::<i32, 8>::from_raw(a)).to_raw()
}

/// `agb_fixnum`'s conversion of an `i32` into a `Num<i32, 8>`: the fixed-point
/// number that stands for a whole number. The outside function shifts left by
/// eight bits; the contract admits only integers that lose no bit in the
/// shift.
#[verifier::external_body]
fn num_from(integral: i32) -> (r: i32)
    requires
        fits(integral * 256),
    ensures
        r == integral * 256,
{
    Num::<i32, 8>::from(integral).to_raw()
}

/// `agb_fixnum`'s `Num::<i32, 8>::trunc`: the integral part, by a division
/// that rounds toward zero.
#[verifier::external_body]
fn num_trunc(a: i32) -> (r: i32)
    ensures
        r == trunc_raw(a as int),
{
    Num::<i32, 8>::from_raw(a).trunc()
}

/// A signed fixed-point number with eight fractional bits.
#[derive(Clone, Copy, PartialEq, Eq, Structural, PartialOrd, Ord, Hash, Debug)]
pub struct Fixed {
    /// The number times 256.
    pub raw: i32,
}

impl View for Fixed {
    type V = int;

    open spec fn view(&self) -> int {
        self.raw as int
    }
}

impl Fixed {
    /// The number whose raw representation is `raw`.
    pub fn from_raw(raw: i32) -> (r: Fixed)
        ensures
            r@ == raw,
    {
        Fixed { raw }
    }

    /// The raw representation.
    pub fn to_raw(self) -> (r: i32)
        ensures
            r == self@,
    {
        self.raw
    }

    /// The fixed-point number equal to the whole number `integral`.
    pub fn from_int(integral: i32) -> (r: Fixed)
        requires
            fits(integral * 256),
        ensures
            r@ == integral * 256,
    {
        Fixed { raw: num_from(integral) }
    }

    /// Zero.
    pub fn zero() -> (r: Fixed)
        ensures
            r@ == 0,
    {
        Fixed { raw: 0 }
    }

    /// The sum of two numbers.
    pub fn plus(self, rhs: Fixed) -> (r: Fixed)
        requires
            fits(self@ + rhs@),
        ensures
            r@ == self@ + rhs@,
    {
        Fixed { raw: num_add(self.raw, rhs.raw) }
    }

    /// The difference of two numbers.
    pub fn minus(self, rhs: Fixed) -> (r: Fixed)
        requires
            fits(self@ - rhs@),
        ensures
            r@ == self@ - rhs@,
    {
        Fixed { raw: num_sub(self.raw, rhs.raw) }
    }

    /// The product of two numbers, rounded toward negative infinity to the
    /// nearest 1/256.
    pub fn times(self, rhs: Fixed) -> (r: Fixed)
        requires
            fits(mul_raw(self@, rhs@)),
        ensures
            r@ == mul_raw(self@, rhs@),
    {
        Fixed { raw: num_mul(self.raw, rhs.raw) }
    }

    /// The negation of a number.
    pub fn negated(self) -> (r: Fixed)
        requires
            self@ > i32::MIN,
        ensures
            r@ == -self@,
    {
        Fixed { raw: num_neg(self.raw) }
    }

    /// The integral part, rounded toward zero.
    pub fn trunc(self) -> (r: i32)
        ensures
            r == trunc_raw(self@),
    {
        num_trunc(self.raw)
    }

    /// Whether the number is below zero.
    pub fn is_negative(self) -> (r: bool)
        ensures
            r == (self@ < 0),
    {
        self.raw < 0
    }

    /// Whether `self < rhs`.
    pub fn less_than(self, rhs: Fixed) -> (r: bool)
        ensures
            r == (self@ < rhs@),
    {
        self.raw < rhs.raw
    }

    /// Whether `self <= rhs`.
    pub fn at_most(self, rhs: Fixed) -> (r: bool)
        ensures
            r == (self@ <= rhs@),
    {
        self.raw <= rhs.raw
    }

    /// Whether `self > rhs`.
    pub fn greater_than(self, rhs: Fixed) -> (r: bool)
        ensures
            r == (self@ > rhs@),
    {
        self.raw > rhs.raw
    }

    /// Whether the magnitude of the number is at most `limit` (raw).
    pub fn is_within(self, limit: i32) -> (r: bool)
        requires
            limit >= 0,
        ensures
            r == within(self@, limit as int),
    {
        -limit <= self.raw && self.raw <= limit
    }
}

/// The product of a number of bounded magnitude with a factor of bounded
/// magnitude is bounded by the product of the bounds, scaled down.
pub proof fn lemma_mul_raw_bound(a: int, b: int, la: int, lb: int)
    requires
        within(a, la),
        within(b, lb),
    ensures
        within(mul_raw(a, b), (la * lb) / 256 + 1),
{
    assert(-(la * lb) <= a * b <= la * lb) by (nonlinear_arith)
        requires
            -la <= a <= la,
            -lb <= b <= lb,
    ;
}

/// Multiplying by zero gives zero, whichever side the zero stands on.
pub proof fn lemma_mul_raw_zero(a: int)
    ensures
        mul_raw(a, 0) == 0,
        mul_raw(0, a) == 0,
{
    assert(a * 0 == 0) by (nonlinear_arith);
    assert(0 * a == 0) by (nonlinear_arith);
}

} // verus!
