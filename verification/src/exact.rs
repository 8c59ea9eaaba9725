//! Exact numbers: positions on a grid finer than a pixel, and fractions.

use vstd::prelude::*;

verus! {

/// How many steps of the grid make one pixel: 2 to the power 32.
pub const ONE: i64 = 4294967296;

/// A position or a distance on the grid, in either direction: `raw / ONE` pixels.
#[derive(Clone, Copy, Debug, PartialEq, Eq)]
pub struct Fixed {
    pub raw: i64,
}

impl Fixed {
    /// The number of pixels that the value stands for.
    pub open spec fn value(self) -> real {
        self.raw as real / ONE as real
    }

    /// A whole number of pixels.
    pub fn from_pixels(pixels: i32) -> (fixed: Fixed)
        ensures
            fixed.raw == pixels * ONE,
            fixed.value() == pixels as real,
    {
        proof {
            lemma_whole_number(pixels as int, ONE as int);
        }
        Fixed { raw: pixels as i64 * ONE }
    }
}

/// A length on the grid, which is never negative: `raw / ONE` pixels.
#[derive(Clone, Copy, Debug, PartialEq, Eq)]
pub struct Length {
    pub raw: u64,
}

impl Length {
    /// The number of pixels that the length stands for.
    pub open spec fn value(self) -> real {
        self.raw as real / ONE as real
    }

    /// A whole number of pixels.
    pub fn from_pixels(pixels: u32) -> (length: Length)
        ensures
            length.raw == pixels * ONE,
            length.value() == pixels as real,
    {
        proof {
            lemma_whole_number(pixels as int, ONE as int);
        }
        Length { raw: pixels as u64 * 4294967296 }
    }
}

/// A fraction of two mathematical integers: what a [`Ratio`] stands for.
pub struct Quotient {
    pub num: int,
    pub den: int,
}

impl Quotient {
    /// The number that the fraction stands for.
    pub open spec fn value(self) -> real
        recommends
            self.den > 0,
    {
        self.num as real / self.den as real
    }
}

/// An exact fraction `num / den`, not reduced.
#[derive(Clone, Copy, Debug, PartialEq, Eq)]
pub struct Ratio {
    pub num: i128,
    pub den: i128,
}

impl View for Ratio {
    type V = Quotient;

    open spec fn view(&self) -> Quotient {
        Quotient { num: self.num as int, den: self.den as int }
    }
}

impl Ratio {
    /// The number that the fraction stands for.
    pub open spec fn value(self) -> real
        recommends
            self.den > 0,
    {
        self@.value()
    }

    /// The largest whole number that is not above the fraction.
    pub fn floor(self) -> (whole: i128)
        requires
            self.den > 0,
        ensures
            whole == self.num / self.den,
            whole as real <= self.value(),
            self.value() < (whole + 1) as real,
    {
        proof {
            lemma_quotient_rounds_down(self.num as int, self.den as int);
        }
        if self.num >= 0 {
            self.num / self.den
        } else {
            let mirrored: i128 = -(self.num + 1);
            proof {
                lemma_floor_of_negative(self.num as int, self.den as int);
            }
            -(mirrored / self.den) - 1
        }
    }
}

/// `k * d` steps of `1 / d` are `k`.
proof fn lemma_whole_number(k: int, d: int)
    by (nonlinear_arith)
    requires
        d > 0,
    ensures
        (k * d) as real / d as real == k as real,
{
}

/// The quotient of two whole numbers is the exact quotient rounded down.
proof fn lemma_quotient_rounds_down(a: int, b: int)
    by (nonlinear_arith)
    requires
        b > 0,
    ensures
        (a / b) as real <= a as real / b as real,
        (a as real / b as real) < (a / b + 1) as real,
{
}

/// Rounding a negative quotient down, in terms of a quotient of numbers that
/// are not negative.
proof fn lemma_floor_of_negative(a: int, b: int)
    by (nonlinear_arith)
    requires
        a < 0,
        b > 0,
    ensures
        a / b == -((-(a + 1)) / b) - 1,
{
}

} // verus!
