//! A voltage held at microvolt resolution.
//!
//! Every measurement accessor of the driver returns a [`Voltage`], so unit
//! conversion lives in one place instead of in each accessor. The value is
//! immutable: arithmetic returns a new value and never mutates its operands.

use vstd::prelude::*;

verus! {

/// An immutable voltage value holding a 32-bit microvolt count.
#[derive(Debug, Clone, Copy)]
pub struct Voltage {
    microvolts: i32,
}

impl View for Voltage {
    type V = int;

    closed spec fn view(&self) -> int {
        self.microvolts as int
    }
}

impl Voltage {
    /// Creates a voltage from a value in microvolts.
    pub fn from_microvolts(microvolts: i32) -> (v: Voltage)
        ensures
            v@ == microvolts,
    {
        Voltage { microvolts }
    }

    /// Returns the value in microvolts.
    pub fn to_microvolts(&self) -> (microvolts: i32)
        ensures
            microvolts == self@,
    {
        self.microvolts
    }

    /// Returns whether the voltage is strictly below zero.
    pub fn is_negative(&self) -> (r: bool)
        ensures
            r == (self@ < 0),
    {
        self.microvolts < 0
    }

    /// Returns whether the voltage is strictly above zero.
    pub fn is_positive(&self) -> (r: bool)
        ensures
            r == (self@ > 0),
    {
        self.microvolts > 0
    }

    /// Returns whether the voltage is exactly zero.
    pub fn is_zero(&self) -> (r: bool)
        ensures
            r == (self@ == 0),
    {
        self.microvolts == 0
    }

    /// Returns the absolute value of the voltage.
    pub fn abs(&self) -> (r: Voltage)
        requires
            self@ != i32::MIN,
        ensures
            r@ == if self@ < 0 {
                -self@
            } else {
                self@
            },
    {
        Voltage {
            microvolts: if self.microvolts < 0 {
                -self.microvolts
            } else {
                self.microvolts
            },
        }
    }

    /// Returns the voltage with its sign flipped.
    pub fn invert(&self) -> (r: Voltage)
        requires
            self@ != i32::MIN,
        ensures
            r@ == -self@,
    {
        Voltage { microvolts: -self.microvolts }
    }

    /// Returns the sum of the two voltages.
    pub fn add(&self, other: &Voltage) -> (r: Voltage)
        requires
            i32::MIN <= self@ + other@ <= i32::MAX,
        ensures
            r@ == self@ + other@,
    {
        Voltage { microvolts: self.microvolts + other.microvolts }
    }

    /// Returns the voltage bounded inclusively by the given microvolt values:
    /// the value is first raised to the lower bound, then lowered to the
    /// upper bound. When the bounds are ordered the result never leaves them,
    /// and a value already inside them is returned unchanged.
    pub fn clamp(&self, min_microvolts: i32, max_microvolts: i32) -> (r: Voltage)
        ensures
            r@ == ({
                let raised = if self@ > min_microvolts {
                    self@
                } else {
                    min_microvolts as int
                };
                if raised < max_microvolts {
                    raised
                } else {
                    max_microvolts as int
                }
            }),
            min_microvolts <= max_microvolts ==> min_microvolts <= r@ <= max_microvolts,
            min_microvolts <= self@ <= max_microvolts ==> r@ == self@,
    {
        let raised: i32 = if self.microvolts > min_microvolts {
            self.microvolts
        } else {
            min_microvolts
        };
        Voltage {
            microvolts: if raised < max_microvolts {
                raised
            } else {
                max_microvolts
            },
        }
    }
}

} // verus!
