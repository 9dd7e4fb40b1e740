//! Quantities: unsigned fixed-point decimals.

use crate::types::fixed::{decimal_le, decimal_le_exec};
use vstd::prelude::*;

verus! {

/// A non-negative decimal number written as a mantissa and a count of decimal places:
/// the quantity `mantissa / 10^scale`.
///
/// Two quantities are `==` when they are written alike, mantissa and scale both;
/// [`Quantity::le`] and [`Quantity::is_positive`] go by the number itself.
#[derive(Clone, Copy, Debug, PartialEq, Eq, Structural, Hash)]
pub struct Quantity {
    pub mantissa: u64,
    pub scale: u8,
}

impl Quantity {
    /// Whether the quantity is strictly greater than zero.
    pub open spec fn spec_is_positive(&self) -> bool {
        self.mantissa > 0
    }

    /// Whether the quantity is numerically no greater than `other`, whatever
    /// scales the two are written in.
    pub open spec fn spec_le(&self, other: &Quantity) -> bool {
        decimal_le(self.mantissa as int, self.scale as nat, other.mantissa as int, other.scale as nat)
    }

    /// The quantity `mantissa / 10^scale`.
    pub fn new(mantissa: u64, scale: u8) -> (r: Quantity)
        ensures
            r == (Quantity { mantissa, scale }),
    {
        Quantity { mantissa, scale }
    }

    /// Whether the quantity is strictly greater than zero.
    #[verifier::when_used_as_spec(spec_is_positive)]
    pub fn is_positive(&self) -> (r: bool)
        ensures
            r == self.is_positive(),
    {
        self.mantissa > 0
    }

    /// Whether the quantity is numerically no greater than `other`, whatever
    /// scales the two are written in.
    #[verifier::when_used_as_spec(spec_le)]
    pub fn le(&self, other: &Quantity) -> (r: bool)
        ensures
            r == self.le(other),
    {
        decimal_le_exec(self.mantissa as i128, self.scale, other.mantissa as i128, other.scale)
    }
}

} // verus!
