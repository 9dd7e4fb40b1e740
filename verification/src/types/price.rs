//! Prices: signed fixed-point decimals.

use crate::types::fixed::{decimal_le, decimal_le_exec};
use vstd::prelude::*;

verus! {

/// A signed decimal number written as a mantissa and a count of decimal places:
/// the price `mantissa / 10^scale`.
///
/// Two prices are `==` when they are written alike, mantissa and scale both;
/// [`Price::le`] and [`Price::is_positive`] go by the number itself.
#[derive(Clone, Copy, Debug, PartialEq, Eq, Structural, Hash)]
pub struct Price {
    pub mantissa: i64,
    pub scale: u8,
}

impl Price {
    /// Whether the price is strictly greater than zero.
    pub open spec fn spec_is_positive(&self) -> bool {
        self.mantissa > 0
    }

    /// Whether the price is numerically no greater than `other`, whatever
    /// scales the two are written in.
    pub open spec fn spec_le(&self, other: &Price) -> bool {
        decimal_le(self.mantissa as int, self.scale as nat, other.mantissa as int, other.scale as nat)
    }

    /// The price `mantissa / 10^scale`.
    pub fn new(mantissa: i64, scale: u8) -> (r: Price)
        ensures
            r == (Price { mantissa, scale }),
    {
        Price { mantissa, scale }
    }

    /// Whether the price is strictly greater than zero.
    #[verifier::when_used_as_spec(spec_is_positive)]
    pub fn is_positive(&self) -> (r: bool)
        ensures
            r == self.is_positive(),
    {
        self.mantissa > 0
    }

    /// Whether the price is numerically no greater than `other`, whatever
    /// scales the two are written in.
    #[verifier::when_used_as_spec(spec_le)]
    pub fn le(&self, other: &Price) -> (r: bool)
        ensures
            r == self.le(other),
    {
        decimal_le_exec(self.mantissa as i128, self.scale, other.mantissa as i128, other.scale)
    }
}

} // verus!
