//! Why an instrument definition was refused.

use vstd::prelude::*;

verus! {

/// The cross-field invariant that a rejected instrument definition breaks.
#[derive(Clone, Copy, Debug, PartialEq, Eq, Structural, Hash)]
pub enum InstrumentError {
    /// The price increment is not written with `price_precision` decimal places.
    PriceIncrementScale,
    /// The size increment is not written with `size_precision` decimal places.
    SizeIncrementScale,
    /// Both quantity bounds are given and the minimum exceeds the maximum.
    QuantityBounds,
    /// Both notional bounds are given and the minimum does not lie at or below
    /// the maximum: it exceeds it, or the two are of different currencies.
    NotionalBounds,
    /// Both price bounds are given and the minimum exceeds the maximum.
    PriceBounds,
    /// The price increment is zero or negative.
    PriceIncrementNotPositive,
    /// The size increment is zero.
    SizeIncrementNotPositive,
}

impl InstrumentError {
    /// The text of `message`, as a sequence of characters.
    pub open spec fn spec_message(&self) -> Seq<char> {
        match self {
            InstrumentError::PriceIncrementScale => "price increment is not written at the price precision"@,
            InstrumentError::SizeIncrementScale => "size increment is not written at the size precision"@,
            InstrumentError::QuantityBounds => "minimum quantity exceeds maximum quantity"@,
            InstrumentError::NotionalBounds => "minimum notional does not lie at or below maximum notional"@,
            InstrumentError::PriceBounds => "minimum price exceeds maximum price"@,
            InstrumentError::PriceIncrementNotPositive => "price increment is not positive"@,
            InstrumentError::SizeIncrementNotPositive => "size increment is not positive"@,
        }
    }

    /// The broken invariant in words.
    pub fn message(&self) -> (r: &'static str)
        ensures
            r@ == self.spec_message(),
    {
        match self {
            InstrumentError::PriceIncrementScale => "price increment is not written at the price precision",
            InstrumentError::SizeIncrementScale => "size increment is not written at the size precision",
            InstrumentError::QuantityBounds => "minimum quantity exceeds maximum quantity",
            InstrumentError::NotionalBounds => "minimum notional does not lie at or below maximum notional",
            InstrumentError::PriceBounds => "minimum price exceeds maximum price",
            InstrumentError::PriceIncrementNotPositive => "price increment is not positive",
            InstrumentError::SizeIncrementNotPositive => "size increment is not positive",
        }
    }
}

} // verus!
