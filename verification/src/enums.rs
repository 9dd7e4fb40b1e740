//! Classification tags shared by all instruments.

use vstd::prelude::*;

verus! {

/// The broad asset class an instrument belongs to.
#[derive(Clone, Copy, Debug, PartialEq, Eq, Structural, Hash)]
pub enum AssetClass {
    Fx,
    Equity,
    Commodity,
    Debt,
    Index,
    Cryptocurrency,
    Alternative,
}

/// The contractual form of an instrument.
#[derive(Clone, Copy, Debug, PartialEq, Eq, Structural, Hash)]
pub enum InstrumentClass {
    Spot,
    Swap,
    Future,
    Forward,
    Cfd,
    Bond,
    OptionContract,
    Warrant,
}

} // verus!
