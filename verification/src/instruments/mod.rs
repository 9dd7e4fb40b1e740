//! The read-only interface shared by every instrument variant.

pub mod crypto_perpetual;

use crate::enums::{AssetClass, InstrumentClass};
use crate::identifiers::{InstrumentId, Symbol};
use crate::instruments::crypto_perpetual::CryptoPerpetual;
use crate::time::UnixNanos;
use crate::types::currency::Currency;
use crate::types::money::Money;
use crate::types::price::Price;
use crate::types::quantity::Quantity;
use rust_decimal::Decimal;
use vstd::prelude::*;

verus! {

/// An instrument seen as the concrete variant it is.
///
/// The set of variants is closed, so a caller that needs more than the shared
/// interface matches on this instead of inspecting types at run time.
#[derive(Debug)]
pub enum AnyInstrument<'a> {
    CryptoPerpetual(&'a CryptoPerpetual),
}

/// Whether a pair of quantity bounds is in order: where both are given, the
/// minimum is no greater than the maximum.
pub open spec fn quantities_ordered(min: Option<Quantity>, max: Option<Quantity>) -> bool {
    match (min, max) {
        (Some(lo), Some(hi)) => lo.le(&hi),
        _ => true,
    }
}

/// Whether a pair of notional bounds is in order: where both are given, they
/// are of one currency and the minimum is no greater than the maximum.
pub open spec fn notionals_ordered(min: Option<Money>, max: Option<Money>) -> bool {
    match (min, max) {
        (Some(lo), Some(hi)) => lo.le(&hi),
        _ => true,
    }
}

/// Whether a pair of price bounds is in order: where both are given, the
/// minimum is no greater than the maximum.
pub open spec fn prices_ordered(min: Option<Price>, max: Option<Price>) -> bool {
    match (min, max) {
        (Some(lo), Some(hi)) => lo.le(&hi),
        _ => true,
    }
}

/// What any instrument variant lets its readers ask. Every operation is a pure
/// read of a definition that does not change after construction.
///
/// The interface also fixes how its answers hang together, for every variant:
/// the multiplier and both increments are strictly positive, each increment is
/// written with as many decimal places as its precision says, and a minimum
/// never exceeds the maximum it is paired with.
pub trait Instrument {
    /// What `price_precision` returns.
    spec fn spec_price_precision(&self) -> u8;

    /// What `size_precision` returns.
    spec fn spec_size_precision(&self) -> u8;

    /// What `max_quantity` returns.
    spec fn spec_max_quantity(&self) -> Option<Quantity>;

    /// What `min_quantity` returns.
    spec fn spec_min_quantity(&self) -> Option<Quantity>;

    /// What `max_price` returns.
    spec fn spec_max_price(&self) -> Option<Price>;

    /// What `min_price` returns.
    spec fn spec_min_price(&self) -> Option<Price>;

    /// The identity of the instrument.
    fn id(&self) -> InstrumentId;

    /// The symbol under which the venue lists the instrument.
    fn raw_symbol(&self) -> Symbol;

    /// The asset class the instrument belongs to.
    fn asset_class(&self) -> AssetClass;

    /// The contractual form of the instrument.
    fn instrument_class(&self) -> InstrumentClass;

    /// The currency in which prices are quoted.
    fn quote_currency(&self) -> Currency;

    /// The base currency, or `None` for an instrument that has none.
    fn base_currency(&self) -> Option<Currency>;

    /// The currency in which profit, loss and margin are settled.
    fn settlement_currency(&self) -> Currency;

    /// Whether profit and margin are counted in the base currency.
    fn is_inverse(&self) -> bool;

    /// The number of decimal places of a price.
    #[verifier::when_used_as_spec(spec_price_precision)]
    fn price_precision(&self) -> (r: u8)
        ensures
            r == self.price_precision(),
    ;

    /// The number of decimal places of a size.
    #[verifier::when_used_as_spec(spec_size_precision)]
    fn size_precision(&self) -> (r: u8)
        ensures
            r == self.size_precision(),
    ;

    /// The smallest step between two prices: strictly positive, and written
    /// with `price_precision` decimal places.
    fn price_increment(&self) -> (r: Price)
        ensures
            r.is_positive(),
            r.scale == self.price_precision(),
    ;

    /// The smallest step between two sizes: strictly positive, and written
    /// with `size_precision` decimal places.
    fn size_increment(&self) -> (r: Quantity)
        ensures
            r.is_positive(),
            r.scale == self.size_precision(),
    ;

    /// The contract multiplier that enters a notional value: strictly
    /// positive.
    fn multiplier(&self) -> (r: Quantity)
        ensures
            r.is_positive(),
    ;

    /// The lot size, or `None` where sizes are not bound to lots.
    fn lot_size(&self) -> Option<Quantity>;

    /// The largest tradable quantity, or `None` where there is no limit;
    /// never below the smallest.
    #[verifier::when_used_as_spec(spec_max_quantity)]
    fn max_quantity(&self) -> (r: Option<Quantity>)
        ensures
            r == self.max_quantity(),
            quantities_ordered(self.min_quantity(), r),
    ;

    /// The smallest tradable quantity, or `None` where there is no limit;
    /// never above the largest.
    #[verifier::when_used_as_spec(spec_min_quantity)]
    fn min_quantity(&self) -> (r: Option<Quantity>)
        ensures
            r == self.min_quantity(),
            quantities_ordered(r, self.max_quantity()),
    ;

    /// The highest tradable price, or `None` where there is no limit; never
    /// below the lowest.
    #[verifier::when_used_as_spec(spec_max_price)]
    fn max_price(&self) -> (r: Option<Price>)
        ensures
            r == self.max_price(),
            prices_ordered(self.min_price(), r),
    ;

    /// The lowest tradable price, or `None` where there is no limit; never
    /// above the highest.
    #[verifier::when_used_as_spec(spec_min_price)]
    fn min_price(&self) -> (r: Option<Price>)
        ensures
            r == self.min_price(),
            prices_ordered(r, self.max_price()),
    ;

    /// When the definition took effect.
    fn ts_event(&self) -> UnixNanos;

    /// When the definition was taken in.
    fn ts_init(&self) -> UnixNanos;

    /// The fee rate charged to the side that takes liquidity.
    fn taker_fee(&self) -> Decimal;

    /// The fee rate charged to the side that provides liquidity.
    fn maker_fee(&self) -> Decimal;

    /// The fraction of notional required to open a position.
    fn margin_init(&self) -> Decimal;

    /// The fraction of notional required to keep a position open.
    fn margin_maint(&self) -> Decimal;

    /// The instrument as the concrete variant it is.
    fn as_any(&self) -> AnyInstrument<'_>;
}

} // verus!
