//! The perpetual swap on a crypto asset.

use crate::enums::{AssetClass, InstrumentClass};
use crate::error::InstrumentError;
use crate::identifiers::{write_digest, InstrumentId, Symbol};
use crate::instruments::{
    notionals_ordered, prices_ordered, quantities_ordered, AnyInstrument, Instrument,
};
use crate::time::UnixNanos;
use crate::types::currency::Currency;
use crate::types::money::Money;
use crate::types::price::Price;
use crate::types::quantity::Quantity;
use rust_decimal::Decimal;
use std::hash::{Hash, Hasher};
use vstd::prelude::*;
use vstd::std_specs::cmp::PartialEqSpec;

verus! {

/// The trading specification of one perpetual swap contract.
///
/// A value of this type always satisfies [`CryptoPerpetualView::is_valid`]:
/// [`CryptoPerpetual::new`] is the only way to make one, and nothing changes it
/// afterwards.
///
/// Two definitions are the same instrument when their `id`s are equal: `==` and
/// `Hash` look at `id` and at nothing else, so two definitions that differ in
/// any other field still compare equal while they share an `id`.
#[derive(Debug)]
pub struct CryptoPerpetual {
    id: InstrumentId,
    raw_symbol: Symbol,
    base_currency: Currency,
    quote_currency: Currency,
    settlement_currency: Currency,
    is_inverse: bool,
    price_precision: u8,
    size_precision: u8,
    price_increment: Price,
    size_increment: Quantity,
    maker_fee: Decimal,
    taker_fee: Decimal,
    margin_init: Decimal,
    margin_maint: Decimal,
    lot_size: Option<Quantity>,
    max_quantity: Option<Quantity>,
    min_quantity: Option<Quantity>,
    max_notional: Option<Money>,
    min_notional: Option<Money>,
    max_price: Option<Price>,
    min_price: Option<Price>,
    ts_event: UnixNanos,
    ts_init: UnixNanos,
}

/// What a [`CryptoPerpetual`] holds, field by field.
pub struct CryptoPerpetualView {
    pub id: InstrumentId,
    pub raw_symbol: Symbol,
    pub base_currency: Currency,
    pub quote_currency: Currency,
    pub settlement_currency: Currency,
    pub is_inverse: bool,
    pub price_precision: u8,
    pub size_precision: u8,
    pub price_increment: Price,
    pub size_increment: Quantity,
    pub maker_fee: Decimal,
    pub taker_fee: Decimal,
    pub margin_init: Decimal,
    pub margin_maint: Decimal,
    pub lot_size: Option<Quantity>,
    pub max_quantity: Option<Quantity>,
    pub min_quantity: Option<Quantity>,
    pub max_notional: Option<Money>,
    pub min_notional: Option<Money>,
    pub max_price: Option<Price>,
    pub min_price: Option<Price>,
    pub ts_event: UnixNanos,
    pub ts_init: UnixNanos,
}

impl CryptoPerpetualView {
    /// The cross-field invariants of a definition: each increment is written
    /// with as many decimal places as its precision says, each pair of bounds
    /// is in order, and each increment is strictly positive.
    pub open spec fn is_valid(&self) -> bool {
        &&& self.price_increment.scale == self.price_precision
        &&& self.size_increment.scale == self.size_precision
        &&& quantities_ordered(self.min_quantity, self.max_quantity)
        &&& notionals_ordered(self.min_notional, self.max_notional)
        &&& prices_ordered(self.min_price, self.max_price)
        &&& self.price_increment.is_positive()
        &&& self.size_increment.is_positive()
    }

    /// The first invariant that the definition breaks, in the order in which
    /// `is_valid` lists them, or `None` for a valid definition.
    pub open spec fn violation(&self) -> Option<InstrumentError> {
        if self.price_increment.scale != self.price_precision {
            Some(InstrumentError::PriceIncrementScale)
        } else if self.size_increment.scale != self.size_precision {
            Some(InstrumentError::SizeIncrementScale)
        } else if !quantities_ordered(self.min_quantity, self.max_quantity) {
            Some(InstrumentError::QuantityBounds)
        } else if !notionals_ordered(self.min_notional, self.max_notional) {
            Some(InstrumentError::NotionalBounds)
        } else if !prices_ordered(self.min_price, self.max_price) {
            Some(InstrumentError::PriceBounds)
        } else if !self.price_increment.is_positive() {
            Some(InstrumentError::PriceIncrementNotPositive)
        } else if !self.size_increment.is_positive() {
            Some(InstrumentError::SizeIncrementNotPositive)
        } else {
            None
        }
    }
}

impl View for CryptoPerpetual {
    type V = CryptoPerpetualView;

    closed spec fn view(&self) -> CryptoPerpetualView {
        CryptoPerpetualView {
            id: self.id,
            raw_symbol: self.raw_symbol,
            base_currency: self.base_currency,
            quote_currency: self.quote_currency,
            settlement_currency: self.settlement_currency,
            is_inverse: self.is_inverse,
            price_precision: self.price_precision,
            size_precision: self.size_precision,
            price_increment: self.price_increment,
            size_increment: self.size_increment,
            maker_fee: self.maker_fee,
            taker_fee: self.taker_fee,
            margin_init: self.margin_init,
            margin_maint: self.margin_maint,
            lot_size: self.lot_size,
            max_quantity: self.max_quantity,
            min_quantity: self.min_quantity,
            max_notional: self.max_notional,
            min_notional: self.min_notional,
            max_price: self.max_price,
            min_price: self.min_price,
            ts_event: self.ts_event,
            ts_init: self.ts_init,
        }
    }
}

fn check_quantities(min: &Option<Quantity>, max: &Option<Quantity>) -> (r: bool)
    ensures
        r == quantities_ordered(*min, *max),
{
    match (min, max) {
        (Some(lo), Some(hi)) => lo.le(hi),
        _ => true,
    }
}

fn check_notionals(min: &Option<Money>, max: &Option<Money>) -> (r: bool)
    ensures
        r == notionals_ordered(*min, *max),
{
    match (min, max) {
        (Some(lo), Some(hi)) => lo.le(hi),
        _ => true,
    }
}

fn check_prices(min: &Option<Price>, max: &Option<Price>) -> (r: bool)
    ensures
        r == prices_ordered(*min, *max),
{
    match (min, max) {
        (Some(lo), Some(hi)) => lo.le(hi),
        _ => true,
    }
}

fn clone_notional(bound: &Option<Money>) -> (r: Option<Money>)
    ensures
        r == *bound,
{
    match bound {
        Some(money) => Some(money.clone()),
        None => None,
    }
}

impl CryptoPerpetual {
    #[verifier::type_invariant]
    spec fn holds_a_valid_definition(self) -> bool {
        self@.is_valid()
    }

    /// What both `==` and `Hash` go by: the digest of `id`.
    pub open spec fn spec_digest(&self) -> u64 {
        self@.id.digest()
    }

    /// Builds the definition from its fields, or names the first invariant
    /// that they break. A definition is either returned whole and valid, or
    /// not at all.
    pub fn new(
        id: InstrumentId,
        raw_symbol: Symbol,
        base_currency: Currency,
        quote_currency: Currency,
        settlement_currency: Currency,
        is_inverse: bool,
        price_precision: u8,
        size_precision: u8,
        price_increment: Price,
        size_increment: Quantity,
        maker_fee: Decimal,
        taker_fee: Decimal,
        margin_init: Decimal,
        margin_maint: Decimal,
        lot_size: Option<Quantity>,
        max_quantity: Option<Quantity>,
        min_quantity: Option<Quantity>,
        max_notional: Option<Money>,
        min_notional: Option<Money>,
        max_price: Option<Price>,
        min_price: Option<Price>,
        ts_event: UnixNanos,
        ts_init: UnixNanos,
    ) -> (r: Result<CryptoPerpetual, InstrumentError>)
        ensures
            ({
                let wanted = CryptoPerpetualView {
                    id,
                    raw_symbol,
                    base_currency,
                    quote_currency,
                    settlement_currency,
                    is_inverse,
                    price_precision,
                    size_precision,
                    price_increment,
                    size_increment,
                    maker_fee,
                    taker_fee,
                    margin_init,
                    margin_maint,
                    lot_size,
                    max_quantity,
                    min_quantity,
                    max_notional,
                    min_notional,
                    max_price,
                    min_price,
                    ts_event,
                    ts_init,
                };
                &&& r is Ok <==> wanted.is_valid()
                &&& r matches Ok(instrument) ==> instrument@ == wanted
                &&& r matches Err(e) ==> wanted.violation() == Some(e)
            }),
    {
        if price_increment.scale != price_precision {
            return Err(InstrumentError::PriceIncrementScale);
        }
        if size_increment.scale != size_precision {
            return Err(InstrumentError::SizeIncrementScale);
        }
        if !check_quantities(&min_quantity, &max_quantity) {
            return Err(InstrumentError::QuantityBounds);
        }
        if !check_notionals(&min_notional, &max_notional) {
            return Err(InstrumentError::NotionalBounds);
        }
        if !check_prices(&min_price, &max_price) {
            return Err(InstrumentError::PriceBounds);
        }
        if !price_increment.is_positive() {
            return Err(InstrumentError::PriceIncrementNotPositive);
        }
        if !size_increment.is_positive() {
            return Err(InstrumentError::SizeIncrementNotPositive);
        }
        Ok(
            CryptoPerpetual {
                id,
                raw_symbol,
                base_currency,
                quote_currency,
                settlement_currency,
                is_inverse,
                price_precision,
                size_precision,
                price_increment,
                size_increment,
                maker_fee,
                taker_fee,
                margin_init,
                margin_maint,
                lot_size,
                max_quantity,
                min_quantity,
                max_notional,
                min_notional,
                max_price,
                min_price,
                ts_event,
                ts_init,
            },
        )
    }

    /// The largest tradable notional value, or `None` where there is no
    /// limit; never below the smallest.
    pub fn max_notional(&self) -> (r: Option<Money>)
        ensures
            r == self@.max_notional,
            notionals_ordered(self@.min_notional, r),
    {
        proof {
            use_type_invariant(self);
        }
        clone_notional(&self.max_notional)
    }

    /// The smallest tradable notional value, or `None` where there is no
    /// limit; never above the largest.
    pub fn min_notional(&self) -> (r: Option<Money>)
        ensures
            r == self@.min_notional,
            notionals_ordered(r, self@.max_notional),
    {
        proof {
            use_type_invariant(self);
        }
        clone_notional(&self.min_notional)
    }

    /// What both `==` and `Hash` go by: the digest of `id`.
    #[verifier::when_used_as_spec(spec_digest)]
    pub fn digest(&self) -> (h: u64)
        ensures
            h == self.digest(),
    {
        self.id.digest()
    }
}

impl Clone for CryptoPerpetual {
    /// A copy that agrees with `self` in every field, and so compares
    /// equal to it.
    fn clone(&self) -> (r: Self)
        ensures
            r@ == self@,
            r.eq_spec(self),
    {
        proof {
            use_type_invariant(self);
        }
        CryptoPerpetual {
            id: self.id.clone(),
            raw_symbol: self.raw_symbol.clone(),
            base_currency: self.base_currency.clone(),
            quote_currency: self.quote_currency.clone(),
            settlement_currency: self.settlement_currency.clone(),
            is_inverse: self.is_inverse,
            price_precision: self.price_precision,
            size_precision: self.size_precision,
            price_increment: self.price_increment,
            size_increment: self.size_increment,
            maker_fee: self.maker_fee,
            taker_fee: self.taker_fee,
            margin_init: self.margin_init,
            margin_maint: self.margin_maint,
            lot_size: self.lot_size,
            max_quantity: self.max_quantity,
            min_quantity: self.min_quantity,
            max_notional: clone_notional(&self.max_notional),
            min_notional: clone_notional(&self.min_notional),
            max_price: self.max_price,
            min_price: self.min_price,
            ts_event: self.ts_event,
            ts_init: self.ts_init,
        }
    }
}

impl PartialEq for CryptoPerpetual {
    /// Two definitions are equal when their identities are, whatever else
    /// they hold.
    fn eq(&self, other: &Self) -> (r: bool)
        ensures
            r == (self@.id@ == other@.id@),
    {
        self.id == other.id
    }
}

impl Eq for CryptoPerpetual {}

impl vstd::std_specs::cmp::PartialEqSpecImpl for CryptoPerpetual {
    open spec fn obeys_eq_spec() -> bool {
        true
    }

    open spec fn eq_spec(&self, other: &Self) -> bool {
        self@.id@ == other@.id@
    }
}

impl Hash for CryptoPerpetual {
    /// Feeds the digest of `id` to `state`, and nothing else.
    fn hash<H: Hasher>(&self, state: &mut H) {
        write_digest(state, self.digest());
    }
}

impl Instrument for CryptoPerpetual {
    open spec fn spec_price_precision(&self) -> u8 {
        self@.price_precision
    }

    open spec fn spec_size_precision(&self) -> u8 {
        self@.size_precision
    }

    open spec fn spec_max_quantity(&self) -> Option<Quantity> {
        self@.max_quantity
    }

    open spec fn spec_min_quantity(&self) -> Option<Quantity> {
        self@.min_quantity
    }

    open spec fn spec_max_price(&self) -> Option<Price> {
        self@.max_price
    }

    open spec fn spec_min_price(&self) -> Option<Price> {
        self@.min_price
    }

    fn id(&self) -> (r: InstrumentId)
        ensures
            r == self@.id,
    {
        self.id.clone()
    }

    fn raw_symbol(&self) -> (r: Symbol)
        ensures
            r == self@.raw_symbol,
    {
        self.raw_symbol.clone()
    }

    /// Always `Cryptocurrency`.
    fn asset_class(&self) -> (r: AssetClass)
        ensures
            r == AssetClass::Cryptocurrency,
    {
        AssetClass::Cryptocurrency
    }

    /// Always `Swap`.
    fn instrument_class(&self) -> (r: InstrumentClass)
        ensures
            r == InstrumentClass::Swap,
    {
        InstrumentClass::Swap
    }

    fn quote_currency(&self) -> (r: Currency)
        ensures
            r == self@.quote_currency,
    {
        self.quote_currency.clone()
    }

    /// Never `None`: a perpetual swap always has a base currency.
    fn base_currency(&self) -> (r: Option<Currency>)
        ensures
            r == Some(self@.base_currency),
    {
        Some(self.base_currency.clone())
    }

    fn settlement_currency(&self) -> (r: Currency)
        ensures
            r == self@.settlement_currency,
    {
        self.settlement_currency.clone()
    }

    fn is_inverse(&self) -> (r: bool)
        ensures
            r == self@.is_inverse,
    {
        self.is_inverse
    }

    fn price_precision(&self) -> (r: u8)
        ensures
            r == self@.price_precision,
    {
        self.price_precision
    }

    fn size_precision(&self) -> (r: u8)
        ensures
            r == self@.size_precision,
    {
        self.size_precision
    }

    fn price_increment(&self) -> (r: Price)
        ensures
            r == self@.price_increment,
    {
        proof {
            use_type_invariant(self);
        }
        self.price_increment
    }

    fn size_increment(&self) -> (r: Quantity)
        ensures
            r == self@.size_increment,
    {
        proof {
            use_type_invariant(self);
        }
        self.size_increment
    }

    /// One, written without decimal places: the notional value of a
    /// perpetual swap is price times size.
    fn multiplier(&self) -> (r: Quantity)
        ensures
            r == (Quantity { mantissa: 1, scale: 0 }),
    {
        Quantity::new(1, 0)
    }

    fn lot_size(&self) -> (r: Option<Quantity>)
        ensures
            r == self@.lot_size,
    {
        self.lot_size
    }

    fn max_quantity(&self) -> (r: Option<Quantity>)
        ensures
            r == self@.max_quantity,
    {
        proof {
            use_type_invariant(self);
        }
        self.max_quantity
    }

    fn min_quantity(&self) -> (r: Option<Quantity>)
        ensures
            r == self@.min_quantity,
    {
        proof {
            use_type_invariant(self);
        }
        self.min_quantity
    }

    fn max_price(&self) -> (r: Option<Price>)
        ensures
            r == self@.max_price,
    {
        proof {
            use_type_invariant(self);
        }
        self.max_price
    }

    fn min_price(&self) -> (r: Option<Price>)
        ensures
            r == self@.min_price,
    {
        proof {
            use_type_invariant(self);
        }
        self.min_price
    }

    fn ts_event(&self) -> (r: UnixNanos)
        ensures
            r == self@.ts_event,
    {
        self.ts_event
    }

    fn ts_init(&self) -> (r: UnixNanos)
        ensures
            r == self@.ts_init,
    {
        self.ts_init
    }

    fn taker_fee(&self) -> (r: Decimal)
        ensures
            r == self@.taker_fee,
    {
        self.taker_fee
    }

    fn maker_fee(&self) -> (r: Decimal)
        ensures
            r == self@.maker_fee,
    {
        self.maker_fee
    }

    fn margin_init(&self) -> (r: Decimal)
        ensures
            r == self@.margin_init,
    {
        self.margin_init
    }

    fn margin_maint(&self) -> (r: Decimal)
        ensures
            r == self@.margin_maint,
    {
        self.margin_maint
    }

    fn as_any(&self) -> (r: AnyInstrument<'_>)
        ensures
            r == AnyInstrument::CryptoPerpetual(self),
    {
        AnyInstrument::CryptoPerpetual(self)
    }
}

/// A definition is valid exactly when it breaks no invariant.
pub proof fn lemma_valid_iff_no_violation(definition: CryptoPerpetualView)
    ensures
        definition.is_valid() <==> definition.violation() is None,
{
}

/// Two definitions compare equal exactly when their identities do, whatever
/// their other fields hold.
pub proof fn lemma_equal_iff_same_id(a: CryptoPerpetual, b: CryptoPerpetual)
    ensures
        a.eq_spec(&b) <==> a@.id.eq_spec(&b@.id),
{
}

/// Definitions that compare equal hash alike: each hands a hasher the digest
/// of its identity, and equal identities have one digest.
pub proof fn lemma_equal_hash_alike(a: CryptoPerpetual, b: CryptoPerpetual)
    requires
        a.eq_spec(&b),
    ensures
        a.digest() == b.digest(),
{
}

} // verus!
