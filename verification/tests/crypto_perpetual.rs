use nautilus_model::enums::{AssetClass, InstrumentClass};
use nautilus_model::error::InstrumentError;
use nautilus_model::identifiers::{InstrumentId, Symbol, Venue};
use nautilus_model::instruments::crypto_perpetual::CryptoPerpetual;
use nautilus_model::instruments::{AnyInstrument, Instrument};
use nautilus_model::types::currency::Currency;
use nautilus_model::types::money::Money;
use nautilus_model::types::price::Price;
use nautilus_model::types::quantity::Quantity;
use rust_decimal::Decimal;
use std::collections::hash_map::DefaultHasher;
use std::collections::HashSet;
use std::hash::{Hash, Hasher};

const TS: u64 = 1_700_000_000_000_000_000;

/// The arguments of `CryptoPerpetual::new`, so that a test can change one and
/// leave the rest.
#[derive(Clone)]
struct Fields {
    id: InstrumentId,
    raw_symbol: Symbol,
    base_currency: Currency,
    quote_currency: Currency,
    settlement_currency: Currency,
    is_inverse: bool,
    price_precision: u8,
    size_precision: u8,
    price_increment: Price,
    size_increment: Quantity,
    maker_fee: Decimal,
    taker_fee: Decimal,
    margin_init: Decimal,
    margin_maint: Decimal,
    lot_size: Option<Quantity>,
    max_quantity: Option<Quantity>,
    min_quantity: Option<Quantity>,
    max_notional: Option<Money>,
    min_notional: Option<Money>,
    max_price: Option<Price>,
    min_price: Option<Price>,
    ts_event: u64,
    ts_init: u64,
}

impl Fields {
    fn build(self) -> Result<CryptoPerpetual, InstrumentError> {
        CryptoPerpetual::new(
            self.id,
            self.raw_symbol,
            self.base_currency,
            self.quote_currency,
            self.settlement_currency,
            self.is_inverse,
            self.price_precision,
            self.size_precision,
            self.price_increment,
            self.size_increment,
            self.maker_fee,
            self.taker_fee,
            self.margin_init,
            self.margin_maint,
            self.lot_size,
            self.max_quantity,
            self.min_quantity,
            self.max_notional,
            self.min_notional,
            self.max_price,
            self.min_price,
            self.ts_event,
            self.ts_init,
        )
    }
}

fn btc() -> Currency {
    Currency::new("BTC", 8)
}

fn eth() -> Currency {
    Currency::new("ETH", 8)
}

fn usdt() -> Currency {
    Currency::new("USDT", 8)
}

fn price(mantissa: i64, scale: u8) -> Price {
    Price::new(mantissa, scale)
}

fn quantity(mantissa: u64, scale: u8) -> Quantity {
    Quantity::new(mantissa, scale)
}

/// `units` whole USDT.
fn usdt_amount(units: i64) -> Money {
    Money::new(units * 100_000_000, usdt())
}

/// BTC against USDT, settled in USDT, with no bounds.
fn btcusdt() -> Fields {
    Fields {
        id: InstrumentId::new(Symbol::new("BTCUSDT-PERP"), Venue::new("BINANCE")),
        raw_symbol: Symbol::new("BTCUSDT"),
        base_currency: btc(),
        quote_currency: usdt(),
        settlement_currency: usdt(),
        is_inverse: false,
        price_precision: 2,
        size_precision: 3,
        price_increment: price(1, 2),
        size_increment: quantity(1, 3),
        maker_fee: Decimal::new(2, 4),
        taker_fee: Decimal::new(5, 4),
        margin_init: Decimal::new(5, 2),
        margin_maint: Decimal::new(25, 3),
        lot_size: None,
        max_quantity: None,
        min_quantity: None,
        max_notional: None,
        min_notional: None,
        max_price: None,
        min_price: None,
        ts_event: TS,
        ts_init: TS,
    }
}

/// ETH against USDT, with every bound set.
fn ethusdt() -> Fields {
    Fields {
        id: InstrumentId::new(Symbol::new("ETHUSDT-PERP"), Venue::new("BINANCE")),
        raw_symbol: Symbol::new("ETHUSDT"),
        base_currency: eth(),
        quote_currency: usdt(),
        settlement_currency: usdt(),
        is_inverse: false,
        price_precision: 2,
        size_precision: 3,
        price_increment: price(1, 2),
        size_increment: quantity(1, 3),
        maker_fee: Decimal::new(2, 4),
        taker_fee: Decimal::new(4, 4),
        margin_init: Decimal::new(1, 0),
        margin_maint: Decimal::new(35, 2),
        lot_size: Some(quantity(1, 0)),
        max_quantity: Some(quantity(10_000_000, 3)),
        min_quantity: Some(quantity(1, 3)),
        max_notional: Some(usdt_amount(1_000_000)),
        min_notional: Some(usdt_amount(10)),
        max_price: Some(price(1_500_000, 2)),
        min_price: Some(price(1, 2)),
        ts_event: 0,
        ts_init: 1,
    }
}

fn std_hash<T: Hash>(value: &T) -> u64 {
    let mut hasher = DefaultHasher::new();
    value.hash(&mut hasher);
    hasher.finish()
}

#[test]
fn test_equality() {
    let crypto_perpetual_ethusdt = ethusdt().build().unwrap();
    let cloned = crypto_perpetual_ethusdt.clone();
    assert_eq!(crypto_perpetual_ethusdt, cloned)
}

#[test]
fn equality_goes_by_id_alone() {
    let a = ethusdt().build().unwrap();

    // same id, everything else from another contract
    let mut other = btcusdt();
    other.id = a.id();
    let b = other.build().unwrap();
    assert_eq!(a.id(), b.id());
    assert_eq!(a, b);
    assert_ne!(a.raw_symbol(), b.raw_symbol());
    assert_ne!(a.base_currency(), b.base_currency());
    assert_ne!(a.taker_fee(), b.taker_fee());
    assert_ne!(a.lot_size(), b.lot_size());
    assert_ne!(a.ts_event(), b.ts_event());

    // another id, everything else the same
    let mut moved = ethusdt();
    moved.id = InstrumentId::new(Symbol::new("ETHUSDT-PERP"), Venue::new("BYBIT"));
    let c = moved.build().unwrap();
    assert_ne!(a.id(), c.id());
    assert_ne!(a, c);

    let mut renamed = ethusdt();
    renamed.id = InstrumentId::new(Symbol::new("ETHUSD-PERP"), Venue::new("BINANCE"));
    let d = renamed.build().unwrap();
    assert_ne!(a, d);
}

#[test]
fn equal_instruments_hash_alike() {
    let a = ethusdt().build().unwrap();
    let mut other = btcusdt();
    other.id = a.id();
    let b = other.build().unwrap();
    assert_eq!(a, b);
    assert_eq!(a.digest(), b.digest());
    assert_eq!(std_hash(&a), std_hash(&b));

    let mut set = HashSet::new();
    assert!(set.insert(a));
    assert!(!set.insert(b));
    assert!(set.insert(btcusdt().build().unwrap()));
    assert_eq!(set.len(), 2);
}

#[test]
fn an_instrument_hashes_as_its_id_does() {
    let a = ethusdt().build().unwrap();
    assert_eq!(a.digest(), a.id().digest());
    assert_eq!(std_hash(&a), std_hash(&a.id()));

    let mut hasher = DefaultHasher::new();
    hasher.write_u64(a.id().digest());
    assert_eq!(std_hash(&a), hasher.finish());

    let b = btcusdt().build().unwrap();
    assert_ne!(a.digest(), b.digest());
    assert_ne!(std_hash(&a), std_hash(&b));
}

#[test]
fn a_clone_agrees_field_for_field() {
    let source = ethusdt().build().unwrap();
    let cloned = source.clone();
    assert_eq!(cloned, source);
    assert_eq!(cloned.id(), source.id());
    assert_eq!(cloned.raw_symbol(), source.raw_symbol());
    assert_eq!(cloned.asset_class(), source.asset_class());
    assert_eq!(cloned.instrument_class(), source.instrument_class());
    assert_eq!(cloned.quote_currency(), source.quote_currency());
    assert_eq!(cloned.base_currency(), source.base_currency());
    assert_eq!(cloned.settlement_currency(), source.settlement_currency());
    assert_eq!(cloned.is_inverse(), source.is_inverse());
    assert_eq!(cloned.price_precision(), source.price_precision());
    assert_eq!(cloned.size_precision(), source.size_precision());
    assert_eq!(cloned.price_increment(), source.price_increment());
    assert_eq!(cloned.size_increment(), source.size_increment());
    assert_eq!(cloned.multiplier(), source.multiplier());
    assert_eq!(cloned.lot_size(), source.lot_size());
    assert_eq!(cloned.max_quantity(), source.max_quantity());
    assert_eq!(cloned.min_quantity(), source.min_quantity());
    assert_eq!(cloned.max_notional(), source.max_notional());
    assert_eq!(cloned.min_notional(), source.min_notional());
    assert_eq!(cloned.max_price(), source.max_price());
    assert_eq!(cloned.min_price(), source.min_price());
    assert_eq!(cloned.ts_event(), source.ts_event());
    assert_eq!(cloned.ts_init(), source.ts_init());
    assert_eq!(cloned.taker_fee(), source.taker_fee());
    assert_eq!(cloned.maker_fee(), source.maker_fee());
    assert_eq!(cloned.margin_init(), source.margin_init());
    assert_eq!(cloned.margin_maint(), source.margin_maint());
    assert_eq!(cloned.digest(), source.digest());
}

#[test]
fn accessors_give_back_what_was_passed_in() {
    let instrument = ethusdt().build().unwrap();
    assert_eq!(
        instrument.id(),
        InstrumentId::new(Symbol::new("ETHUSDT-PERP"), Venue::new("BINANCE"))
    );
    assert_eq!(instrument.raw_symbol(), Symbol::new("ETHUSDT"));
    assert_eq!(instrument.quote_currency(), usdt());
    assert_eq!(instrument.base_currency(), Some(eth()));
    assert_eq!(instrument.settlement_currency(), usdt());
    assert!(!instrument.is_inverse());
    assert_eq!(instrument.price_precision(), 2);
    assert_eq!(instrument.size_precision(), 3);
    assert_eq!(instrument.price_increment(), price(1, 2));
    assert_eq!(instrument.size_increment(), quantity(1, 3));
    assert_eq!(instrument.lot_size(), Some(quantity(1, 0)));
    assert_eq!(instrument.max_quantity(), Some(quantity(10_000_000, 3)));
    assert_eq!(instrument.min_quantity(), Some(quantity(1, 3)));
    assert_eq!(instrument.max_notional(), Some(usdt_amount(1_000_000)));
    assert_eq!(instrument.min_notional(), Some(usdt_amount(10)));
    assert_eq!(instrument.max_price(), Some(price(1_500_000, 2)));
    assert_eq!(instrument.min_price(), Some(price(1, 2)));
    assert_eq!(instrument.ts_event(), 0);
    assert_eq!(instrument.ts_init(), 1);
    assert_eq!(instrument.maker_fee(), Decimal::new(2, 4));
    assert_eq!(instrument.taker_fee(), Decimal::new(4, 4));
    assert_eq!(instrument.margin_init(), Decimal::new(1, 0));
    assert_eq!(instrument.margin_maint(), Decimal::new(35, 2));
}

#[test]
fn an_inverse_contract_says_so() {
    let mut fields = btcusdt();
    fields.is_inverse = true;
    fields.settlement_currency = btc();
    let instrument = fields.build().unwrap();
    assert!(instrument.is_inverse());
    assert_eq!(instrument.settlement_currency(), btc());
    assert_eq!(instrument.base_currency(), Some(btc()));
    assert_ne!(instrument.settlement_currency(), instrument.quote_currency());
}

#[test]
fn multiplier_is_one() {
    let one = quantity(1, 0);
    assert_eq!(btcusdt().build().unwrap().multiplier(), one);
    assert_eq!(ethusdt().build().unwrap().multiplier(), one);
    let multiplier = ethusdt().build().unwrap().multiplier();
    assert_eq!(multiplier.mantissa, 1);
    assert_eq!(multiplier.scale, 0);
    assert!(multiplier.is_positive());
}

#[test]
fn price_increment_must_be_written_at_the_price_precision() {
    let mut fields = btcusdt();
    fields.price_precision = 2;
    fields.price_increment = price(1, 3);
    assert_eq!(fields.build(), Err(InstrumentError::PriceIncrementScale));

    // the same number at the right scale is taken
    let mut fields = btcusdt();
    fields.price_precision = 3;
    fields.price_increment = price(1, 3);
    assert!(fields.build().is_ok());

    // too few decimal places are refused as well
    let mut fields = btcusdt();
    fields.price_precision = 2;
    fields.price_increment = price(1, 1);
    assert_eq!(fields.build(), Err(InstrumentError::PriceIncrementScale));

    // any precision will do, as long as the increment is written at it
    let mut fields = btcusdt();
    fields.price_precision = 255;
    fields.price_increment = price(1, 255);
    assert_eq!(fields.build().unwrap().price_precision(), 255);
}

#[test]
fn size_increment_must_be_written_at_the_size_precision() {
    let mut fields = btcusdt();
    fields.size_precision = 3;
    fields.size_increment = quantity(1, 4);
    assert_eq!(fields.build(), Err(InstrumentError::SizeIncrementScale));

    let mut fields = btcusdt();
    fields.size_precision = 0;
    fields.size_increment = quantity(1, 0);
    assert!(fields.build().is_ok());
}

#[test]
fn quantity_bounds_must_be_in_order() {
    let mut fields = btcusdt();
    fields.min_quantity = Some(quantity(10, 0));
    fields.max_quantity = Some(quantity(5, 0));
    assert_eq!(fields.build(), Err(InstrumentError::QuantityBounds));

    // by value, not by mantissa: 0.010 lies below 5
    let mut fields = btcusdt();
    fields.min_quantity = Some(quantity(10, 3));
    fields.max_quantity = Some(quantity(5, 0));
    assert!(fields.build().is_ok());

    // and 6.000 lies above 5
    let mut fields = btcusdt();
    fields.min_quantity = Some(quantity(6000, 3));
    fields.max_quantity = Some(quantity(5, 0));
    assert_eq!(fields.build(), Err(InstrumentError::QuantityBounds));
}

#[test]
fn price_bounds_must_be_in_order() {
    let mut fields = btcusdt();
    fields.min_price = Some(price(100_001, 2));
    fields.max_price = Some(price(100_000, 2));
    assert_eq!(fields.build(), Err(InstrumentError::PriceBounds));

    let mut fields = btcusdt();
    fields.min_price = Some(price(-5, 1));
    fields.max_price = Some(price(-6, 1));
    assert_eq!(fields.build(), Err(InstrumentError::PriceBounds));

    let mut fields = btcusdt();
    fields.min_price = Some(price(-6, 1));
    fields.max_price = Some(price(-5, 1));
    assert!(fields.build().is_ok());
}

#[test]
fn notional_bounds_must_be_in_order() {
    let mut fields = btcusdt();
    fields.min_notional = Some(usdt_amount(1_000));
    fields.max_notional = Some(usdt_amount(999));
    assert_eq!(fields.build(), Err(InstrumentError::NotionalBounds));

    let mut fields = btcusdt();
    fields.min_notional = Some(usdt_amount(999));
    fields.max_notional = Some(usdt_amount(1_000));
    assert!(fields.build().is_ok());
}

#[test]
fn notional_bounds_must_be_of_one_currency() {
    let mut fields = btcusdt();
    fields.min_notional = Some(Money::new(1, btc()));
    fields.max_notional = Some(usdt_amount(1_000_000));
    assert_eq!(fields.build(), Err(InstrumentError::NotionalBounds));
}

#[test]
fn equal_bounds_are_in_order() {
    let mut fields = btcusdt();
    fields.min_quantity = Some(quantity(5, 0));
    fields.max_quantity = Some(quantity(5000, 3));
    fields.min_notional = Some(usdt_amount(10));
    fields.max_notional = Some(usdt_amount(10));
    fields.min_price = Some(price(1, 2));
    fields.max_price = Some(price(10, 3));
    let instrument = fields.build().unwrap();
    assert_eq!(instrument.min_quantity(), Some(quantity(5, 0)));
    assert_eq!(instrument.max_quantity(), Some(quantity(5000, 3)));
}

#[test]
fn a_single_bound_is_never_out_of_order() {
    let mut fields = btcusdt();
    fields.min_quantity = Some(quantity(u64::MAX, 0));
    fields.max_notional = Some(usdt_amount(-1));
    fields.min_price = Some(price(i64::MAX, 0));
    let instrument = fields.build().unwrap();
    assert_eq!(instrument.min_quantity(), Some(quantity(u64::MAX, 0)));
    assert_eq!(instrument.max_quantity(), None);
    assert_eq!(instrument.max_notional(), Some(usdt_amount(-1)));
    assert_eq!(instrument.min_notional(), None);
    assert_eq!(instrument.min_price(), Some(price(i64::MAX, 0)));
    assert_eq!(instrument.max_price(), None);
}

#[test]
fn price_increment_must_be_positive() {
    let mut fields = btcusdt();
    fields.price_increment = price(0, 2);
    assert_eq!(fields.build(), Err(InstrumentError::PriceIncrementNotPositive));

    let mut fields = btcusdt();
    fields.price_increment = price(-1, 2);
    assert_eq!(fields.build(), Err(InstrumentError::PriceIncrementNotPositive));
}

#[test]
fn size_increment_must_be_positive() {
    let mut fields = btcusdt();
    fields.size_increment = quantity(0, 3);
    assert_eq!(fields.build(), Err(InstrumentError::SizeIncrementNotPositive));
}

#[test]
fn the_first_broken_invariant_is_named() {
    // everything wrong at once
    let mut fields = btcusdt();
    fields.price_increment = price(0, 5);
    fields.size_increment = quantity(0, 5);
    fields.min_quantity = Some(quantity(2, 0));
    fields.max_quantity = Some(quantity(1, 0));
    fields.min_notional = Some(usdt_amount(2));
    fields.max_notional = Some(usdt_amount(1));
    fields.min_price = Some(price(2, 0));
    fields.max_price = Some(price(1, 0));
    assert_eq!(fields.clone().build(), Err(InstrumentError::PriceIncrementScale));

    fields.price_increment = price(0, 2);
    assert_eq!(fields.clone().build(), Err(InstrumentError::SizeIncrementScale));

    fields.size_increment = quantity(0, 3);
    assert_eq!(fields.clone().build(), Err(InstrumentError::QuantityBounds));

    fields.max_quantity = None;
    assert_eq!(fields.clone().build(), Err(InstrumentError::NotionalBounds));

    fields.min_notional = None;
    assert_eq!(fields.clone().build(), Err(InstrumentError::PriceBounds));

    fields.max_price = Some(price(2, 0));
    assert_eq!(fields.clone().build(), Err(InstrumentError::PriceIncrementNotPositive));

    fields.price_increment = price(5, 2);
    assert_eq!(fields.clone().build(), Err(InstrumentError::SizeIncrementNotPositive));

    fields.size_increment = quantity(5, 3);
    assert!(fields.build().is_ok());
}

#[test]
fn fees_and_margins_are_taken_as_they_come() {
    let mut fields = btcusdt();
    fields.maker_fee = Decimal::new(-1, 4);
    fields.taker_fee = Decimal::new(25, 1);
    fields.margin_init = Decimal::new(1, 2);
    fields.margin_maint = Decimal::new(5, 2);
    fields.ts_event = 2;
    fields.ts_init = 1;
    let instrument = fields.build().unwrap();
    assert_eq!(instrument.maker_fee(), Decimal::new(-1, 4));
    assert_eq!(instrument.taker_fee(), Decimal::new(25, 1));
    assert_eq!(instrument.margin_init(), Decimal::new(1, 2));
    assert_eq!(instrument.margin_maint(), Decimal::new(5, 2));
    assert_eq!(instrument.ts_event(), 2);
    assert_eq!(instrument.ts_init(), 1);
}

#[test]
fn optional_fields_pass_through() {
    let mut fields = btcusdt();
    fields.lot_size = None;
    fields.max_notional = Some(usdt_amount(1_000_000));
    let instrument = fields.build().unwrap();
    assert_eq!(instrument.lot_size(), None);
    assert_eq!(instrument.max_notional(), Some(usdt_amount(1_000_000)));
    assert_eq!(instrument.max_notional().unwrap().amount, 100_000_000_000_000);
    assert_eq!(instrument.max_notional().unwrap().currency, usdt());
    assert_eq!(instrument.min_notional(), None);

    let mut fields = btcusdt();
    fields.lot_size = Some(quantity(1, 0));
    assert_eq!(fields.build().unwrap().lot_size(), Some(quantity(1, 0)));
}

#[test]
fn btcusdt_perpetual_reads_back() {
    let instrument = btcusdt().build().unwrap();
    assert_eq!(instrument.asset_class(), AssetClass::Cryptocurrency);
    assert_eq!(instrument.instrument_class(), InstrumentClass::Swap);
    assert_eq!(instrument.multiplier(), quantity(1, 0));
    assert!(!instrument.is_inverse());
    assert_eq!(instrument.settlement_currency(), instrument.quote_currency());
    assert_eq!(instrument.base_currency(), Some(btc()));
    assert_eq!(instrument.price_precision(), 2);
    assert_eq!(instrument.size_precision(), 3);
    assert_eq!(instrument.price_increment(), price(1, 2));
    assert_eq!(instrument.size_increment(), quantity(1, 3));
    assert_eq!(instrument.maker_fee(), Decimal::new(2, 4));
    assert_eq!(instrument.taker_fee(), Decimal::new(5, 4));
    assert_eq!(instrument.margin_init(), Decimal::new(5, 2));
    assert_eq!(instrument.margin_maint(), Decimal::new(25, 3));
    assert_eq!(instrument.lot_size(), None);
    assert_eq!(instrument.max_quantity(), None);
    assert_eq!(instrument.min_quantity(), None);
    assert_eq!(instrument.max_notional(), None);
    assert_eq!(instrument.min_notional(), None);
    assert_eq!(instrument.max_price(), None);
    assert_eq!(instrument.min_price(), None);
    assert_eq!(instrument.ts_event(), 1_700_000_000_000_000_000);
    assert_eq!(instrument.ts_init(), 1_700_000_000_000_000_000);
}

#[test]
fn as_any_recovers_the_variant() {
    let instrument = ethusdt().build().unwrap();
    let AnyInstrument::CryptoPerpetual(recovered) = instrument.as_any();
    assert_eq!(recovered, &instrument);
    assert_eq!(recovered.max_notional(), Some(usdt_amount(1_000_000)));
    assert!(std::ptr::eq(recovered, &instrument));
}

#[test]
fn the_interface_can_be_used_without_the_variant() {
    fn notional_step(instrument: &dyn Instrument) -> (u8, u8, Quantity) {
        (
            instrument.price_precision(),
            instrument.size_precision(),
            instrument.multiplier(),
        )
    }
    let instrument = btcusdt().build().unwrap();
    assert_eq!(notional_step(&instrument), (2, 3, quantity(1, 0)));
}

#[test]
fn every_error_says_what_is_wrong() {
    assert_eq!(
        InstrumentError::PriceIncrementScale.message(),
        "price increment is not written at the price precision"
    );
    assert_eq!(
        InstrumentError::SizeIncrementScale.message(),
        "size increment is not written at the size precision"
    );
    assert_eq!(
        InstrumentError::QuantityBounds.message(),
        "minimum quantity exceeds maximum quantity"
    );
    assert_eq!(
        InstrumentError::NotionalBounds.message(),
        "minimum notional does not lie at or below maximum notional"
    );
    assert_eq!(InstrumentError::PriceBounds.message(), "minimum price exceeds maximum price");
    assert_eq!(
        InstrumentError::PriceIncrementNotPositive.message(),
        "price increment is not positive"
    );
    assert_eq!(
        InstrumentError::SizeIncrementNotPositive.message(),
        "size increment is not positive"
    );
}
