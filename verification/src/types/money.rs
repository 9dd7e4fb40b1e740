//! Amounts of money.

use crate::types::currency::Currency;
use vstd::prelude::*;

verus! {

/// An amount of one currency, counted in that currency's smallest unit:
/// the sum `amount / 10^currency.precision`.
#[derive(Debug, Hash)]
pub struct Money {
    pub amount: i64,
    pub currency: Currency,
}

impl View for Money {
    type V = (int, (Seq<char>, u8));

    open spec fn view(&self) -> (int, (Seq<char>, u8)) {
        (self.amount as int, self.currency@)
    }
}

impl Money {
    /// Whether both amounts are of one currency and `self` is no greater than
    /// `other`. Amounts of different currencies are not ordered.
    pub open spec fn spec_le(&self, other: &Money) -> bool {
        self.currency@ == other.currency@ && self.amount <= other.amount
    }

    /// `amount` smallest units of `currency`.
    pub fn new(amount: i64, currency: Currency) -> (r: Money)
        ensures
            r == (Money { amount, currency }),
    {
        Money { amount, currency }
    }

    /// Whether both amounts are of one currency and `self` is no greater than
    /// `other`.
    #[verifier::when_used_as_spec(spec_le)]
    pub fn le(&self, other: &Money) -> (r: bool)
        ensures
            r == self.le(other),
    {
        self.currency == other.currency && self.amount <= other.amount
    }
}

impl Clone for Money {
    fn clone(&self) -> (r: Self)
        ensures
            r == *self,
    {
        Money { amount: self.amount, currency: self.currency.clone() }
    }
}

impl PartialEq for Money {
    /// Two amounts are equal when they count the same number of units of the
    /// same currency.
    fn eq(&self, other: &Self) -> (r: bool)
        ensures
            r == (self@ == other@),
    {
        self.amount == other.amount && self.currency == other.currency
    }
}

impl Eq for Money {}

impl vstd::std_specs::cmp::PartialEqSpecImpl for Money {
    open spec fn obeys_eq_spec() -> bool {
        true
    }

    open spec fn eq_spec(&self, other: &Self) -> bool {
        self@ == other@
    }
}

} // verus!
