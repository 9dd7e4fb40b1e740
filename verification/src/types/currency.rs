//! Currencies.

use vstd::prelude::*;

verus! {

/// A currency: its code and the number of decimal places its amounts carry.
#[derive(Debug, Hash)]
pub struct Currency {
    pub code: String,
    pub precision: u8,
}

impl View for Currency {
    type V = (Seq<char>, u8);

    open spec fn view(&self) -> (Seq<char>, u8) {
        (self.code@, self.precision)
    }
}

impl Currency {
    /// The currency with the given code and precision.
    pub fn new(code: &str, precision: u8) -> (r: Currency)
        ensures
            r@ == (code@, precision),
    {
        Currency { code: code.to_owned(), precision }
    }
}

impl Clone for Currency {
    fn clone(&self) -> (r: Self)
        ensures
            r == *self,
    {
        Currency { code: self.code.clone(), precision: self.precision }
    }
}

impl PartialEq for Currency {
    /// Two currencies are equal when code and precision both agree.
    fn eq(&self, other: &Self) -> (r: bool)
        ensures
            r == (self@ == other@),
    {
        self.code == other.code && self.precision == other.precision
    }
}

impl Eq for Currency {}

impl vstd::std_specs::cmp::PartialEqSpecImpl for Currency {
    open spec fn obeys_eq_spec() -> bool {
        true
    }

    open spec fn eq_spec(&self, other: &Self) -> bool {
        self@ == other@
    }
}

} // verus!
