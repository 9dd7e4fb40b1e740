//! The decimal type in which fee and margin rates are held.

use vstd::prelude::*;

verus! {

/// `rust_decimal::Decimal`: an exact decimal number with its own scale.
///
/// The library only carries such values from a constructor to an accessor, so
/// the type is declared without any statement about what a value holds.
#[verifier::external_type_specification]
#[verifier::external_body]
pub struct ExDecimal(rust_decimal::Decimal);

} // verus!
