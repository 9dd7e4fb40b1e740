//! Fixed-point value types carried by an instrument definition.

pub mod currency;
pub mod fixed;
pub mod money;
pub mod price;
pub mod quantity;
