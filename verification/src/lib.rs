//! Immutable trading specifications of tradable instruments.
//!
//! An instrument is built once from already parsed values, checked against its
//! cross-field invariants, and only read afterwards.

pub mod decimal;
pub mod enums;
pub mod error;
pub mod identifiers;
pub mod instruments;
pub mod time;
pub mod types;
