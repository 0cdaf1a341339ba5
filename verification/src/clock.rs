//! Wall-clock capture for event timestamps.
//!
//! A timestamp is taken at the moment of emission and carried through the
//! channel untouched; the library never reads anything out of it.

use vstd::prelude::*;

verus! {

/// `std::time::SystemTime`, declared so an event envelope can carry the
/// moment of its emission; the value stays opaque to the library.
#[verifier::external_type_specification]
#[verifier::external_body]
pub struct ExSystemTime(std::time::SystemTime);

/// Relies on `std::time::SystemTime::now`: the wall clock's current reading.
/// The clock decides the value, so nothing is stated of it.
pub assume_specification[ std::time::SystemTime::now ]() -> (t: std::time::SystemTime);

} // verus!
