//! Capacities of the containers and the low-stock threshold.

use vstd::prelude::*;

verus! {

/// Capacity of the coffee beans container in mg
pub const G: u32 = 10000;

/// Capacity of the coffee container in mg
pub const C: u32 = 1000;

/// Capacity of the milk in ml
pub const L: u32 = 10000;

/// Capacity of the foam in ml
pub const E: u32 = 1000;

/// Percentage of resources below which the coffee maker will issue a warning
pub const X: u32 = 10;

} // verus!
