//! The driver API types that a device may be registered with.

use vstd::prelude::*;

verus! {

/// Marks a C driver API table (such as Zephyr's `uart_driver_api`) that a
/// device can be registered with.
pub trait DriverApi {}

} // verus!
