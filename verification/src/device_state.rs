//! Device states, as NetworkManager numbers them on D-Bus.

use vstd::prelude::*;

verus! {

/// The device is managed but cannot be used.
pub const UNAVAILABLE: u32 = 20;

/// The device can be activated but carries no connection.
pub const DISCONNECTED: u32 = 30;

} // verus!
