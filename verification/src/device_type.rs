//! Device types, as NetworkManager numbers them on D-Bus.

use vstd::prelude::*;

verus! {

/// A wired Ethernet device.
pub const ETHERNET: u32 = 1;

/// A Wi-Fi device.
pub const WIFI: u32 = 2;

/// A Bluetooth device.
pub const BLUETOOTH: u32 = 5;

} // verus!
