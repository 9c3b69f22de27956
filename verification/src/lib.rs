//! The decisions of connection management with NetworkManager and BlueZ.
//!
//! Everything that takes calls on D-Bus is a procedure ([`protocol`]): a value that says which call
//! it waits for and goes on from the reply. What each procedure asks, in which order, and what it
//! comes to is stated and proved over all replies ([`run`]).

pub mod activation;
pub mod bluetooth;
pub mod bluetooth_disconnect;
pub mod bluez;
pub mod bluez_info;
pub mod bluez_lookup;
pub mod custom_connection;
pub mod device_search;
pub mod device_state;
pub mod device_type;
pub mod dict;
pub mod error;
pub mod laws;
pub mod models;
pub mod object_path;
pub mod passphrase;
pub mod protocol;
pub mod run;
pub mod settings;
pub mod text;
