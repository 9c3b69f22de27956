//! What the library is for, stated over its inputs and results.
//!
//! A law on a procedure takes what the services answer and says which requests the procedure
//! makes and what it comes to. Where a procedure contains another one, the law takes any run of
//! the inner one.

pub mod activation;
pub mod bluez;
pub mod connect;
pub mod search;
pub mod settings;
pub mod text;
pub mod views;
