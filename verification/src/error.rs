//! Errors of connection management.

use vstd::prelude::*;
use vstd::std_specs::convert::FromSpec;

verus! {

/// The error type of `zbus`, which is carried along and never looked into.
#[verifier::external_type_specification]
#[verifier::external_body]
pub struct ExZbusError(zbus::Error);

/// Why a connection could not be managed.
#[non_exhaustive]
#[derive(Debug)]
pub enum ConnectionError {
    /// A Bluetooth address, or the object path made of it, is malformed.
    InvalidAddress(String),
    /// An argument is malformed.
    InvalidInput {
        /// The argument.
        field: String,
        /// What is wrong with it.
        reason: String,
    },
    /// There is no such Bluetooth device, or no Bluetooth hardware.
    NoBluetoothDevice,
    /// BlueZ could not be asked.
    BluezUnavailable(String),
    /// No device of the wanted kind exists.
    NotFound,
    /// A D-Bus call failed.
    Dbus(zbus::Error),
    /// A D-Bus call failed, with a note on what it was for.
    DbusOperation {
        /// What the call was for.
        context: String,
        /// How it failed.
        source: zbus::Error,
    },
    /// A failure that another part of connection management reports.
    Other(String),
}

/// The mathematical value of a [`ConnectionError`].
pub enum ErrorView {
    InvalidAddress(Seq<char>),
    InvalidInput { field: Seq<char>, reason: Seq<char> },
    NoBluetoothDevice,
    BluezUnavailable(Seq<char>),
    NotFound,
    Dbus(zbus::Error),
    DbusOperation { context: Seq<char>, source: zbus::Error },
    Other(Seq<char>),
}

impl DeepView for ConnectionError {
    type V = ErrorView;

    open spec fn deep_view(&self) -> ErrorView {
        match *self {
            ConnectionError::InvalidAddress(message) => ErrorView::InvalidAddress(message@),
            ConnectionError::InvalidInput { field, reason } => ErrorView::InvalidInput {
                field: field@,
                reason: reason@,
            },
            ConnectionError::NoBluetoothDevice => ErrorView::NoBluetoothDevice,
            ConnectionError::BluezUnavailable(message) => ErrorView::BluezUnavailable(message@),
            ConnectionError::NotFound => ErrorView::NotFound,
            ConnectionError::Dbus(source) => ErrorView::Dbus(source),
            ConnectionError::DbusOperation { context, source } => ErrorView::DbusOperation {
                context: context@,
                source,
            },
            ConnectionError::Other(message) => ErrorView::Other(message@),
        }
    }
}

impl From<zbus::Error> for ConnectionError {
    fn from(source: zbus::Error) -> (error: Self) {
        ConnectionError::Dbus(source)
    }
}

impl vstd::std_specs::convert::FromSpecImpl<zbus::Error> for ConnectionError {
    open spec fn obeys_from_spec() -> bool {
        true
    }

    open spec fn from_spec(source: zbus::Error) -> Self {
        ConnectionError::Dbus(source)
    }
}

/// An error of the bus is kept as it is.
pub proof fn law_bus_errors_are_kept(source: zbus::Error)
    ensures
        <ConnectionError as FromSpec<zbus::Error>>::obeys_from_spec(),
        <ConnectionError as FromSpec<zbus::Error>>::from_spec(source) == ConnectionError::Dbus(
            source,
        ),
{
}

} // verus!
