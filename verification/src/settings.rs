//! What the settings of a connection say.

use vstd::prelude::*;

use crate::device_type;
use crate::error::{ConnectionError, ErrorView};
use crate::models::{find_text, text_at, Sections, SectionsView};
use crate::object_path::{valid_object_path, ObjectPath};
use crate::protocol::result_view;
use crate::text::same_text;

verus! {

/// The type of the connection.
pub open spec fn connection_type(settings: SectionsView) -> Result<Seq<char>, ErrorView> {
    match text_at(settings, "connection"@, "type"@) {
        Some(conn_type) => Ok(conn_type),
        None => Err(
            ErrorView::InvalidInput {
                field: "connection.type"@,
                reason: "settings dictionary is missing connection.type"@,
            },
        ),
    }
}

/// The type of the connection.
pub fn connection_type_from_settings<'a>(settings: &'a Sections) -> (conn_type: Result<
    &'a str,
    ConnectionError,
>)
    ensures
        result_view(conn_type) == connection_type(settings.deep_view()),
{
    match find_text(settings, "connection", "type") {
        Some(conn_type) => Ok(conn_type),
        None => Err(
            ConnectionError::InvalidInput {
                field: "connection.type".to_owned(),
                reason: "settings dictionary is missing connection.type".to_owned(),
            },
        ),
    }
}

/// The number of the type of device that a type of connection needs; none where it needs no
/// certain device.
pub open spec fn needed_device_type(conn_type: Seq<char>) -> Option<u32> {
    if conn_type == "802-11-wireless"@ {
        Some(device_type::WIFI)
    } else if conn_type == "802-3-ethernet"@ {
        Some(device_type::ETHERNET)
    } else if conn_type == "bluetooth"@ {
        Some(device_type::BLUETOOTH)
    } else {
        None
    }
}

/// The number of the type of device that a type of connection needs; none where it needs no
/// certain device.
pub fn expected_device_type(conn_type: &str) -> (raw_type: Option<u32>)
    ensures
        raw_type == needed_device_type(conn_type@),
{
    if same_text(conn_type, "802-11-wireless") {
        Some(device_type::WIFI)
    } else if same_text(conn_type, "802-3-ethernet") {
        Some(device_type::ETHERNET)
    } else if same_text(conn_type, "bluetooth") {
        Some(device_type::BLUETOOTH)
    } else {
        None
    }
}

/// The address of the Bluetooth device to connect to.
pub open spec fn bluetooth_bdaddr(settings: SectionsView) -> Result<Seq<char>, ErrorView> {
    match text_at(settings, "bluetooth"@, "bdaddr"@) {
        Some(bdaddr) => Ok(bdaddr),
        None => Err(
            ErrorView::InvalidInput {
                field: "bluetooth.bdaddr"@,
                reason: "bluetooth settings are missing bdaddr"@,
            },
        ),
    }
}

/// The address of the Bluetooth device to connect to.
pub fn bluetooth_bdaddr_from_settings(settings: &Sections) -> (bdaddr: Result<
    String,
    ConnectionError,
>)
    ensures
        result_view(bdaddr) == bluetooth_bdaddr(settings.deep_view()),
{
    match find_text(settings, "bluetooth", "bdaddr") {
        Some(bdaddr) => Ok(bdaddr.to_owned()),
        None => Err(
            ConnectionError::InvalidInput {
                field: "bluetooth.bdaddr".to_owned(),
                reason: "bluetooth settings are missing bdaddr".to_owned(),
            },
        ),
    }
}

/// The object that the caller asks for by its path, if the caller does.
pub open spec fn explicit_object(specific_object: Option<Seq<char>>) -> Result<
    Option<Seq<char>>,
    ErrorView,
> {
    match specific_object {
        Some(path) => if valid_object_path(path) {
            Ok(Some(path))
        } else {
            Err(
                ErrorView::InvalidInput {
                    field: "specific_object"@,
                    reason: "Invalid object path"@,
                },
            )
        },
        None => Ok(None),
    }
}

/// The object that the caller asks for by its path, if the caller does.
pub fn explicit_specific_object(specific_object: Option<&str>) -> (object: Result<
    Option<ObjectPath>,
    ConnectionError,
>)
    ensures
        result_view(object) == explicit_object(specific_object.deep_view()),
{
    match specific_object {
        Some(path) => match ObjectPath::parse(path.to_owned()) {
            Ok(path) => Ok(Some(path)),
            Err(reason) => Err(
                ConnectionError::InvalidInput { field: "specific_object".to_owned(), reason },
            ),
        },
        None => Ok(None),
    }
}

/// The types of connection that need a certain type of device need different ones.
pub proof fn law_device_types_tell_connection_types_apart(a: Seq<char>, b: Seq<char>)
    requires
        needed_device_type(a) is Some,
        needed_device_type(a) == needed_device_type(b),
    ensures
        a == b,
{
}

} // verus!
