use nmrs::device_type;
use nmrs::dict::Dict;
use nmrs::error::ConnectionError;
use nmrs::models::{Sections, Value};
use nmrs::settings::{
    bluetooth_bdaddr_from_settings, connection_type_from_settings, expected_device_type,
    explicit_specific_object,
};
use zvariant::OwnedValue;

fn text(value: &str) -> Value {
    Value::Str(value.to_string())
}

fn number(value: u32) -> Value {
    Value::Other(OwnedValue::from(value))
}

fn sample_wifi_settings() -> Sections {
    let mut connection = Dict::new();
    connection.insert("type", text("802-11-wireless"));
    connection.insert("id", text("Hotspot"));

    let mut wireless = Dict::new();
    wireless.insert("mode", text("ap"));

    let mut settings = Dict::new();
    settings.insert("connection", connection);
    settings.insert("802-11-wireless", wireless);
    settings
}

fn sample_bluetooth_settings(bdaddr: Option<Value>) -> Sections {
    let mut connection = Dict::new();
    connection.insert("type", text("bluetooth"));

    let mut bluetooth = Dict::new();
    if let Some(bdaddr) = bdaddr {
        bluetooth.insert("bdaddr", bdaddr);
    }

    let mut settings = Dict::new();
    settings.insert("connection", connection);
    settings.insert("bluetooth", bluetooth);
    settings
}

fn assert_invalid_input(error: ConnectionError, expected_field: &str, expected_reason: &str) {
    match error {
        ConnectionError::InvalidInput { field, reason } => {
            assert_eq!(field, expected_field);
            assert_eq!(reason, expected_reason);
        }
        other => panic!("expected InvalidInput, got {other:?}"),
    }
}

#[test]
fn connection_type_from_settings_reads_type_field() {
    let settings = sample_wifi_settings();
    assert_eq!(
        connection_type_from_settings(&settings).unwrap(),
        "802-11-wireless"
    );
}

#[test]
fn connection_type_from_settings_rejects_every_missing_or_wrong_type_shape() {
    let no_connection: Sections = Dict::new();
    assert_invalid_input(
        connection_type_from_settings(&no_connection).unwrap_err(),
        "connection.type",
        "settings dictionary is missing connection.type",
    );

    let mut no_type: Sections = Dict::new();
    no_type.insert("connection", Dict::new());
    assert_invalid_input(
        connection_type_from_settings(&no_type).unwrap_err(),
        "connection.type",
        "settings dictionary is missing connection.type",
    );

    let mut connection = Dict::new();
    connection.insert("type", number(42));
    let mut wrong_type: Sections = Dict::new();
    wrong_type.insert("connection", connection);
    assert_invalid_input(
        connection_type_from_settings(&wrong_type).unwrap_err(),
        "connection.type",
        "settings dictionary is missing connection.type",
    );
}

#[test]
fn expected_device_type_maps_supported_and_virtual_connection_types() {
    assert_eq!(
        expected_device_type("802-11-wireless"),
        Some(device_type::WIFI)
    );
    assert_eq!(
        expected_device_type("802-3-ethernet"),
        Some(device_type::ETHERNET)
    );
    assert_eq!(
        expected_device_type("bluetooth"),
        Some(device_type::BLUETOOTH)
    );
    assert_eq!(expected_device_type("vpn"), None);
    assert_eq!(expected_device_type("wireguard"), None);
    assert_eq!(expected_device_type("unknown"), None);
}

#[test]
fn device_types_are_those_of_networkmanager() {
    assert_eq!(expected_device_type("802-3-ethernet"), Some(1));
    assert_eq!(expected_device_type("802-11-wireless"), Some(2));
    assert_eq!(expected_device_type("bluetooth"), Some(5));
    assert_eq!(expected_device_type("Bluetooth"), None);
    assert_eq!(expected_device_type(""), None);
}

#[test]
fn bluetooth_bdaddr_from_settings_reads_address() {
    let settings = sample_bluetooth_settings(Some(text("00:1A:7D:DA:71:13")));
    assert_eq!(
        bluetooth_bdaddr_from_settings(&settings).unwrap(),
        "00:1A:7D:DA:71:13"
    );
}

#[test]
fn bluetooth_bdaddr_from_settings_rejects_missing_and_wrong_type_values() {
    let no_section = sample_wifi_settings();
    assert_invalid_input(
        bluetooth_bdaddr_from_settings(&no_section).unwrap_err(),
        "bluetooth.bdaddr",
        "bluetooth settings are missing bdaddr",
    );

    let no_address = sample_bluetooth_settings(None);
    assert_invalid_input(
        bluetooth_bdaddr_from_settings(&no_address).unwrap_err(),
        "bluetooth.bdaddr",
        "bluetooth settings are missing bdaddr",
    );

    let wrong_type = sample_bluetooth_settings(Some(number(42)));
    assert_invalid_input(
        bluetooth_bdaddr_from_settings(&wrong_type).unwrap_err(),
        "bluetooth.bdaddr",
        "bluetooth settings are missing bdaddr",
    );
}

#[test]
fn explicit_specific_object_returns_none_when_omitted() {
    assert!(explicit_specific_object(None).unwrap().is_none());
}

#[test]
fn explicit_specific_object_parses_path() {
    let path = explicit_specific_object(Some("/org/freedesktop/NetworkManager/Devices/3"))
        .unwrap()
        .expect("explicit path");
    assert_eq!(path.as_str(), "/org/freedesktop/NetworkManager/Devices/3");
}

#[test]
fn explicit_specific_object_rejects_invalid_path() {
    let error = explicit_specific_object(Some("not/an/object/path")).unwrap_err();

    match error {
        ConnectionError::InvalidInput { field, reason } => {
            assert_eq!(field, "specific_object");
            assert!(
                !reason.is_empty(),
                "zvariant should explain the invalid path"
            );
        }
        other => panic!("expected InvalidInput, got {other:?}"),
    }
}

#[test]
fn explicit_specific_object_gives_the_reason() {
    assert_invalid_input(
        explicit_specific_object(Some("")).unwrap_err(),
        "specific_object",
        "Invalid object path",
    );
}
