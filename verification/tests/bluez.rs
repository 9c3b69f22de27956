use nmrs::bluez::{bluez_device_path_for_adapter, find_bluez_device_path};
use nmrs::dict::Dict;
use nmrs::error::ConnectionError;
use nmrs::models::{ManagedObject, Sections, Value};
use nmrs::object_path::ObjectPath;
use nmrs::text::eq_ignore_ascii_case;
use zvariant::OwnedValue;

fn path(text: &str) -> ObjectPath {
    ObjectPath::parse(text.to_string()).expect("valid object path")
}

fn number(value: u32) -> Value {
    Value::Other(OwnedValue::from(value))
}

fn object_with(path_text: &str, interface: &str, property: &str, value: Value) -> ManagedObject {
    let mut properties: Dict<Value> = Dict::new();
    properties.insert(property, value);
    let mut interfaces: Sections = Dict::new();
    interfaces.insert(interface, properties);
    ManagedObject {
        path: path(path_text),
        interfaces,
    }
}

fn managed_device(path_text: &str, address: &str) -> ManagedObject {
    object_with(
        path_text,
        "org.bluez.Device1",
        "Address",
        Value::Str(address.to_string()),
    )
}

#[test]
fn formats_path_for_explicit_adapter() {
    let path = bluez_device_path_for_adapter("00:1A:7D:DA:71:13", "hci1").expect("valid BlueZ path");

    assert_eq!(path.as_str(), "/org/bluez/hci1/dev_00_1A_7D_DA_71_13");
}

#[test]
fn finds_device_path_on_matching_adapter_case_insensitively() {
    let objects = vec![
        managed_device("/org/bluez/hci0/dev_AA_BB_CC_DD_EE_FF", "AA:BB:CC:DD:EE:FF"),
        managed_device("/org/bluez/hci1/dev_00_1A_7D_DA_71_13", "00:1A:7D:DA:71:13"),
    ];

    let path = find_bluez_device_path(&objects, "00:1a:7d:da:71:13").expect("matching BlueZ device");

    assert_eq!(path.as_str(), "/org/bluez/hci1/dev_00_1A_7D_DA_71_13");
}

#[test]
fn returns_none_when_bluez_device_is_absent() {
    let objects = vec![managed_device(
        "/org/bluez/hci0/dev_AA_BB_CC_DD_EE_FF",
        "AA:BB:CC:DD:EE:FF",
    )];

    assert!(find_bluez_device_path(&objects, "00:1A:7D:DA:71:13").is_none());
}

#[test]
fn order_of_objects_does_not_matter() {
    let mut objects = vec![
        managed_device("/org/bluez/hci0/dev_AA_BB_CC_DD_EE_FF", "AA:BB:CC:DD:EE:FF"),
        managed_device("/org/bluez/hci1/dev_00_1A_7D_DA_71_13", "00:1A:7D:DA:71:13"),
    ];
    objects.reverse();

    let path = find_bluez_device_path(&objects, "aa:bb:cc:dd:ee:ff").expect("matching BlueZ device");

    assert_eq!(path.as_str(), "/org/bluez/hci0/dev_AA_BB_CC_DD_EE_FF");
}

#[test]
fn first_of_two_devices_with_the_address_is_found() {
    let objects = vec![
        managed_device("/org/bluez/hci0/dev_1", "AA:BB:CC:DD:EE:FF"),
        managed_device("/org/bluez/hci1/dev_1", "aa:bb:cc:dd:ee:ff"),
    ];

    let path = find_bluez_device_path(&objects, "AA:BB:CC:DD:EE:FF").expect("matching BlueZ device");

    assert_eq!(path.as_str(), "/org/bluez/hci0/dev_1");
}

#[test]
fn objects_that_are_no_devices_are_passed_over() {
    let address = "AA:BB:CC:DD:EE:FF";
    let objects = vec![
        object_with(
            "/org/bluez/hci0",
            "org.bluez.Adapter1",
            "Address",
            Value::Str(address.to_string()),
        ),
        object_with(
            "/org/bluez/hci0/dev_1",
            "org.bluez.Device1",
            "Name",
            Value::Str(address.to_string()),
        ),
        object_with("/org/bluez/hci0/dev_2", "org.bluez.Device1", "Address", number(1)),
        object_with(
            "/org/bluez/hci0/dev_3",
            "org.bluez.Device1",
            "Address",
            Value::Other(OwnedValue::from(true)),
        ),
    ];

    assert!(find_bluez_device_path(&objects, address).is_none());
    assert!(find_bluez_device_path(&Vec::new(), address).is_none());
}

#[test]
fn adapter_that_makes_no_path_is_refused() {
    for adapter in ["", "hci 1", "hci1/", "/hci1", "hci\u{e9}"] {
        match bluez_device_path_for_adapter("00:1A:7D:DA:71:13", adapter) {
            Err(ConnectionError::InvalidAddress(message)) => assert_eq!(
                message,
                "Invalid BlueZ device path: Invalid object path"
            ),
            other => panic!("expected InvalidAddress, got {other:?}"),
        }
    }
    assert!(bluez_device_path_for_adapter("00-1A", "hci1").is_err());
}

#[test]
fn address_of_path_characters_and_colons_always_makes_a_path() {
    for address in ["", ":", "::", "a_b:0", "AA:BB:CC:DD:EE:FF"] {
        assert!(bluez_device_path_for_adapter(address, "hci0").is_ok());
    }
}

#[test]
fn object_paths_are_told_from_other_texts() {
    for text in ["/", "/Path/t0/0bject", "/a/b_c/D"] {
        assert_eq!(path(text).as_str(), text);
    }
    for text in ["", ".", "a", "//", "/a/", "/double//slashes", "/ha.d", "/\u{e9}"] {
        assert_eq!(
            ObjectPath::parse(text.to_string()).unwrap_err(),
            "Invalid object path"
        );
    }
    assert_eq!(ObjectPath::default().as_str(), "/");
    assert_eq!(path("/a").clone().as_str(), "/a");
}

#[test]
fn only_ascii_letters_lose_their_case() {
    assert!(eq_ignore_ascii_case("aBc09:_z", "AbC09:_Z"));
    assert!(!eq_ignore_ascii_case("a", "ab"));
    assert!(!eq_ignore_ascii_case("\u{e9}", "\u{c9}"));
    assert!(!eq_ignore_ascii_case("@", "`"));
    assert!(!eq_ignore_ascii_case("[", "{"));
}

#[test]
fn dictionary_keeps_the_last_value_of_a_key() {
    let mut dict: Dict<Value> = Dict::new();
    assert!(dict.get("a").is_none());
    dict.insert("a", number(1));
    dict.insert("b", number(2));
    dict.insert("a", Value::Str("x".to_string()));

    assert_eq!(dict.get("a").unwrap().as_str(), Some("x"));
    assert!(matches!(dict.get("b"), Some(Value::Other(value)) if *value == OwnedValue::from(2u32)));
    assert!(dict.get("c").is_none());

    let keys: Vec<&str> = dict.entries().iter().map(|(key, _)| key.as_str()).collect();
    assert_eq!(keys, ["a", "b"]);
}
