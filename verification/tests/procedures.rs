use std::time::Duration;

use nmrs::activation::{add_and_activate_connection, AddAndActivate, NewConnection};
use nmrs::bluetooth::{connect_bluetooth, ConnectBluetooth};
use nmrs::bluetooth_disconnect::{disconnect_bluetooth_and_wait, DisconnectBluetooth};
use nmrs::bluez_info::{populate_bluez_info, BluezInfo};
use nmrs::bluez_lookup::{
    bluez_managed_objects, resolve_bluez_device_path, BluezListing, BluezResolve,
};
use nmrs::custom_connection::{
    add_connection, resolve_device_path, resolve_specific_object, AddConnection, DeviceResolve,
};
use nmrs::device_search::{find_bluetooth_device, find_first_device_by_type, DeviceSearch};
use nmrs::device_type;
use nmrs::dict::Dict;
use nmrs::error::ConnectionError;
use nmrs::models::{
    BluetoothIdentity, BluetoothNetworkRole, ConnectionOptions, ManagedObject, Sections,
    TimeoutConfig, Value,
};
use nmrs::object_path::ObjectPath;
use nmrs::protocol::{BluezOpenFailure, Progress, Reply, Request};
use zvariant::OwnedValue;

const ADDRESS: &str = "00:1A:7D:DA:71:13";
const BLUEZ_PATH: &str = "/org/bluez/hci1/dev_00_1A_7D_DA_71_13";

/// What every procedure can do.
trait Machine: Sized {
    type Output;

    fn waits_for(&self) -> Request<'_>;

    fn go_on(self, reply: Reply) -> Progress<Self, Self::Output>;
}

impl Machine for DeviceSearch {
    type Output = ObjectPath;

    fn waits_for(&self) -> Request<'_> {
        self.request()
    }

    fn go_on(self, reply: Reply) -> Progress<Self, ObjectPath> {
        self.resume(reply)
    }
}

impl Machine for BluezListing {
    type Output = Vec<ManagedObject>;

    fn waits_for(&self) -> Request<'_> {
        self.request()
    }

    fn go_on(self, reply: Reply) -> Progress<Self, Vec<ManagedObject>> {
        self.resume(reply)
    }
}

impl Machine for BluezResolve {
    type Output = ObjectPath;

    fn waits_for(&self) -> Request<'_> {
        self.request()
    }

    fn go_on(self, reply: Reply) -> Progress<Self, ObjectPath> {
        self.resume(reply)
    }
}

impl Machine for BluezInfo {
    type Output = (Option<String>, Option<String>);

    fn waits_for(&self) -> Request<'_> {
        self.request()
    }

    fn go_on(self, reply: Reply) -> Progress<Self, (Option<String>, Option<String>)> {
        self.resume(reply)
    }
}

impl Machine for ConnectBluetooth {
    type Output = ();

    fn waits_for(&self) -> Request<'_> {
        self.request()
    }

    fn go_on(self, reply: Reply) -> Progress<Self, ()> {
        self.resume(reply)
    }
}

impl Machine for DisconnectBluetooth {
    type Output = ();

    fn waits_for(&self) -> Request<'_> {
        self.request()
    }

    fn go_on(self, reply: Reply) -> Progress<Self, ()> {
        self.resume(reply)
    }
}

impl Machine for DeviceResolve {
    type Output = ObjectPath;

    fn waits_for(&self) -> Request<'_> {
        self.request()
    }

    fn go_on(self, reply: Reply) -> Progress<Self, ObjectPath> {
        self.resume(reply)
    }
}

impl Machine for AddConnection {
    type Output = ObjectPath;

    fn waits_for(&self) -> Request<'_> {
        self.request()
    }

    fn go_on(self, reply: Reply) -> Progress<Self, ObjectPath> {
        self.resume(reply)
    }
}

impl Machine for AddAndActivate {
    type Output = (ObjectPath, ObjectPath);

    fn waits_for(&self) -> Request<'_> {
        self.request()
    }

    fn go_on(self, reply: Reply) -> Progress<Self, (ObjectPath, ObjectPath)> {
        self.resume(reply)
    }
}

/// Runs a procedure on a script: it must make exactly these requests, each of which gets the
/// reply beside it.
fn play<M: Machine>(
    start: Progress<M, M::Output>,
    script: Vec<(Request<'_>, Reply)>,
) -> Result<M::Output, ConnectionError> {
    let mut progress = start;
    for (expected, reply) in script {
        progress = match progress {
            Progress::Pending(machine) => {
                assert_eq!(format!("{:?}", machine.waits_for()), format!("{expected:?}"));
                machine.go_on(reply)
            }
            Progress::Finished(_) => panic!("over before {expected:?}"),
        };
    }
    match progress {
        Progress::Pending(machine) => panic!("still waits for {:?}", machine.waits_for()),
        Progress::Finished(outcome) => outcome,
    }
}

/// Runs a procedure that starts with a request.
fn drive<M: Machine>(
    machine: M,
    script: Vec<(Request<'_>, Reply)>,
) -> Result<M::Output, ConnectionError> {
    play(Progress::Pending(machine), script)
}

/// The procedure, which must not be over.
fn waiting<M: Machine>(progress: Progress<M, M::Output>) -> M {
    match progress {
        Progress::Pending(machine) => machine,
        Progress::Finished(_) => panic!("over before the first request"),
    }
}

/// A procedure still waits for the same after a reply to another request.
fn assert_unmoved<M: Machine>(machine: M, stray: Reply) {
    let before = format!("{:?}", machine.waits_for());
    match machine.go_on(stray) {
        Progress::Pending(machine) => assert_eq!(format!("{:?}", machine.waits_for()), before),
        Progress::Finished(_) => panic!("a stray reply ended the procedure"),
    }
}

fn path(text: &str) -> ObjectPath {
    ObjectPath::parse(text.to_string()).expect("valid object path")
}

fn device(number: u32) -> ObjectPath {
    path(&format!("/org/freedesktop/NetworkManager/Devices/{number}"))
}

fn done() -> Reply {
    Reply::Done(Ok(()))
}

fn failed(message: &str) -> ConnectionError {
    ConnectionError::Other(message.to_string())
}

fn bus_error(message: &str) -> zbus::Error {
    zbus::Error::Failure(message.to_string())
}

fn check_address() -> Request<'static> {
    Request::CheckAddress {
        bdaddr: ADDRESS.to_string(),
    }
}

fn managed_device(path_text: &str, address: &str) -> ManagedObject {
    let mut properties: Dict<Value> = Dict::new();
    properties.insert("Address", Value::Str(address.to_string()));
    let mut interfaces: Sections = Dict::new();
    interfaces.insert("org.bluez.Device1", properties);
    ManagedObject {
        path: path(path_text),
        interfaces,
    }
}

fn sections(entries: Vec<(&str, &str, &str)>) -> Sections {
    let mut settings: Sections = Dict::new();
    for (section, key, value) in entries {
        let mut content: Dict<Value> = Dict::new();
        content.insert(key, Value::Str(value.to_string()));
        settings.insert(section, content);
    }
    settings
}

fn bluetooth_settings() -> Sections {
    sections(vec![
        ("connection", "type", "bluetooth"),
        ("bluetooth", "bdaddr", ADDRESS),
    ])
}

fn wifi_settings() -> Sections {
    let mut settings = sections(vec![("connection", "type", "802-11-wireless")]);
    let mut security: Dict<Value> = Dict::new();
    security.insert("pmf", Value::Other(OwnedValue::from(3u32)));
    settings.insert("802-11-wireless-security", security);
    settings
}

fn vpn_settings() -> Sections {
    sections(vec![("connection", "type", "vpn")])
}

fn timeouts() -> TimeoutConfig {
    TimeoutConfig {
        connection_timeout: Duration::from_secs(30),
        disconnect_timeout: Duration::from_secs(10),
    }
}

fn identity(adapter: Option<&str>) -> BluetoothIdentity {
    BluetoothIdentity {
        bdaddr: ADDRESS.to_string(),
        bt_device_type: BluetoothNetworkRole::PanU,
        adapter: adapter.map(str::to_string),
    }
}

fn type_of(number: u32) -> Request<'static> {
    Request::DeviceType {
        device: device(number),
    }
}

fn number(value: u32) -> Reply {
    Reply::Number(Ok(value))
}

// Devices of NetworkManager

#[test]
fn bluetooth_search_takes_the_first_bluetooth_device() {
    let found = drive(
        find_bluetooth_device(),
        vec![
            (
                Request::ListDevices,
                Reply::Paths(Ok(vec![device(1), device(2), device(3)])),
            ),
            (type_of(1), number(device_type::WIFI)),
            (type_of(2), number(device_type::BLUETOOTH)),
        ],
    );
    assert_eq!(found.unwrap().as_str(), device(2).as_str());
}

#[test]
fn bluetooth_search_without_a_match_reports_no_bluetooth_device() {
    let found = drive(
        find_bluetooth_device(),
        vec![
            (Request::ListDevices, Reply::Paths(Ok(vec![device(1)]))),
            (type_of(1), number(device_type::ETHERNET)),
        ],
    );
    assert!(matches!(found, Err(ConnectionError::NoBluetoothDevice)));

    let none = drive(
        find_bluetooth_device(),
        vec![(Request::ListDevices, Reply::Paths(Ok(Vec::new())))],
    );
    assert!(matches!(none, Err(ConnectionError::NoBluetoothDevice)));
}

#[test]
fn bluetooth_search_stops_at_the_first_error() {
    let listing = drive(
        find_bluetooth_device(),
        vec![(
            Request::ListDevices,
            Reply::Paths(Err(ConnectionError::from(bus_error("gone")))),
        )],
    );
    match listing {
        Err(ConnectionError::Dbus(source)) => assert_eq!(source.to_string(), "gone"),
        _ => panic!("expected the bus error"),
    }

    let asking = drive(
        find_bluetooth_device(),
        vec![
            (
                Request::ListDevices,
                Reply::Paths(Ok(vec![device(1), device(2)])),
            ),
            (type_of(1), Reply::Number(Err(failed("no type")))),
        ],
    );
    match asking {
        Err(ConnectionError::Other(message)) => assert_eq!(message, "no type"),
        _ => panic!("expected the error of the first device"),
    }
}

#[test]
fn search_by_type_opens_the_manager_first() {
    let found = drive(
        find_first_device_by_type(device_type::ETHERNET),
        vec![
            (Request::OpenManager, done()),
            (
                Request::ListDevices,
                Reply::Paths(Ok(vec![device(7), device(8)])),
            ),
            (type_of(7), number(device_type::BLUETOOTH)),
            (type_of(8), number(device_type::ETHERNET)),
        ],
    );
    assert_eq!(found.unwrap().as_str(), device(8).as_str());
}

#[test]
fn search_by_type_without_a_match_reports_not_found() {
    let found = drive(
        find_first_device_by_type(device_type::WIFI),
        vec![
            (Request::OpenManager, done()),
            (Request::ListDevices, Reply::Paths(Ok(vec![device(7)]))),
            (type_of(7), number(device_type::BLUETOOTH)),
        ],
    );
    assert!(matches!(found, Err(ConnectionError::NotFound)));
}

#[test]
fn search_by_type_fails_where_the_manager_cannot_be_opened() {
    let found = drive(
        find_first_device_by_type(device_type::WIFI),
        vec![(Request::OpenManager, Reply::Done(Err(failed("closed"))))],
    );
    assert!(matches!(found, Err(ConnectionError::Other(_))));
}

// Device objects of BlueZ

#[test]
fn listing_of_bluez_hands_the_objects_out() {
    let objects = drive(
        bluez_managed_objects(),
        vec![
            (Request::OpenBluez, Reply::BluezOpened(Ok(()))),
            (
                Request::ListManagedObjects,
                Reply::ManagedObjects(Ok(vec![managed_device(BLUEZ_PATH, ADDRESS)])),
            ),
        ],
    )
    .unwrap_or_else(|error| panic!("{error:?}"));
    assert_eq!(objects.len(), 1);
    assert_eq!(objects[0].path.as_str(), BLUEZ_PATH);
}

#[test]
fn listing_of_bluez_says_what_failed() {
    let message = |outcome: Result<Vec<ManagedObject>, ConnectionError>| match outcome {
        Err(ConnectionError::BluezUnavailable(message)) => message,
        _ => panic!("expected BluezUnavailable"),
    };

    assert_eq!(
        message(drive(
            bluez_managed_objects(),
            vec![(
                Request::OpenBluez,
                Reply::BluezOpened(Err(BluezOpenFailure::Address("bad name".to_string()))),
            )],
        )),
        "bad name"
    );
    assert_eq!(
        message(drive(
            bluez_managed_objects(),
            vec![(
                Request::OpenBluez,
                Reply::BluezOpened(Err(BluezOpenFailure::Connect("refused".to_string()))),
            )],
        )),
        "failed to connect to BlueZ: refused"
    );
    assert_eq!(
        message(drive(
            bluez_managed_objects(),
            vec![
                (Request::OpenBluez, Reply::BluezOpened(Ok(()))),
                (
                    Request::ListManagedObjects,
                    Reply::ManagedObjects(Err("timed out".to_string())),
                ),
            ],
        )),
        "failed to enumerate BlueZ objects: timed out"
    );
}

#[test]
fn known_adapter_needs_no_listing() {
    let resolved = drive(
        resolve_bluez_device_path(ADDRESS.to_string(), Some("hci1".to_string())),
        vec![(check_address(), done())],
    );
    assert_eq!(resolved.unwrap().as_str(), BLUEZ_PATH);
}

#[test]
fn malformed_adapter_is_reported() {
    let resolved = drive(
        resolve_bluez_device_path(ADDRESS.to_string(), Some("hci 1".to_string())),
        vec![(check_address(), done())],
    );
    match resolved {
        Err(ConnectionError::InvalidAddress(message)) => {
            assert_eq!(message, "Invalid BlueZ device path: Invalid object path");
        }
        _ => panic!("expected InvalidAddress"),
    }
}

#[test]
fn unknown_adapter_is_looked_up() {
    let resolved = drive(
        resolve_bluez_device_path("00:1a:7d:da:71:13".to_string(), None),
        vec![
            (
                Request::CheckAddress {
                    bdaddr: "00:1a:7d:da:71:13".to_string(),
                },
                done(),
            ),
            (Request::OpenBluez, Reply::BluezOpened(Ok(()))),
            (
                Request::ListManagedObjects,
                Reply::ManagedObjects(Ok(vec![
                    managed_device("/org/bluez/hci0/dev_AA_BB_CC_DD_EE_FF", "AA:BB:CC:DD:EE:FF"),
                    managed_device(BLUEZ_PATH, ADDRESS),
                ])),
            ),
        ],
    );
    assert_eq!(resolved.unwrap().as_str(), BLUEZ_PATH);
}

#[test]
fn absent_device_is_no_bluetooth_device() {
    let resolved = drive(
        resolve_bluez_device_path(ADDRESS.to_string(), None),
        vec![
            (check_address(), done()),
            (Request::OpenBluez, Reply::BluezOpened(Ok(()))),
            (
                Request::ListManagedObjects,
                Reply::ManagedObjects(Ok(Vec::new())),
            ),
        ],
    );
    assert!(matches!(resolved, Err(ConnectionError::NoBluetoothDevice)));
}

#[test]
fn refused_address_is_not_looked_up() {
    let resolved = drive(
        resolve_bluez_device_path(ADDRESS.to_string(), Some("hci1".to_string())),
        vec![(
            check_address(),
            Reply::Done(Err(ConnectionError::InvalidAddress("no".to_string()))),
        )],
    );
    match resolved {
        Err(ConnectionError::InvalidAddress(message)) => assert_eq!(message, "no"),
        _ => panic!("expected InvalidAddress"),
    }
}

// Names of a Bluetooth device

fn to_open_device() -> Vec<(Request<'static>, Reply)> {
    vec![(check_address(), done()), (check_address(), done())]
}

fn names_with(opened: Reply, rest: Vec<(Request<'static>, Reply)>) -> (Option<String>, Option<String>) {
    let mut script = to_open_device();
    script.push((
        Request::OpenBluezDevice {
            device: path(BLUEZ_PATH),
        },
        opened,
    ));
    script.extend(rest);
    drive(
        populate_bluez_info(ADDRESS.to_string(), Some("hci1".to_string())),
        script,
    )
    .unwrap()
}

fn read_name(reply: Reply) -> (Request<'static>, Reply) {
    (
        Request::BluezName {
            device: path(BLUEZ_PATH),
        },
        reply,
    )
}

fn read_alias(reply: Reply) -> (Request<'static>, Reply) {
    (
        Request::BluezAlias {
            device: path(BLUEZ_PATH),
        },
        reply,
    )
}

#[test]
fn names_are_read_from_the_device_object() {
    assert_eq!(
        names_with(
            Reply::DeviceOpened(Ok(true)),
            vec![
                read_name(Reply::Text(Ok("Phone".to_string()))),
                read_alias(Reply::Text(Ok("My phone".to_string()))),
            ],
        ),
        (Some("Phone".to_string()), Some("My phone".to_string()))
    );
}

#[test]
fn names_that_cannot_be_read_are_left_out() {
    assert_eq!(
        names_with(
            Reply::DeviceOpened(Ok(true)),
            vec![
                read_name(Reply::Text(Err(failed("no name")))),
                read_alias(Reply::Text(Ok("My phone".to_string()))),
            ],
        ),
        (None, Some("My phone".to_string()))
    );
    assert_eq!(
        names_with(Reply::DeviceOpened(Ok(false)), Vec::new()),
        (None, None)
    );
}

#[test]
fn names_are_missing_where_nothing_can_be_read() {
    assert_eq!(
        names_with(
            Reply::DeviceOpened(Ok(true)),
            vec![
                read_name(Reply::Text(Err(failed("no name")))),
                read_alias(Reply::Text(Err(failed("no alias")))),
            ],
        ),
        (None, None)
    );
}

#[test]
fn names_report_what_the_second_check_refuses() {
    let names = drive(
        populate_bluez_info(ADDRESS.to_string(), None),
        vec![
            (check_address(), done()),
            (
                check_address(),
                Reply::Done(Err(ConnectionError::InvalidAddress("no".to_string()))),
            ),
        ],
    );
    assert!(matches!(names, Err(ConnectionError::InvalidAddress(_))));
}

#[test]
fn names_of_an_unknown_device_are_no_error() {
    let names = drive(
        populate_bluez_info(ADDRESS.to_string(), None),
        vec![
            (check_address(), done()),
            (check_address(), done()),
            (
                Request::OpenBluez,
                Reply::BluezOpened(Err(BluezOpenFailure::Connect("refused".to_string()))),
            ),
        ],
    );
    assert_eq!(names.unwrap(), (None, None));

    let names = drive(
        populate_bluez_info(ADDRESS.to_string(), None),
        vec![
            (check_address(), done()),
            (check_address(), done()),
            (Request::OpenBluez, Reply::BluezOpened(Ok(()))),
            (
                Request::ListManagedObjects,
                Reply::ManagedObjects(Ok(Vec::new())),
            ),
        ],
    );
    assert_eq!(names.unwrap(), (None, None));
}

#[test]
fn names_are_not_asked_for_a_malformed_address() {
    let names = drive(
        populate_bluez_info("nonsense".to_string(), None),
        vec![(
            Request::CheckAddress {
                bdaddr: "nonsense".to_string(),
            },
            Reply::Done(Err(ConnectionError::InvalidAddress("nonsense".to_string()))),
        )],
    );
    assert!(matches!(names, Err(ConnectionError::InvalidAddress(_))));
}

#[test]
fn names_report_a_malformed_path() {
    let names = drive(
        populate_bluez_info(ADDRESS.to_string(), Some("a-b".to_string())),
        to_open_device(),
    );
    assert!(matches!(names, Err(ConnectionError::InvalidAddress(_))));

    let mut script = to_open_device();
    script.push((
        Request::OpenBluezDevice {
            device: path(BLUEZ_PATH),
        },
        Reply::DeviceOpened(Err(failed("path"))),
    ));
    let refused = drive(
        populate_bluez_info(ADDRESS.to_string(), Some("hci1".to_string())),
        script,
    );
    assert!(matches!(refused, Err(ConnectionError::Other(_))));
}

// Connecting a Bluetooth device

fn to_saved_profile(saved: Option<ObjectPath>) -> Vec<(Request<'static>, Reply)> {
    vec![
        (Request::OpenManager, done()),
        (Request::CurrentBluetooth, Reply::Current(None)),
        (Request::ListDevices, Reply::Paths(Ok(vec![device(4)]))),
        (type_of(4), number(device_type::BLUETOOTH)),
        (
            Request::SavedConnection {
                name: "Phone".to_string(),
            },
            Reply::Saved(Ok(saved)),
        ),
        (check_address(), done()),
    ]
}

#[test]
fn connected_device_is_left_alone() {
    let outcome = drive(
        connect_bluetooth("Phone".to_string(), identity(None), None),
        vec![
            (Request::OpenManager, done()),
            (
                Request::CurrentBluetooth,
                Reply::Current(Some(ADDRESS.to_string())),
            ),
        ],
    );
    assert!(outcome.is_ok());
}

#[test]
fn connected_device_is_told_apart_by_case() {
    let outcome = drive(
        connect_bluetooth("Phone".to_string(), identity(None), None),
        vec![
            (Request::OpenManager, done()),
            (
                Request::CurrentBluetooth,
                Reply::Current(Some("00:1a:7d:da:71:13".to_string())),
            ),
            (Request::ListDevices, Reply::Paths(Ok(Vec::new()))),
        ],
    );
    assert!(matches!(outcome, Err(ConnectionError::NoBluetoothDevice)));
}

#[test]
fn saved_profile_is_activated() {
    let mut script = to_saved_profile(Some(path("/profile/1")));
    script.push((
        Request::ActivateConnection {
            profile: path("/profile/1"),
            device: device(4),
            specific_object: path(BLUEZ_PATH),
        },
        Reply::Path(Ok(path("/active/9"))),
    ));
    script.push((
        Request::AwaitActivation {
            active: path("/active/9"),
            timeout: Some(Duration::from_secs(30)),
        },
        done(),
    ));
    let outcome = drive(
        connect_bluetooth("Phone".to_string(), identity(Some("hci1")), Some(timeouts())),
        script,
    );
    assert!(outcome.is_ok());
}

#[test]
fn new_profile_is_made_and_does_not_connect_by_itself() {
    let mut script = to_saved_profile(None);
    script.push((
        Request::AddAndActivateBluetooth {
            name: "Phone".to_string(),
            identity: identity(Some("hci1")),
            options: ConnectionOptions {
                autoconnect: false,
                autoconnect_priority: None,
                autoconnect_retries: None,
            },
            device: device(4),
            specific_object: path(BLUEZ_PATH),
        },
        Reply::Added(Ok((path("/profile/2"), path("/active/10")))),
    ));
    script.push((
        Request::AwaitActivation {
            active: path("/active/10"),
            timeout: None,
        },
        Reply::Done(Err(failed("timed out"))),
    ));
    let outcome = drive(
        connect_bluetooth("Phone".to_string(), identity(Some("hci1")), None),
        script,
    );
    match outcome {
        Err(ConnectionError::Other(message)) => assert_eq!(message, "timed out"),
        _ => panic!("expected the error of the wait"),
    }
}

#[test]
fn unresolved_device_is_not_connected() {
    let mut script = to_saved_profile(Some(path("/profile/1")));
    script.push((Request::OpenBluez, Reply::BluezOpened(Ok(()))));
    script.push((
        Request::ListManagedObjects,
        Reply::ManagedObjects(Ok(Vec::new())),
    ));
    let outcome = drive(
        connect_bluetooth("Phone".to_string(), identity(None), None),
        script,
    );
    assert!(matches!(outcome, Err(ConnectionError::NoBluetoothDevice)));
}

// Disconnecting a Bluetooth device

fn state_of(value: u32) -> (Request<'static>, Reply) {
    (Request::DeviceState { device: device(4) }, number(value))
}

#[test]
fn idle_device_is_left_alone() {
    for state in [20, 30] {
        let outcome = drive(
            disconnect_bluetooth_and_wait(device(4), Some(timeouts())),
            vec![state_of(state)],
        );
        assert!(outcome.is_ok());
    }
}

#[test]
fn active_device_is_disconnected_and_waited_for() {
    let outcome = drive(
        disconnect_bluetooth_and_wait(device(4), Some(timeouts())),
        vec![
            state_of(100),
            (Request::Disconnect { device: device(4) }, done()),
            (
                Request::AwaitDisconnect {
                    device: device(4),
                    timeout: Some(Duration::from_secs(10)),
                },
                done(),
            ),
        ],
    );
    assert!(outcome.is_ok());
}

#[test]
fn disconnection_reports_each_failure() {
    let state = drive(
        disconnect_bluetooth_and_wait(device(4), None),
        vec![(
            Request::DeviceState { device: device(4) },
            Reply::Number(Err(failed("state"))),
        )],
    );
    assert!(matches!(state, Err(ConnectionError::Other(_))));

    let call = drive(
        disconnect_bluetooth_and_wait(device(4), None),
        vec![
            state_of(100),
            (
                Request::Disconnect { device: device(4) },
                Reply::Done(Err(ConnectionError::from(bus_error("refused")))),
            ),
        ],
    );
    assert!(matches!(call, Err(ConnectionError::Dbus(_))));

    let wait = drive(
        disconnect_bluetooth_and_wait(device(4), None),
        vec![
            state_of(100),
            (Request::Disconnect { device: device(4) }, done()),
            (
                Request::AwaitDisconnect {
                    device: device(4),
                    timeout: None,
                },
                Reply::Done(Err(failed("timed out"))),
            ),
        ],
    );
    assert!(matches!(wait, Err(ConnectionError::Other(_))));
}

// Settings of the caller

#[test]
fn named_interface_goes_before_the_settings() {
    let settings: Sections = Dict::new();
    let resolved = play(
        resolve_device_path(&settings, Some("wlan0".to_string())),
        vec![(
            Request::DeviceByInterface {
                interface: "wlan0".to_string(),
            },
            Reply::Path(Ok(device(3))),
        )],
    );
    assert_eq!(resolved.unwrap().as_str(), device(3).as_str());
}

#[test]
fn device_is_chosen_by_connection_type() {
    let wifi = wifi_settings();
    let resolved = play(
        resolve_device_path(&wifi, None),
        vec![
            (Request::OpenManager, done()),
            (Request::ListDevices, Reply::Paths(Ok(vec![device(3)]))),
            (type_of(3), number(device_type::WIFI)),
        ],
    );
    assert_eq!(resolved.unwrap().as_str(), device(3).as_str());

    let vpn = vpn_settings();
    let resolved = play(resolve_device_path(&vpn, None), Vec::new());
    assert_eq!(resolved.unwrap().as_str(), "/");

    let empty: Sections = Dict::new();
    match play(resolve_device_path(&empty, None), Vec::new()) {
        Err(ConnectionError::InvalidInput { field, .. }) => assert_eq!(field, "connection.type"),
        _ => panic!("expected InvalidInput"),
    }
}

#[test]
fn named_object_goes_before_the_settings() {
    let settings: Sections = Dict::new();
    let resolved = play(resolve_specific_object(&settings, Some("/a/b")), Vec::new());
    assert_eq!(resolved.unwrap().as_str(), "/a/b");

    match play(resolve_specific_object(&settings, Some("a/b")), Vec::new()) {
        Err(ConnectionError::InvalidInput { field, reason }) => {
            assert_eq!(field, "specific_object");
            assert_eq!(reason, "Invalid object path");
        }
        _ => panic!("expected InvalidInput"),
    }
}

#[test]
fn bluetooth_settings_are_for_the_device_object() {
    let resolved = play(
        resolve_specific_object(&bluetooth_settings(), None),
        vec![
            (check_address(), done()),
            (Request::OpenBluez, Reply::BluezOpened(Ok(()))),
            (
                Request::ListManagedObjects,
                Reply::ManagedObjects(Ok(vec![managed_device(BLUEZ_PATH, ADDRESS)])),
            ),
        ],
    );
    assert_eq!(resolved.unwrap().as_str(), BLUEZ_PATH);

    let no_address = sections(vec![("connection", "type", "bluetooth")]);
    match play(resolve_specific_object(&no_address, None), Vec::new()) {
        Err(ConnectionError::InvalidInput { field, .. }) => assert_eq!(field, "bluetooth.bdaddr"),
        _ => panic!("expected InvalidInput"),
    }

    let wifi = wifi_settings();
    let resolved = play(resolve_specific_object(&wifi, None), Vec::new());
    assert_eq!(resolved.unwrap().as_str(), "/");
}

#[test]
fn saving_hands_the_settings_over_and_the_new_profile_out() {
    let settings = bluetooth_settings();
    let added = drive(
        add_connection(bluetooth_settings()),
        vec![
            (Request::OpenSettings, done()),
            (Request::AddConnection { settings: &settings }, Reply::Called(Ok(()))),
            (Request::DecodeAdded, Reply::Decoded(Ok(path("/profile/5")))),
        ],
    );
    assert_eq!(added.unwrap().as_str(), "/profile/5");
}

#[test]
fn saving_says_which_call_failed() {
    let settings = bluetooth_settings();
    let open = drive(
        add_connection(bluetooth_settings()),
        vec![(Request::OpenSettings, Reply::Done(Err(failed("closed"))))],
    );
    assert!(matches!(open, Err(ConnectionError::Other(_))));

    let call = drive(
        add_connection(bluetooth_settings()),
        vec![
            (Request::OpenSettings, done()),
            (Request::AddConnection { settings: &settings }, Reply::Called(Err(bus_error("denied")))),
        ],
    );
    match call {
        Err(ConnectionError::DbusOperation { context, source }) => {
            assert_eq!(context, "failed to add connection");
            assert_eq!(source.to_string(), "denied");
        }
        _ => panic!("expected DbusOperation"),
    }

    let decode = drive(
        add_connection(bluetooth_settings()),
        vec![
            (Request::OpenSettings, done()),
            (Request::AddConnection { settings: &settings }, Reply::Called(Ok(()))),
            (Request::DecodeAdded, Reply::Decoded(Err(bus_error("odd")))),
        ],
    );
    match decode {
        Err(ConnectionError::DbusOperation { context, source }) => {
            assert_eq!(context, "failed to decode AddConnection reply");
            assert_eq!(source.to_string(), "odd");
        }
        _ => panic!("expected DbusOperation"),
    }
}

fn new_connection(settings: Sections, specific_object: Option<&str>) -> NewConnection {
    NewConnection {
        settings,
        specific_object: specific_object.map(str::to_string),
        timeouts: timeouts(),
    }
}

#[test]
fn chosen_device_is_freed_before_activation() {
    let wifi = wifi_settings();
    let added = play(
        add_and_activate_connection(new_connection(wifi, Some("/ap/1")), Some("wlan0".to_string())),
        vec![
            (
                Request::DeviceByInterface {
                    interface: "wlan0".to_string(),
                },
                Reply::Path(Ok(device(3))),
            ),
            (
                Request::DisconnectWifi {
                    device: device(3),
                    timeouts: timeouts(),
                },
                done(),
            ),
            (Request::OpenManager, done()),
            (
                Request::AddAndActivateSettings {
                    settings: &wifi_settings(),
                    device: device(3),
                    specific_object: path("/ap/1"),
                },
                Reply::Added(Ok((path("/profile/6"), path("/active/6")))),
            ),
            (
                Request::AwaitActivation {
                    active: path("/active/6"),
                    timeout: Some(Duration::from_secs(30)),
                },
                done(),
            ),
        ],
    );
    let (profile, active) = added.unwrap();
    assert_eq!(profile.as_str(), "/profile/6");
    assert_eq!(active.as_str(), "/active/6");
}

#[test]
fn device_that_is_not_chosen_is_not_freed() {
    let vpn = vpn_settings();
    let added = play(
        add_and_activate_connection(new_connection(vpn, None), None),
        vec![
            (Request::OpenManager, done()),
            (
                Request::AddAndActivateSettings {
                    settings: &vpn_settings(),
                    device: path("/"),
                    specific_object: path("/"),
                },
                Reply::Added(Ok((path("/profile/7"), path("/active/7")))),
            ),
            (
                Request::AwaitActivation {
                    active: path("/active/7"),
                    timeout: Some(Duration::from_secs(30)),
                },
                done(),
            ),
        ],
    );
    assert_eq!(added.unwrap().0.as_str(), "/profile/7");
}

#[test]
fn failed_search_activates_nothing() {
    let missing = sections(vec![("connection", "type", "bluetooth")]);
    let added = play(
        add_and_activate_connection(new_connection(missing, None), Some("bnep0".to_string())),
        vec![(
            Request::DeviceByInterface {
                interface: "bnep0".to_string(),
            },
            Reply::Path(Ok(device(4))),
        )],
    );
    match added {
        Err(ConnectionError::InvalidInput { field, .. }) => assert_eq!(field, "bluetooth.bdaddr"),
        _ => panic!("expected InvalidInput"),
    }

    let vpn = vpn_settings();
    let added = play(
        add_and_activate_connection(new_connection(vpn, Some("nonsense")), None),
        Vec::new(),
    );
    assert!(matches!(added, Err(ConnectionError::InvalidInput { .. })));
}

#[test]
fn failed_wait_fails_the_activation() {
    let vpn = vpn_settings();
    let added = play(
        add_and_activate_connection(new_connection(vpn, None), None),
        vec![
            (Request::OpenManager, done()),
            (
                Request::AddAndActivateSettings {
                    settings: &vpn_settings(),
                    device: path("/"),
                    specific_object: path("/"),
                },
                Reply::Added(Ok((path("/profile/8"), path("/active/8")))),
            ),
            (
                Request::AwaitActivation {
                    active: path("/active/8"),
                    timeout: Some(Duration::from_secs(30)),
                },
                Reply::Done(Err(failed("timed out"))),
            ),
        ],
    );
    assert!(matches!(added, Err(ConnectionError::Other(_))));
}

#[test]
fn stray_replies_change_nothing() {
    assert_unmoved(find_bluetooth_device(), done());
    assert_unmoved(bluez_managed_objects(), done());
    assert_unmoved(
        resolve_bluez_device_path(ADDRESS.to_string(), None),
        number(1),
    );
    assert_unmoved(populate_bluez_info(ADDRESS.to_string(), None), number(1));
    assert_unmoved(
        connect_bluetooth("Phone".to_string(), identity(None), None),
        Reply::Current(Some(ADDRESS.to_string())),
    );
    assert_unmoved(disconnect_bluetooth_and_wait(device(4), None), done());
    assert_unmoved(add_connection(bluetooth_settings()), Reply::Called(Ok(())));

    let vpn = vpn_settings();
    assert_unmoved(
        waiting(resolve_device_path(&vpn, Some("tun0".to_string()))),
        done(),
    );
    assert_unmoved(
        waiting(add_and_activate_connection(new_connection(vpn, None), None)),
        number(1),
    );
}
