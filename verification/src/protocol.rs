//! How procedures talk to the services on the bus.
//!
//! A procedure makes no call itself. It says which call it waits for (a [`Request`]), is
//! handed what came back (a [`Reply`]), and goes on from there, until it has an outcome
//! ([`Progress`]).

use core::time::Duration;

use vstd::prelude::*;

use crate::error::{ConnectionError, ErrorView};
use crate::models::{
    BluetoothIdentity, BluetoothIdentityView, ConnectionOptions, ManagedObject, ManagedObjectView,
    Sections, SectionsView, TimeoutConfig,
};
use crate::object_path::ObjectPath;

verus! {

/// A call that a procedure waits for.
#[derive(Debug)]
pub enum Request<'a> {
    /// Open NetworkManager.
    OpenManager,
    /// List the devices of NetworkManager.
    ListDevices,
    /// Read the type of a device.
    DeviceType { device: ObjectPath },
    /// Read the state of a device.
    DeviceState { device: ObjectPath },
    /// Find the device with an interface name.
    DeviceByInterface { interface: String },
    /// Check that a text is a Bluetooth address.
    CheckAddress { bdaddr: String },
    /// Open the object manager of BlueZ.
    OpenBluez,
    /// List the objects that BlueZ manages.
    ListManagedObjects,
    /// Open a device object of BlueZ.
    OpenBluezDevice { device: ObjectPath },
    /// Read the name of a device object of BlueZ.
    BluezName { device: ObjectPath },
    /// Read the alias of a device object of BlueZ.
    BluezAlias { device: ObjectPath },
    /// Find the address of the Bluetooth device that is connected.
    CurrentBluetooth,
    /// Find the saved profile with a name.
    SavedConnection { name: String },
    /// Activate a saved profile.
    ActivateConnection { profile: ObjectPath, device: ObjectPath, specific_object: ObjectPath },
    /// Save a new Bluetooth profile and activate it.
    AddAndActivateBluetooth {
        name: String,
        identity: BluetoothIdentity,
        options: ConnectionOptions,
        device: ObjectPath,
        specific_object: ObjectPath,
    },
    /// Save settings as a new profile and activate it.
    AddAndActivateSettings {
        settings: &'a Sections,
        device: ObjectPath,
        specific_object: ObjectPath,
    },
    /// Wait for an active connection to come up.
    AwaitActivation { active: ObjectPath, timeout: Option<Duration> },
    /// Disconnect a device.
    Disconnect { device: ObjectPath },
    /// Wait for a device to be disconnected.
    AwaitDisconnect { device: ObjectPath, timeout: Option<Duration> },
    /// Disconnect a device and wait for it, as is done before it gets a new connection.
    DisconnectWifi { device: ObjectPath, timeouts: TimeoutConfig },
    /// Open the settings service.
    OpenSettings,
    /// Hand settings to the settings service, which saves them as a new profile.
    AddConnection { settings: &'a Sections },
    /// Read the reply of the settings service.
    DecodeAdded,
}

/// The mathematical value of a [`Request`].
pub enum RequestView {
    OpenManager,
    ListDevices,
    DeviceType { device: Seq<char> },
    DeviceState { device: Seq<char> },
    DeviceByInterface { interface: Seq<char> },
    CheckAddress { bdaddr: Seq<char> },
    OpenBluez,
    ListManagedObjects,
    OpenBluezDevice { device: Seq<char> },
    BluezName { device: Seq<char> },
    BluezAlias { device: Seq<char> },
    CurrentBluetooth,
    SavedConnection { name: Seq<char> },
    ActivateConnection { profile: Seq<char>, device: Seq<char>, specific_object: Seq<char> },
    AddAndActivateBluetooth {
        name: Seq<char>,
        identity: BluetoothIdentityView,
        options: ConnectionOptions,
        device: Seq<char>,
        specific_object: Seq<char>,
    },
    AddAndActivateSettings {
        settings: SectionsView,
        device: Seq<char>,
        specific_object: Seq<char>,
    },
    AwaitActivation { active: Seq<char>, timeout: Option<Duration> },
    Disconnect { device: Seq<char> },
    AwaitDisconnect { device: Seq<char>, timeout: Option<Duration> },
    DisconnectWifi { device: Seq<char>, timeouts: TimeoutConfig },
    OpenSettings,
    AddConnection { settings: SectionsView },
    DecodeAdded,
}

impl<'a> DeepView for Request<'a> {
    type V = RequestView;

    open spec fn deep_view(&self) -> RequestView {
        match *self {
            Request::OpenManager => RequestView::OpenManager,
            Request::ListDevices => RequestView::ListDevices,
            Request::DeviceType { device } => RequestView::DeviceType { device: device@ },
            Request::DeviceState { device } => RequestView::DeviceState { device: device@ },
            Request::DeviceByInterface { interface } => RequestView::DeviceByInterface {
                interface: interface@,
            },
            Request::CheckAddress { bdaddr } => RequestView::CheckAddress { bdaddr: bdaddr@ },
            Request::OpenBluez => RequestView::OpenBluez,
            Request::ListManagedObjects => RequestView::ListManagedObjects,
            Request::OpenBluezDevice { device } => RequestView::OpenBluezDevice { device: device@ },
            Request::BluezName { device } => RequestView::BluezName { device: device@ },
            Request::BluezAlias { device } => RequestView::BluezAlias { device: device@ },
            Request::CurrentBluetooth => RequestView::CurrentBluetooth,
            Request::SavedConnection { name } => RequestView::SavedConnection { name: name@ },
            Request::ActivateConnection {
                profile,
                device,
                specific_object,
            } => RequestView::ActivateConnection {
                profile: profile@,
                device: device@,
                specific_object: specific_object@,
            },
            Request::AddAndActivateBluetooth {
                name,
                identity,
                options,
                device,
                specific_object,
            } => RequestView::AddAndActivateBluetooth {
                name: name@,
                identity: identity.deep_view(),
                options,
                device: device@,
                specific_object: specific_object@,
            },
            Request::AddAndActivateSettings {
                settings,
                device,
                specific_object,
            } => RequestView::AddAndActivateSettings {
                settings: settings.deep_view(),
                device: device@,
                specific_object: specific_object@,
            },
            Request::AwaitActivation { active, timeout } => RequestView::AwaitActivation {
                active: active@,
                timeout,
            },
            Request::Disconnect { device } => RequestView::Disconnect { device: device@ },
            Request::AwaitDisconnect { device, timeout } => RequestView::AwaitDisconnect {
                device: device@,
                timeout,
            },
            Request::DisconnectWifi { device, timeouts } => RequestView::DisconnectWifi {
                device: device@,
                timeouts,
            },
            Request::OpenSettings => RequestView::OpenSettings,
            Request::AddConnection { settings } => RequestView::AddConnection {
                settings: settings.deep_view(),
            },
            Request::DecodeAdded => RequestView::DecodeAdded,
        }
    }
}

/// Why the object manager of BlueZ could not be opened, each with the error's message.
#[derive(Debug)]
pub enum BluezOpenFailure {
    /// The address of the service is not accepted.
    Address(String),
    /// There is no connection to the service.
    Connect(String),
}

/// The mathematical value of a [`BluezOpenFailure`].
pub enum BluezOpenFailureView {
    Address(Seq<char>),
    Connect(Seq<char>),
}

impl DeepView for BluezOpenFailure {
    type V = BluezOpenFailureView;

    open spec fn deep_view(&self) -> BluezOpenFailureView {
        match *self {
            BluezOpenFailure::Address(message) => BluezOpenFailureView::Address(message@),
            BluezOpenFailure::Connect(message) => BluezOpenFailureView::Connect(message@),
        }
    }
}

/// What came back from a call.
pub enum Reply {
    /// A call without a result.
    Done(Result<(), ConnectionError>),
    /// An object path.
    Path(Result<ObjectPath, ConnectionError>),
    /// Object paths.
    Paths(Result<Vec<ObjectPath>, ConnectionError>),
    /// The paths of a new profile and of its active connection.
    Added(Result<(ObjectPath, ObjectPath), ConnectionError>),
    /// The path of a saved profile, if there is one.
    Saved(Result<Option<ObjectPath>, ConnectionError>),
    /// A number.
    Number(Result<u32, ConnectionError>),
    /// A text.
    Text(Result<String, ConnectionError>),
    /// The address of the Bluetooth device that is connected, if one is.
    Current(Option<String>),
    /// BlueZ was opened.
    BluezOpened(Result<(), BluezOpenFailure>),
    /// The objects of BlueZ, or the message of the error.
    ManagedObjects(Result<Vec<ManagedObject>, String>),
    /// Whether the device object could be opened; an error where its path was not accepted.
    DeviceOpened(Result<bool, ConnectionError>),
    /// A call to the settings service.
    Called(Result<(), zbus::Error>),
    /// The path of a new profile, as the settings service gave it.
    Decoded(Result<ObjectPath, zbus::Error>),
}

/// The mathematical value of a [`Reply`].
pub enum ReplyView {
    Done(Result<(), ErrorView>),
    Path(Result<Seq<char>, ErrorView>),
    Paths(Result<Seq<Seq<char>>, ErrorView>),
    Added(Result<(Seq<char>, Seq<char>), ErrorView>),
    Saved(Result<Option<Seq<char>>, ErrorView>),
    Number(Result<u32, ErrorView>),
    Text(Result<Seq<char>, ErrorView>),
    Current(Option<Seq<char>>),
    BluezOpened(Result<(), BluezOpenFailureView>),
    ManagedObjects(Result<Seq<ManagedObjectView>, Seq<char>>),
    DeviceOpened(Result<bool, ErrorView>),
    Called(Result<(), zbus::Error>),
    Decoded(Result<Seq<char>, zbus::Error>),
}

/// The mathematical value of a result, from those of its value and its error.
pub open spec fn result_view<T: DeepView, E: DeepView>(result: Result<T, E>) -> Result<T::V, E::V> {
    match result {
        Ok(value) => Ok(value.deep_view()),
        Err(error) => Err(error.deep_view()),
    }
}

impl DeepView for Reply {
    type V = ReplyView;

    open spec fn deep_view(&self) -> ReplyView {
        match *self {
            Reply::Done(result) => ReplyView::Done(result_view(result)),
            Reply::Path(result) => ReplyView::Path(result_view(result)),
            Reply::Paths(result) => ReplyView::Paths(result_view(result)),
            Reply::Added(result) => ReplyView::Added(result_view(result)),
            Reply::Saved(result) => ReplyView::Saved(result_view(result)),
            Reply::Number(result) => ReplyView::Number(result_view(result)),
            Reply::Text(result) => ReplyView::Text(result_view(result)),
            Reply::Current(address) => ReplyView::Current(address.deep_view()),
            Reply::BluezOpened(result) => ReplyView::BluezOpened(result_view(result)),
            Reply::ManagedObjects(result) => ReplyView::ManagedObjects(result_view(result)),
            Reply::DeviceOpened(result) => ReplyView::DeviceOpened(result_view(result)),
            Reply::Called(result) => ReplyView::Called(result),
            Reply::Decoded(result) => ReplyView::Decoded(
                match result {
                    Ok(path) => Ok(path@),
                    Err(error) => Err(error),
                },
            ),
        }
    }
}

impl RequestView {
    /// Whether a reply is of the kind that the request asks for.
    pub open spec fn answered_by(self, reply: ReplyView) -> bool {
        match self {
            RequestView::OpenManager => reply is Done,
            RequestView::ListDevices => reply is Paths,
            RequestView::DeviceType { .. } => reply is Number,
            RequestView::DeviceState { .. } => reply is Number,
            RequestView::DeviceByInterface { .. } => reply is Path,
            RequestView::CheckAddress { .. } => reply is Done,
            RequestView::OpenBluez => reply is BluezOpened,
            RequestView::ListManagedObjects => reply is ManagedObjects,
            RequestView::OpenBluezDevice { .. } => reply is DeviceOpened,
            RequestView::BluezName { .. } => reply is Text,
            RequestView::BluezAlias { .. } => reply is Text,
            RequestView::CurrentBluetooth => reply is Current,
            RequestView::SavedConnection { .. } => reply is Saved,
            RequestView::ActivateConnection { .. } => reply is Path,
            RequestView::AddAndActivateBluetooth { .. } => reply is Added,
            RequestView::AddAndActivateSettings { .. } => reply is Added,
            RequestView::AwaitActivation { .. } => reply is Done,
            RequestView::Disconnect { .. } => reply is Done,
            RequestView::AwaitDisconnect { .. } => reply is Done,
            RequestView::DisconnectWifi { .. } => reply is Done,
            RequestView::OpenSettings => reply is Done,
            RequestView::AddConnection { .. } => reply is Called,
            RequestView::DecodeAdded => reply is Decoded,
        }
    }
}

/// How far a procedure has come.
pub enum Progress<M, T> {
    /// It waits for the reply to a request.
    Pending(M),
    /// It is over.
    Finished(Result<T, ConnectionError>),
}

/// The mathematical value of a [`Progress`].
pub enum ProgressView<M, T> {
    Pending(M),
    Finished(Result<T, ErrorView>),
}

impl<M: DeepView, T: DeepView> DeepView for Progress<M, T> {
    type V = ProgressView<M::V, T::V>;

    open spec fn deep_view(&self) -> ProgressView<M::V, T::V> {
        match *self {
            Progress::Pending(state) => ProgressView::Pending(state.deep_view()),
            Progress::Finished(outcome) => ProgressView::Finished(result_view(outcome)),
        }
    }
}

} // verus!
