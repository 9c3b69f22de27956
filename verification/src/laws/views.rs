//! The mathematical values leave nothing out and change nothing.

use core::time::Duration;

use vstd::prelude::*;

use crate::activation::{NewConnection, NewConnectionView};
use crate::error::{ConnectionError, ErrorView};
use crate::models::{
    BluetoothIdentity, BluetoothIdentityView, BluetoothNetworkRole, ConnectionOptions,
    ManagedObject, ManagedObjectView, Sections, TimeoutConfig, Value, ValueView,
};
use crate::object_path::ObjectPath;
use crate::protocol::{
    result_view, BluezOpenFailure, BluezOpenFailureView, Progress, ProgressView, Reply, ReplyView,
    Request, RequestView,
};

verus! {

/// A request about a device is, in its mathematical value, the same request about that device.
pub proof fn law_device_requests_are_shown(device: ObjectPath, timeout: Option<Duration>)
    ensures
        (Request::DeviceType { device }).deep_view() == (RequestView::DeviceType {
            device: device@,
        }),
        (Request::DeviceState { device }).deep_view() == (RequestView::DeviceState {
            device: device@,
        }),
        (Request::OpenBluezDevice { device }).deep_view() == (RequestView::OpenBluezDevice {
            device: device@,
        }),
        (Request::BluezName { device }).deep_view() == (RequestView::BluezName {
            device: device@,
        }),
        (Request::BluezAlias { device }).deep_view() == (RequestView::BluezAlias {
            device: device@,
        }),
        (Request::Disconnect { device }).deep_view() == (RequestView::Disconnect {
            device: device@,
        }),
        (Request::AwaitDisconnect { device, timeout }).deep_view()
            == (RequestView::AwaitDisconnect { device: device@, timeout }),
        (Request::AwaitActivation { active: device, timeout }).deep_view()
            == (RequestView::AwaitActivation { active: device@, timeout }),
{
}

/// A request without anything it is about, or about a text, is shown as it is.
pub proof fn law_plain_requests_are_shown(text: String)
    ensures
        Request::OpenManager.deep_view() == RequestView::OpenManager,
        Request::ListDevices.deep_view() == RequestView::ListDevices,
        Request::OpenBluez.deep_view() == RequestView::OpenBluez,
        Request::ListManagedObjects.deep_view() == RequestView::ListManagedObjects,
        Request::CurrentBluetooth.deep_view() == RequestView::CurrentBluetooth,
        Request::OpenSettings.deep_view() == RequestView::OpenSettings,
        Request::DecodeAdded.deep_view() == RequestView::DecodeAdded,
        (Request::DeviceByInterface { interface: text }).deep_view()
            == (RequestView::DeviceByInterface { interface: text@ }),
        (Request::CheckAddress { bdaddr: text }).deep_view() == (RequestView::CheckAddress {
            bdaddr: text@,
        }),
        (Request::SavedConnection { name: text }).deep_view() == (RequestView::SavedConnection {
            name: text@,
        }),
{
}

/// A request that changes a connection is shown with everything it carries.
pub proof fn law_changing_requests_are_shown(
    name: String,
    identity: BluetoothIdentity,
    options: ConnectionOptions,
    profile: ObjectPath,
    device: ObjectPath,
    specific_object: ObjectPath,
    timeouts: TimeoutConfig,
    settings: &Sections,
)
    ensures
        (Request::ActivateConnection { profile, device, specific_object }).deep_view()
            == (RequestView::ActivateConnection {
            profile: profile@,
            device: device@,
            specific_object: specific_object@,
        }),
        (Request::AddAndActivateBluetooth {
            name,
            identity,
            options,
            device,
            specific_object,
        }).deep_view() == (RequestView::AddAndActivateBluetooth {
            name: name@,
            identity: identity.deep_view(),
            options,
            device: device@,
            specific_object: specific_object@,
        }),
        (Request::AddAndActivateSettings { settings, device, specific_object }).deep_view()
            == (RequestView::AddAndActivateSettings {
            settings: settings.deep_view(),
            device: device@,
            specific_object: specific_object@,
        }),
        (Request::DisconnectWifi { device, timeouts }).deep_view() == (
        RequestView::DisconnectWifi { device: device@, timeouts }),
        (Request::AddConnection { settings }).deep_view() == (RequestView::AddConnection {
            settings: settings.deep_view(),
        }),
{
}

/// A reply that succeeded is shown with all that came back.
pub proof fn law_successful_replies_are_shown(
    path: ObjectPath,
    paths: Vec<ObjectPath>,
    other: ObjectPath,
    saved: Option<ObjectPath>,
    number: u32,
    text: String,
    current: Option<String>,
    objects: Vec<ManagedObject>,
    opened: bool,
)
    ensures
        Reply::Done(Ok(())).deep_view() is Done && Reply::Done(Ok(())).deep_view()->Done_0 is Ok,
        Reply::Path(Ok(path)).deep_view() == ReplyView::Path(Ok(path@)),
        Reply::Paths(Ok(paths)).deep_view() == ReplyView::Paths(Ok(paths.deep_view())),
        paths.deep_view().len() == paths@.len(),
        forall|i: int|
            0 <= i < paths@.len() ==> (#[trigger] paths.deep_view()[i]) == paths@[i]@,
        Reply::Added(Ok((path, other))).deep_view() == ReplyView::Added(Ok((path@, other@))),
        Reply::Saved(Ok(saved)).deep_view() == ReplyView::Saved(
            Ok(
                match saved {
                    Some(profile) => Some(profile@),
                    None => None,
                },
            ),
        ),
        Reply::Number(Ok(number)).deep_view() == ReplyView::Number(Ok(number)),
        Reply::Text(Ok(text)).deep_view() == ReplyView::Text(Ok(text@)),
        Reply::Current(current).deep_view() == ReplyView::Current(
            match current {
                Some(address) => Some(address@),
                None => None,
            },
        ),
        Reply::BluezOpened(Ok(())).deep_view() is BluezOpened && Reply::BluezOpened(
            Ok(()),
        ).deep_view()->BluezOpened_0 is Ok,
        Reply::ManagedObjects(Ok(objects)).deep_view() == ReplyView::ManagedObjects(
            Ok(objects.deep_view()),
        ),
        objects.deep_view().len() == objects@.len(),
        forall|i: int|
            0 <= i < objects@.len() ==> (#[trigger] objects.deep_view()[i])
                == objects@[i].deep_view(),
        Reply::DeviceOpened(Ok(opened)).deep_view() == ReplyView::DeviceOpened(Ok(opened)),
        Reply::Called(Ok(())).deep_view() is Called && Reply::Called(Ok(())).deep_view()->Called_0
            is Ok,
        Reply::Decoded(Ok(path)).deep_view() == ReplyView::Decoded(Ok(path@)),
{
}

/// A reply that failed is shown with its error.
pub proof fn law_failed_replies_are_shown(
    error: ConnectionError,
    message: String,
    failure: BluezOpenFailure,
    source: zbus::Error,
)
    ensures
        Reply::Done(Err(error)).deep_view() == ReplyView::Done(Err(error.deep_view())),
        Reply::Path(Err(error)).deep_view() == ReplyView::Path(Err(error.deep_view())),
        Reply::Paths(Err(error)).deep_view() == ReplyView::Paths(Err(error.deep_view())),
        Reply::Added(Err(error)).deep_view() == ReplyView::Added(Err(error.deep_view())),
        Reply::Saved(Err(error)).deep_view() == ReplyView::Saved(Err(error.deep_view())),
        Reply::Number(Err(error)).deep_view() == ReplyView::Number(Err(error.deep_view())),
        Reply::Text(Err(error)).deep_view() == ReplyView::Text(Err(error.deep_view())),
        Reply::DeviceOpened(Err(error)).deep_view() == ReplyView::DeviceOpened(
            Err(error.deep_view()),
        ),
        Reply::BluezOpened(Err(failure)).deep_view() == ReplyView::BluezOpened(
            Err(failure.deep_view()),
        ),
        Reply::ManagedObjects(Err(message)).deep_view() == ReplyView::ManagedObjects(
            Err(message@),
        ),
        Reply::Called(Err(source)).deep_view() == ReplyView::Called(Err(source)),
        Reply::Decoded(Err(source)).deep_view() == ReplyView::Decoded(Err(source)),
        BluezOpenFailure::Address(message).deep_view() == BluezOpenFailureView::Address(message@),
        BluezOpenFailure::Connect(message).deep_view() == BluezOpenFailureView::Connect(message@),
{
}

/// An error is shown with its kind and all that it says.
pub proof fn law_errors_are_shown(message: String, reason: String, source: zbus::Error)
    ensures
        ConnectionError::InvalidAddress(message).deep_view() == ErrorView::InvalidAddress(message@),
        (ConnectionError::InvalidInput { field: message, reason }).deep_view() == (
        ErrorView::InvalidInput { field: message@, reason: reason@ }),
        ConnectionError::NoBluetoothDevice.deep_view() == ErrorView::NoBluetoothDevice,
        ConnectionError::BluezUnavailable(message).deep_view() == ErrorView::BluezUnavailable(
            message@,
        ),
        ConnectionError::NotFound.deep_view() == ErrorView::NotFound,
        ConnectionError::Dbus(source).deep_view() == ErrorView::Dbus(source),
        (ConnectionError::DbusOperation { context: message, source }).deep_view() == (
        ErrorView::DbusOperation { context: message@, source }),
        ConnectionError::Other(message).deep_view() == ErrorView::Other(message@),
{
}

/// A procedure that is over is shown with its outcome, and one that is not with its state.
pub proof fn law_progress_is_shown<M: DeepView, T: DeepView>(
    state: M,
    value: T,
    error: ConnectionError,
)
    ensures
        Progress::<M, T>::Pending(state).deep_view() == ProgressView::<M::V, T::V>::Pending(
            state.deep_view(),
        ),
        Progress::<M, T>::Finished(Ok(value)).deep_view() == ProgressView::<M::V, T::V>::Finished(
            Ok(value.deep_view()),
        ),
        Progress::<M, T>::Finished(Err(error)).deep_view() == ProgressView::<
            M::V,
            T::V,
        >::Finished(Err(error.deep_view())),
        result_view(Ok::<T, ConnectionError>(value)) == Ok::<T::V, ErrorView>(value.deep_view()),
        result_view(Err::<T, ConnectionError>(error)) == Err::<T::V, ErrorView>(error.deep_view()),
{
}

/// The data of the library is shown field by field.
pub proof fn law_data_is_shown(
    text: String,
    other: zvariant::OwnedValue,
    path: ObjectPath,
    sections: Sections,
    role: BluetoothNetworkRole,
    optional: Option<String>,
    timeouts: TimeoutConfig,
)
    ensures
        Value::Str(text).deep_view() == ValueView::Str(text@),
        Value::Other(other).deep_view() == ValueView::Other(other),
        path.deep_view() == path@,
        (ManagedObject { path, interfaces: sections }).deep_view() == (ManagedObjectView {
            path: path@,
            interfaces: sections.deep_view(),
        }),
        (BluetoothIdentity { bdaddr: text, bt_device_type: role, adapter: optional }).deep_view()
            == (BluetoothIdentityView {
            bdaddr: text@,
            bt_device_type: role,
            adapter: match optional {
                Some(adapter) => Some(adapter@),
                None => None,
            },
        }),
        (NewConnection { settings: sections, specific_object: optional, timeouts }).deep_view()
            == (NewConnectionView {
            settings: sections.deep_view(),
            specific_object: match optional {
                Some(path) => Some(path@),
                None => None,
            },
            timeouts,
        }),
{
}

} // verus!
