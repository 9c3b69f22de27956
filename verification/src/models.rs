//! The data that connection management works on.

use core::time::Duration;

use vstd::prelude::*;

use crate::dict::Dict;
use crate::object_path::ObjectPath;

verus! {

/// `zvariant::OwnedValue`, which is carried along and never looked into.
#[verifier::external_type_specification]
#[verifier::external_body]
pub struct ExOwnedValue(zvariant::OwnedValue);

/// A setting or a property. Only strings are looked into.
#[derive(Debug)]
pub enum Value {
    /// A string.
    Str(String),
    /// A value of any other type.
    Other(zvariant::OwnedValue),
}

/// The mathematical value of a [`Value`].
pub enum ValueView {
    Str(Seq<char>),
    Other(zvariant::OwnedValue),
}

impl DeepView for Value {
    type V = ValueView;

    open spec fn deep_view(&self) -> ValueView {
        match *self {
            Value::Str(text) => ValueView::Str(text@),
            Value::Other(value) => ValueView::Other(value),
        }
    }
}

impl Value {
    /// The text, if the value is a string.
    pub fn as_str(&self) -> (text: Option<&str>)
        ensures
            text.deep_view() == self.deep_view().text(),
    {
        match self {
            Value::Str(text) => Some(text.as_str()),
            _ => None,
        }
    }
}

impl ValueView {
    /// The text, if the value is a string.
    pub open spec fn text(self) -> Option<Seq<char>> {
        match self {
            ValueView::Str(text) => Some(text),
            _ => None,
        }
    }
}

/// Values by section and key: the settings of a connection, by section, or the properties
/// of an object, by interface.
pub type Sections = Dict<Dict<Value>>;

/// The mathematical value of [`Sections`].
pub type SectionsView = Map<Seq<char>, Map<Seq<char>, ValueView>>;

/// The text under `key` in `section`: none if the section or the key is missing or the
/// value is no string.
pub open spec fn text_at(sections: SectionsView, section: Seq<char>, key: Seq<char>) -> Option<
    Seq<char>,
> {
    if sections.contains_key(section) && sections[section].contains_key(key) {
        sections[section][key].text()
    } else {
        None
    }
}

/// The text under `key` in `section`, if there is one.
pub fn find_text<'a>(sections: &'a Sections, section: &str, key: &str) -> (text: Option<&'a str>)
    ensures
        text.deep_view() == text_at(sections.deep_view(), section@, key@),
{
    match sections.get(section) {
        Some(entries) => match entries.get(key) {
            Some(value) => value.as_str(),
            None => None,
        },
        None => None,
    }
}

/// An object that BlueZ manages.
pub struct ManagedObject {
    /// Where the object is.
    pub path: ObjectPath,
    /// The properties of each of its interfaces.
    pub interfaces: Sections,
}

/// The mathematical value of a [`ManagedObject`].
pub struct ManagedObjectView {
    pub path: Seq<char>,
    pub interfaces: SectionsView,
}

impl DeepView for ManagedObject {
    type V = ManagedObjectView;

    open spec fn deep_view(&self) -> ManagedObjectView {
        ManagedObjectView { path: self.path@, interfaces: self.interfaces.deep_view() }
    }
}

/// What a Bluetooth device is connected for.
#[non_exhaustive]
#[derive(Clone, Copy, Debug, PartialEq, Eq, Structural)]
pub enum BluetoothNetworkRole {
    /// A personal area network, as its user.
    PanU,
    /// A dial-up network.
    Dun,
}

/// Which Bluetooth device to connect to.
#[derive(Debug)]
pub struct BluetoothIdentity {
    /// The address of the device.
    pub bdaddr: String,
    /// What it is connected for.
    pub bt_device_type: BluetoothNetworkRole,
    /// The local adapter that knows the device, if it is to be a certain one.
    pub adapter: Option<String>,
}

/// The mathematical value of a [`BluetoothIdentity`].
pub struct BluetoothIdentityView {
    pub bdaddr: Seq<char>,
    pub bt_device_type: BluetoothNetworkRole,
    pub adapter: Option<Seq<char>>,
}

impl DeepView for BluetoothIdentity {
    type V = BluetoothIdentityView;

    open spec fn deep_view(&self) -> BluetoothIdentityView {
        BluetoothIdentityView {
            bdaddr: self.bdaddr@,
            bt_device_type: self.bt_device_type,
            adapter: self.adapter.deep_view(),
        }
    }
}

impl Clone for BluetoothIdentity {
    fn clone(&self) -> (copy: Self)
        ensures
            copy.deep_view() == self.deep_view(),
    {
        BluetoothIdentity {
            bdaddr: self.bdaddr.clone(),
            bt_device_type: self.bt_device_type,
            adapter: copy_text(&self.adapter),
        }
    }
}

/// A copy of an optional text.
pub fn copy_text(text: &Option<String>) -> (copy: Option<String>)
    ensures
        copy.deep_view() == text.deep_view(),
{
    match text {
        Some(text) => Some(text.clone()),
        None => None,
    }
}

/// Whether and how NetworkManager brings a new profile up by itself.
#[derive(Clone, Copy, Debug, PartialEq, Eq, Structural)]
pub struct ConnectionOptions {
    /// Whether it does.
    pub autoconnect: bool,
    /// Its rank among the profiles that could be brought up.
    pub autoconnect_priority: Option<i32>,
    /// How often to try.
    pub autoconnect_retries: Option<i32>,
}

/// How long to wait for a device.
#[derive(Clone, Copy, Debug)]
pub struct TimeoutConfig {
    /// How long to wait for a connection to come up.
    pub connection_timeout: Duration,
    /// How long to wait for a connection to go down.
    pub disconnect_timeout: Duration,
}

} // verus!
