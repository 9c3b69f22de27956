//! What is read from the settings of a connection.

use vstd::prelude::*;

use crate::error::ErrorView;
use crate::models::{SectionsView, ValueView};
use crate::object_path::valid_object_path;
use crate::settings::{bluetooth_bdaddr, connection_type, explicit_object, needed_device_type};

verus! {

/// The type of the connection is the string `type` of the section `connection`, whatever else the
/// settings hold; where there is no such string, the settings are refused.
pub proof fn law_connection_type_is_one_entry(settings: SectionsView)
    ensures
        forall|conn_type: Seq<char>|
            connection_type(settings) == Ok::<Seq<char>, ErrorView>(conn_type) <==> (
            settings.contains_key("connection"@) && settings["connection"@].contains_key("type"@)
                && settings["connection"@]["type"@] == ValueView::Str(conn_type)),
        connection_type(settings) is Err ==> connection_type(settings) == Err::<
            Seq<char>,
            ErrorView,
        >(
            ErrorView::InvalidInput {
                field: "connection.type"@,
                reason: "settings dictionary is missing connection.type"@,
            },
        ),
{
}

/// The address is the string `bdaddr` of the section `bluetooth`, whatever else the settings hold;
/// where there is no such string, the settings are refused.
pub proof fn law_bluetooth_address_is_one_entry(settings: SectionsView)
    ensures
        forall|bdaddr: Seq<char>|
            bluetooth_bdaddr(settings) == Ok::<Seq<char>, ErrorView>(bdaddr) <==> (
            settings.contains_key("bluetooth"@) && settings["bluetooth"@].contains_key("bdaddr"@)
                && settings["bluetooth"@]["bdaddr"@] == ValueView::Str(bdaddr)),
        bluetooth_bdaddr(settings) is Err ==> bluetooth_bdaddr(settings) == Err::<
            Seq<char>,
            ErrorView,
        >(
            ErrorView::InvalidInput {
                field: "bluetooth.bdaddr"@,
                reason: "bluetooth settings are missing bdaddr"@,
            },
        ),
{
}

/// Wireless connections need a device of type 2, wired ones one of type 1 and Bluetooth ones one
/// of type 5; no other connection needs a certain device.
pub proof fn law_needed_devices(conn_type: Seq<char>)
    ensures
        needed_device_type(conn_type) == Some(2u32) <==> conn_type == "802-11-wireless"@,
        needed_device_type(conn_type) == Some(1u32) <==> conn_type == "802-3-ethernet"@,
        needed_device_type(conn_type) == Some(5u32) <==> conn_type == "bluetooth"@,
        needed_device_type(conn_type) is None <==> conn_type != "802-11-wireless"@ && conn_type
            != "802-3-ethernet"@ && conn_type != "bluetooth"@,
{
    reveal_strlit("802-11-wireless");
    reveal_strlit("802-3-ethernet");
    reveal_strlit("bluetooth");
    assert("802-11-wireless"@.len() == 15);
    assert("802-3-ethernet"@.len() == 14);
    assert("bluetooth"@.len() == 9);
}

/// An object that the caller asks for is taken as it is, if its text is an object path, and
/// refused else; where the caller asks for none, there is none.
pub proof fn law_caller_object_is_taken_as_it_is(path: Seq<char>)
    ensures
        explicit_object(None) == Ok::<Option<Seq<char>>, ErrorView>(None),
        valid_object_path(path) ==> explicit_object(Some(path)) == Ok::<
            Option<Seq<char>>,
            ErrorView,
        >(Some(path)),
        !valid_object_path(path) ==> explicit_object(Some(path)) == Err::<
            Option<Seq<char>>,
            ErrorView,
        >(
            ErrorView::InvalidInput {
                field: "specific_object"@,
                reason: "Invalid object path"@,
            },
        ),
{
}

} // verus!
