//! Settings of the caller become profiles.

use vstd::prelude::*;

use crate::activation::{ActivationStageView, AddAndActivateView, AddedView, NewConnectionView};
use crate::bluez_lookup::BluezResolveView;
use crate::custom_connection::{
    device_start, object_start, AddConnectionView, AddStage, DeviceResolveView,
};
use crate::device_search::{DeviceSearchView, Wanted};
use crate::error::ErrorView;
use crate::laws::settings::{law_connection_type_is_one_entry, law_needed_devices};
use crate::models::{SectionsView, ValueView};
use crate::object_path::valid_object_path;
use crate::protocol::{ProgressView, ReplyView, RequestView};
use crate::run::{lemma_continued, lemma_step, performs, settled, Procedure, Run, Services};

verus! {

/// Saving hands the settings service the caller's settings, as they are, and the path that it
/// replies with is the outcome. The first step that fails ends it with its error, and a note on
/// which step of the service it was.
pub proof fn law_settings_are_saved_as_they_are(
    services: Services,
    at: int,
    settings: SectionsView,
)
    ensures
        ({
            let start = ProgressView::<AddConnectionView, Seq<char>>::Pending(
                AddConnectionView { settings, stage: AddStage::Opening },
            );
            let open = RequestView::OpenSettings;
            let add = RequestView::AddConnection { settings };
            let decode = RequestView::DecodeAdded;
            match services(at, open) {
                ReplyView::Done(Err(error)) => performs(
                    start,
                    services,
                    at,
                    Run { requests: seq![open], outcome: Err(error) },
                ),
                ReplyView::Done(Ok(_)) => match services(at + 1, add) {
                    ReplyView::Called(Err(source)) => performs(
                        start,
                        services,
                        at,
                        Run {
                            requests: seq![open, add],
                            outcome: Err(
                                ErrorView::DbusOperation {
                                    context: "failed to add connection"@,
                                    source,
                                },
                            ),
                        },
                    ),
                    ReplyView::Called(Ok(_)) => match services(at + 2, decode) {
                        ReplyView::Decoded(Ok(profile)) => performs(
                            start,
                            services,
                            at,
                            Run { requests: seq![open, add, decode], outcome: Ok(profile) },
                        ),
                        ReplyView::Decoded(Err(source)) => performs(
                            start,
                            services,
                            at,
                            Run {
                                requests: seq![open, add, decode],
                                outcome: Err(
                                    ErrorView::DbusOperation {
                                        context: "failed to decode AddConnection reply"@,
                                        source,
                                    },
                                ),
                            },
                        ),
                        _ => true,
                    },
                    _ => true,
                },
                _ => true,
            }
        }),
{
    reveal_with_fuel(performs, 4);
}

/// An interface name decides the device, whatever the settings say: the device with that name is
/// asked for, and what comes back is the outcome.
pub proof fn law_interface_decides_the_device(
    services: Services,
    at: int,
    settings: SectionsView,
    interface: Seq<char>,
)
    ensures
        match services(at, RequestView::DeviceByInterface { interface }) {
            ReplyView::Path(outcome) => performs(
                device_start(settings, Some(interface)),
                services,
                at,
                Run { requests: seq![RequestView::DeviceByInterface { interface }], outcome },
            ),
            _ => true,
        },
{
    reveal_with_fuel(performs, 2);
}

/// Without an interface name, the type of the connection decides the device, whatever else the
/// settings hold: a wireless connection gets what the search for a device of type 2 gives, a wired
/// one that for type 1 and a Bluetooth one that for type 5. Any other connection gets `/`, and
/// settings without a type are refused, without anything being asked.
pub proof fn law_connection_type_decides_the_device(
    services: Services,
    at: int,
    settings: SectionsView,
    raw_type: u32,
    search: Run<Seq<char>>,
)
    requires
        performs(
            ProgressView::Pending(DeviceSearchView::Opening(Wanted::OfType(raw_type))),
            services,
            at,
            search,
        ),
    ensures
        if settings.contains_key("connection"@) && settings["connection"@].contains_key("type"@)
            && settings["connection"@]["type"@] is Str {
            let conn_type = settings["connection"@]["type"@]->Str_0;
            &&& conn_type == "802-11-wireless"@ && raw_type == 2 ==> performs(
                device_start(settings, None),
                services,
                at,
                search,
            )
            &&& conn_type == "802-3-ethernet"@ && raw_type == 1 ==> performs(
                device_start(settings, None),
                services,
                at,
                search,
            )
            &&& conn_type == "bluetooth"@ && raw_type == 5 ==> performs(
                device_start(settings, None),
                services,
                at,
                search,
            )
            &&& conn_type != "802-11-wireless"@ && conn_type != "802-3-ethernet"@ && conn_type
                != "bluetooth"@ ==> performs(
                device_start(settings, None),
                services,
                at,
                Run { requests: Seq::empty(), outcome: Ok("/"@) },
            )
        } else {
            performs(
                device_start(settings, None),
                services,
                at,
                Run {
                    requests: Seq::empty(),
                    outcome: Err(
                        ErrorView::InvalidInput {
                            field: "connection.type"@,
                            reason: "settings dictionary is missing connection.type"@,
                        },
                    ),
                },
            )
        },
{
    law_connection_type_is_one_entry(settings);
    if settings.contains_key("connection"@) && settings["connection"@].contains_key("type"@)
        && settings["connection"@]["type"@] is Str {
        let conn_type = settings["connection"@]["type"@]->Str_0;
        law_needed_devices(conn_type);
        let rest = settled(search.outcome);
        lemma_continued(
            ProgressView::Pending(DeviceSearchView::Opening(Wanted::OfType(raw_type))),
            |search: DeviceSearchView| DeviceResolveView::Searching(search),
            |found: Result<Seq<char>, ErrorView>| ProgressView::Finished(found),
            services,
            at,
            search,
            rest,
        );
        assert(search.requests + rest.requests =~= search.requests);
    }
}

/// A path that the caller gives decides the object, whatever the settings say, and is refused if it
/// is none; nothing is asked.
pub proof fn law_caller_decides_the_object(
    services: Services,
    at: int,
    settings: SectionsView,
    path: Seq<char>,
)
    ensures
        performs(
            object_start(settings, Some(path)),
            services,
            at,
            Run {
                requests: Seq::empty(),
                outcome: if valid_object_path(path) {
                    Ok(path)
                } else {
                    Err(
                        ErrorView::InvalidInput {
                            field: "specific_object"@,
                            reason: "Invalid object path"@,
                        },
                    )
                },
            },
        ),
{
}

/// Without a path of the caller, a Bluetooth connection is for the device object that the search
/// for the address of its settings, on any adapter, gives. Any other connection is for `/`, and
/// settings that lack the type, or the address where they need one, are refused, without anything
/// being asked.
pub proof fn law_settings_decide_the_object(
    services: Services,
    at: int,
    settings: SectionsView,
    bdaddr: Seq<char>,
    resolve: Run<Seq<char>>,
)
    requires
        performs(
            ProgressView::Pending(BluezResolveView::Checking { bdaddr, adapter: None }),
            services,
            at,
            resolve,
        ),
    ensures
        if settings.contains_key("connection"@) && settings["connection"@].contains_key("type"@)
            && settings["connection"@]["type"@] is Str {
            if settings["connection"@]["type"@] != ValueView::Str("bluetooth"@) {
                performs(
                    object_start(settings, None),
                    services,
                    at,
                    Run { requests: Seq::empty(), outcome: Ok("/"@) },
                )
            } else if settings.contains_key("bluetooth"@)
                && settings["bluetooth"@].contains_key("bdaddr"@)
                && settings["bluetooth"@]["bdaddr"@] is Str {
                settings["bluetooth"@]["bdaddr"@] == ValueView::Str(bdaddr) ==> performs(
                    object_start(settings, None),
                    services,
                    at,
                    resolve,
                )
            } else {
                performs(
                    object_start(settings, None),
                    services,
                    at,
                    Run {
                        requests: Seq::empty(),
                        outcome: Err(
                            ErrorView::InvalidInput {
                                field: "bluetooth.bdaddr"@,
                                reason: "bluetooth settings are missing bdaddr"@,
                            },
                        ),
                    },
                )
            }
        } else {
            performs(
                object_start(settings, None),
                services,
                at,
                Run {
                    requests: Seq::empty(),
                    outcome: Err(
                        ErrorView::InvalidInput {
                            field: "connection.type"@,
                            reason: "settings dictionary is missing connection.type"@,
                        },
                    ),
                },
            )
        },
{
}

proof fn lemma_after_device(
    services: Services,
    at: int,
    c: NewConnectionView,
    interface: Option<Seq<char>>,
    device: Run<Seq<char>>,
    rest: Run<AddedView>,
)
    requires
        performs(device_start(c.settings, interface), services, at, device),
        performs(c.after_device(device.outcome), services, at + device.requests.len(), rest),
    ensures
        performs(
            c.start(interface),
            services,
            at,
            Run { requests: device.requests + rest.requests, outcome: rest.outcome },
        ),
        rest.requests.len() == 0 ==> performs(
            c.start(interface),
            services,
            at,
            Run { requests: device.requests, outcome: rest.outcome },
        ),
{
    lemma_continued(
        device_start(c.settings, interface),
        |resolve: DeviceResolveView|
            AddAndActivateView {
                connection: c,
                stage: ActivationStageView::ResolvingDevice(resolve),
            },
        |found: Result<Seq<char>, ErrorView>| c.after_device(found),
        services,
        at,
        device,
        rest,
    );
    assert(rest.requests.len() == 0 ==> device.requests + rest.requests =~= device.requests);
}

proof fn lemma_after_object(
    services: Services,
    at: int,
    c: NewConnectionView,
    interface: Option<Seq<char>>,
    device: Run<Seq<char>>,
    path: Seq<char>,
    object: Run<Seq<char>>,
    rest: Run<AddedView>,
)
    requires
        performs(device_start(c.settings, interface), services, at, device),
        device.outcome == Ok::<Seq<char>, ErrorView>(path),
        performs(
            object_start(c.settings, c.specific_object),
            services,
            at + device.requests.len(),
            object,
        ),
        performs(
            c.after_object(path, object.outcome),
            services,
            at + device.requests.len() + object.requests.len(),
            rest,
        ),
    ensures
        performs(
            c.start(interface),
            services,
            at,
            Run {
                requests: device.requests + object.requests + rest.requests,
                outcome: rest.outcome,
            },
        ),
        rest.requests.len() == 0 ==> performs(
            c.start(interface),
            services,
            at,
            Run { requests: device.requests + object.requests, outcome: rest.outcome },
        ),
{
    lemma_continued(
        object_start(c.settings, c.specific_object),
        |resolve: BluezResolveView|
            AddAndActivateView {
                connection: c,
                stage: ActivationStageView::ResolvingObject { device: path, resolve },
            },
        |found: Result<Seq<char>, ErrorView>| c.after_object(path, found),
        services,
        at + device.requests.len(),
        object,
        rest,
    );
    let tail = object.requests + rest.requests;
    lemma_after_device(
        services,
        at,
        c,
        interface,
        device,
        Run { requests: tail, outcome: rest.outcome },
    );
    assert(device.requests + tail =~= device.requests + object.requests + rest.requests);
    assert(rest.requests.len() == 0 ==> device.requests + object.requests + rest.requests
        =~= device.requests + object.requests);
}

/// The activation looks for the device first and for the object next. Where one of them is not
/// found, its error is the outcome, and nothing else is asked.
pub proof fn law_activation_needs_device_and_object(
    services: Services,
    at: int,
    connection: NewConnectionView,
    interface: Option<Seq<char>>,
    device: Run<Seq<char>>,
    object: Run<Seq<char>>,
    error: ErrorView,
)
    requires
        performs(device_start(connection.settings, interface), services, at, device),
        device.outcome is Ok ==> performs(
            object_start(connection.settings, connection.specific_object),
            services,
            at + device.requests.len(),
            object,
        ),
    ensures
        device.outcome == Err::<Seq<char>, ErrorView>(error) ==> performs(
            connection.start(interface),
            services,
            at,
            Run { requests: device.requests, outcome: Err(error) },
        ),
        device.outcome is Ok && object.outcome == Err::<Seq<char>, ErrorView>(error) ==> performs(
            connection.start(interface),
            services,
            at,
            Run { requests: device.requests + object.requests, outcome: Err(error) },
        ),
{
    let rest = settled::<AddedView>(Err(error));
    match device.outcome {
        Err(e) => {
            if e == error {
                lemma_after_device(services, at, connection, interface, device, rest);
            }
        },
        Ok(path) => {
            if object.outcome == Err::<Seq<char>, ErrorView>(error) {
                lemma_after_object(
                    services,
                    at,
                    connection,
                    interface,
                    device,
                    path,
                    object,
                    rest,
                );
            }
        },
    }
}

/// Once the device and the object have been found, a device other than `/` is freed, and `/` is
/// not. NetworkManager is then opened, has the caller's settings, as they are, made a profile and
/// activated, on that device and for that object, whatever they are; and the active connection
/// that it gave is waited for, as long as the caller's timeouts say. Where all of this succeeds,
/// the paths that NetworkManager gave are the outcome, and the first step that fails ends it with
/// its error.
pub proof fn law_settings_are_activated_where_they_belong(
    services: Services,
    at: int,
    connection: NewConnectionView,
    interface: Option<Seq<char>>,
    device: Run<Seq<char>>,
    path: Seq<char>,
    object: Run<Seq<char>>,
    specific_object: Seq<char>,
)
    requires
        performs(device_start(connection.settings, interface), services, at, device),
        device.outcome == Ok::<Seq<char>, ErrorView>(path),
        performs(
            object_start(connection.settings, connection.specific_object),
            services,
            at + device.requests.len(),
            object,
        ),
        object.outcome == Ok::<Seq<char>, ErrorView>(specific_object),
    ensures
        ({
            let start = connection.start(interface);
            let found = device.requests + object.requests;
            let n = at + device.requests.len() + object.requests.len();
            let free = RequestView::DisconnectWifi {
                device: path,
                timeouts: connection.timeouts,
            };
            let open = RequestView::OpenManager;
            let add = RequestView::AddAndActivateSettings {
                settings: connection.settings,
                device: path,
                specific_object,
            };
            let chosen = path != "/"@;
            let before = if chosen {
                found + seq![free]
            } else {
                found
            };
            let m = if chosen {
                n + 1
            } else {
                n
            };
            if chosen && services(n, free) is Done && services(n, free)->Done_0 is Err {
                performs(
                    start,
                    services,
                    at,
                    Run {
                        requests: found + seq![free],
                        outcome: Err(services(n, free)->Done_0->Err_0),
                    },
                )
            } else if !chosen || services(n, free) is Done {
                match services(m, open) {
                    ReplyView::Done(Err(error)) => performs(
                        start,
                        services,
                        at,
                        Run { requests: before + seq![open], outcome: Err(error) },
                    ),
                    ReplyView::Done(Ok(_)) => match services(m + 1, add) {
                        ReplyView::Added(Err(error)) => performs(
                            start,
                            services,
                            at,
                            Run { requests: before + seq![open, add], outcome: Err(error) },
                        ),
                        ReplyView::Added(Ok(added)) => {
                            let wait = RequestView::AwaitActivation {
                                active: added.1,
                                timeout: Some(connection.timeouts.connection_timeout),
                            };
                            match services(m + 2, wait) {
                                ReplyView::Done(Ok(_)) => performs(
                                    start,
                                    services,
                                    at,
                                    Run {
                                        requests: before + seq![open, add, wait],
                                        outcome: Ok(added),
                                    },
                                ),
                                ReplyView::Done(Err(error)) => performs(
                                    start,
                                    services,
                                    at,
                                    Run {
                                        requests: before + seq![open, add, wait],
                                        outcome: Err(error),
                                    },
                                ),
                                _ => true,
                            }
                        },
                        _ => true,
                    },
                    _ => true,
                }
            } else {
                true
            }
        }),
{
    let c = connection;
    let n = at + device.requests.len() + object.requests.len();
    let found = device.requests + object.requests;
    let free = RequestView::DisconnectWifi { device: path, timeouts: c.timeouts };
    let open = RequestView::OpenManager;
    let add = RequestView::AddAndActivateSettings {
        settings: c.settings,
        device: path,
        specific_object,
    };
    let chosen = path != "/"@;
    let m = if chosen {
        n + 1
    } else {
        n
    };
    if chosen && services(n, free) is Done && services(n, free)->Done_0 is Err {
        reveal_with_fuel(performs, 2);
        let rest = Run::<AddedView> {
            requests: seq![free],
            outcome: Err(services(n, free)->Done_0->Err_0),
        };
        lemma_after_object(services, at, c, interface, device, path, object, rest);
    } else if !chosen || services(n, free) is Done {
        lemma_added(services, m, c, path, specific_object);
        match services(m, open) {
            ReplyView::Done(Err(error)) => {
                lemma_opened(
                    services,
                    at,
                    c,
                    interface,
                    device,
                    path,
                    object,
                    specific_object,
                    Run { requests: seq![open], outcome: Err(error) },
                );
            },
            ReplyView::Done(Ok(_)) => match services(m + 1, add) {
                ReplyView::Added(Err(error)) => {
                    lemma_opened(
                        services,
                        at,
                        c,
                        interface,
                        device,
                        path,
                        object,
                        specific_object,
                        Run { requests: seq![open, add], outcome: Err(error) },
                    );
                },
                ReplyView::Added(Ok(added)) => {
                    let wait = RequestView::AwaitActivation {
                        active: added.1,
                        timeout: Some(c.timeouts.connection_timeout),
                    };
                    match services(m + 2, wait) {
                        ReplyView::Done(Ok(_)) => {
                            lemma_opened(
                                services,
                                at,
                                c,
                                interface,
                                device,
                                path,
                                object,
                                specific_object,
                                Run { requests: seq![open, add, wait], outcome: Ok(added) },
                            );
                        },
                        ReplyView::Done(Err(error)) => {
                            lemma_opened(
                                services,
                                at,
                                c,
                                interface,
                                device,
                                path,
                                object,
                                specific_object,
                                Run { requests: seq![open, add, wait], outcome: Err(error) },
                            );
                        },
                        _ => {},
                    }
                },
                _ => {},
            },
            _ => {},
        }
    }
}

proof fn lemma_added(
    services: Services,
    m: int,
    c: NewConnectionView,
    device: Seq<char>,
    specific_object: Seq<char>,
)
    ensures
        ({
            let start = c.at(ActivationStageView::Opening { device, specific_object });
            let open = RequestView::OpenManager;
            let add = RequestView::AddAndActivateSettings {
                settings: c.settings,
                device,
                specific_object,
            };
            match services(m, open) {
                ReplyView::Done(Err(error)) => performs(
                    start,
                    services,
                    m,
                    Run { requests: seq![open], outcome: Err(error) },
                ),
                ReplyView::Done(Ok(_)) => match services(m + 1, add) {
                    ReplyView::Added(Err(error)) => performs(
                        start,
                        services,
                        m,
                        Run { requests: seq![open, add], outcome: Err(error) },
                    ),
                    ReplyView::Added(Ok(added)) => {
                        let wait = RequestView::AwaitActivation {
                            active: added.1,
                            timeout: Some(c.timeouts.connection_timeout),
                        };
                        match services(m + 2, wait) {
                            ReplyView::Done(Ok(_)) => performs(
                                start,
                                services,
                                m,
                                Run { requests: seq![open, add, wait], outcome: Ok(added) },
                            ),
                            ReplyView::Done(Err(error)) => performs(
                                start,
                                services,
                                m,
                                Run { requests: seq![open, add, wait], outcome: Err(error) },
                            ),
                            _ => true,
                        }
                    },
                    _ => true,
                },
                _ => true,
            }
        }),
{
    reveal_with_fuel(performs, 4);
}

proof fn lemma_opened(
    services: Services,
    at: int,
    c: NewConnectionView,
    interface: Option<Seq<char>>,
    device: Run<Seq<char>>,
    path: Seq<char>,
    object: Run<Seq<char>>,
    specific_object: Seq<char>,
    rest: Run<AddedView>,
)
    requires
        performs(device_start(c.settings, interface), services, at, device),
        device.outcome == Ok::<Seq<char>, ErrorView>(path),
        performs(
            object_start(c.settings, c.specific_object),
            services,
            at + device.requests.len(),
            object,
        ),
        object.outcome == Ok::<Seq<char>, ErrorView>(specific_object),
        path != "/"@ ==> (services(
            at + device.requests.len() + object.requests.len(),
            RequestView::DisconnectWifi { device: path, timeouts: c.timeouts },
        ) matches ReplyView::Done(Ok(_))),
        ({
            let n = at + device.requests.len() + object.requests.len();
            let m = if path != "/"@ {
                n + 1
            } else {
                n
            };
            performs(
                c.at(ActivationStageView::Opening { device: path, specific_object }),
                services,
                m,
                rest,
            )
        }),
    ensures
        performs(
            c.start(interface),
            services,
            at,
            Run {
                requests: (if path != "/"@ {
                    device.requests + object.requests + seq![
                        RequestView::DisconnectWifi { device: path, timeouts: c.timeouts },
                    ]
                } else {
                    device.requests + object.requests
                }) + rest.requests,
                outcome: rest.outcome,
            },
        ),
{
    let n = at + device.requests.len() + object.requests.len();
    let free = RequestView::DisconnectWifi { device: path, timeouts: c.timeouts };
    if path != "/"@ {
        let p = AddAndActivateView {
            connection: c,
            stage: ActivationStageView::Disconnecting { device: path, specific_object },
        };
        lemma_step(p, services, n, rest);
        let tail = Run { requests: seq![free] + rest.requests, outcome: rest.outcome };
        lemma_after_object(services, at, c, interface, device, path, object, tail);
        assert(device.requests + object.requests + tail.requests =~= device.requests
            + object.requests + seq![free] + rest.requests);
    } else {
        lemma_after_object(services, at, c, interface, device, path, object, rest);
    }
}

} // verus!
