//! Device objects are found by their address, and their names are read.

use vstd::prelude::*;

use crate::bluez::{adapter_path, first_with_address, has_address};
use crate::bluez_info::{after_path, BluezInfoView, NamesView};
use crate::bluez_lookup::{path_among, BluezListing, BluezResolveView};
use crate::error::ErrorView;
use crate::models::{ManagedObjectView, ValueView};
use crate::object_path::valid_object_path;
use crate::protocol::{BluezOpenFailureView, ProgressView, ReplyView, RequestView};
use crate::run::{lemma_continued, lemma_step, performs, settled, Procedure, Run, Services};
use crate::text::{replaced, same_ignoring_ascii_case};

verus! {

/// The path that is found is that of the first object whose interface `org.bluez.Device1` has as
/// its `Address` a string that is the address asked for but for the case of letters, whatever
/// other interfaces and properties the objects have; and where there is no such object, none is
/// found.
pub proof fn law_first_object_with_the_address_is_found(
    objects: Seq<ManagedObjectView>,
    bdaddr: Seq<char>,
    n: int,
)
    requires
        0 <= n <= objects.len(),
        forall|i: int|
            0 <= i < n ==> !((#[trigger] objects[i]).interfaces.contains_key("org.bluez.Device1"@)
                && objects[i].interfaces["org.bluez.Device1"@].contains_key("Address"@)
                && (objects[i].interfaces["org.bluez.Device1"@]["Address"@] matches ValueView::Str(
                address,
            ) && same_ignoring_ascii_case(address, bdaddr))),
    ensures
        n < objects.len() && objects[n].interfaces.contains_key("org.bluez.Device1"@)
            && objects[n].interfaces["org.bluez.Device1"@].contains_key("Address"@) && (
        objects[n].interfaces["org.bluez.Device1"@]["Address"@] matches ValueView::Str(address)
            && same_ignoring_ascii_case(address, bdaddr)) ==> first_with_address(objects, bdaddr)
            == Some(objects[n].path),
        n == objects.len() ==> first_with_address(objects, bdaddr) is None,
    decreases n,
{
    if n > 0 {
        let rest = objects.drop_first();
        assert(forall|i: int| 0 <= i < rest.len() ==> (#[trigger] rest[i]) == objects[i + 1]);
        assert(!has_address(objects[0], bdaddr));
        law_first_object_with_the_address_is_found(rest, bdaddr, n - 1);
    }
}

/// An adapter keeps the device with an address under the adapter's own path, at `dev_` and the
/// address with `_` for each `:`; where that text is no object path, the address is refused.
pub proof fn law_adapter_keeps_devices_under_its_path(bdaddr: Seq<char>, adapter: Seq<char>)
    ensures
        ({
            let text = "/org/bluez/"@ + adapter + "/dev_"@ + Seq::new(
                bdaddr.len(),
                |i: int|
                    if bdaddr[i] == ':' {
                        '_'
                    } else {
                        bdaddr[i]
                    },
            );
            &&& valid_object_path(text) ==> adapter_path(bdaddr, adapter) == Ok::<
                Seq<char>,
                ErrorView,
            >(text)
            &&& !valid_object_path(text) ==> adapter_path(bdaddr, adapter) == Err::<
                Seq<char>,
                ErrorView,
            >(ErrorView::InvalidAddress("Invalid BlueZ device path: "@ + "Invalid object path"@))
        }),
{
    assert(replaced(bdaddr, ':', '_') =~= Seq::new(
        bdaddr.len(),
        |i: int|
            if bdaddr[i] == ':' {
                '_'
            } else {
                bdaddr[i]
            },
    ));
}

/// The objects of BlueZ are handed out as BlueZ lists them, all of them; where BlueZ cannot be
/// opened or does not list them, the error says so.
pub proof fn law_listing_is_handed_out(services: Services, at: int)
    ensures
        match services(at, RequestView::OpenBluez) {
            ReplyView::BluezOpened(Ok(_)) => match services(
                at + 1,
                RequestView::ListManagedObjects,
            ) {
                ReplyView::ManagedObjects(Ok(objects)) => performs(
                    ProgressView::Pending(BluezListing::Opening),
                    services,
                    at,
                    Run {
                        requests: seq![RequestView::OpenBluez, RequestView::ListManagedObjects],
                        outcome: Ok(objects),
                    },
                ),
                ReplyView::ManagedObjects(Err(message)) => performs(
                    ProgressView::Pending(BluezListing::Opening),
                    services,
                    at,
                    Run {
                        requests: seq![RequestView::OpenBluez, RequestView::ListManagedObjects],
                        outcome: Err(
                            ErrorView::BluezUnavailable(
                                "failed to enumerate BlueZ objects: "@ + message,
                            ),
                        ),
                    },
                ),
                _ => true,
            },
            ReplyView::BluezOpened(Err(BluezOpenFailureView::Address(message))) => performs(
                ProgressView::Pending(BluezListing::Opening),
                services,
                at,
                Run {
                    requests: seq![RequestView::OpenBluez],
                    outcome: Err(ErrorView::BluezUnavailable(message)),
                },
            ),
            ReplyView::BluezOpened(Err(BluezOpenFailureView::Connect(message))) => performs(
                ProgressView::Pending(BluezListing::Opening),
                services,
                at,
                Run {
                    requests: seq![RequestView::OpenBluez],
                    outcome: Err(
                        ErrorView::BluezUnavailable("failed to connect to BlueZ: "@ + message),
                    ),
                },
            ),
            _ => true,
        },
{
    reveal_with_fuel(performs, 3);
}

/// The path of a device is looked for only once its address has passed the check. An adapter
/// decides the path, and BlueZ is not asked.
pub proof fn law_adapter_decides_the_path(
    services: Services,
    at: int,
    bdaddr: Seq<char>,
    adapter: Option<Seq<char>>,
)
    ensures
        match services(at, RequestView::CheckAddress { bdaddr }) {
            ReplyView::Done(Err(error)) => performs(
                ProgressView::Pending(BluezResolveView::Checking { bdaddr, adapter }),
                services,
                at,
                Run { requests: seq![RequestView::CheckAddress { bdaddr }], outcome: Err(error) },
            ),
            ReplyView::Done(Ok(_)) => adapter matches Some(name) ==> ({
                let text = "/org/bluez/"@ + name + "/dev_"@ + Seq::new(
                    bdaddr.len(),
                    |i: int|
                        if bdaddr[i] == ':' {
                            '_'
                        } else {
                            bdaddr[i]
                        },
                );
                performs(
                    ProgressView::Pending(BluezResolveView::Checking { bdaddr, adapter }),
                    services,
                    at,
                    Run {
                        requests: seq![RequestView::CheckAddress { bdaddr }],
                        outcome: if valid_object_path(text) {
                            Ok(text)
                        } else {
                            Err(
                                ErrorView::InvalidAddress(
                                    "Invalid BlueZ device path: "@ + "Invalid object path"@,
                                ),
                            )
                        },
                    },
                )
            }),
            _ => true,
        },
{
    reveal_with_fuel(performs, 2);
    if adapter is Some {
        law_adapter_keeps_devices_under_its_path(bdaddr, adapter->0);
    }
}

proof fn lemma_listed(
    services: Services,
    at: int,
    bdaddr: Seq<char>,
    listing: Run<Seq<ManagedObjectView>>,
)
    requires
        services(at, RequestView::CheckAddress { bdaddr }) matches ReplyView::Done(Ok(_)),
        performs(ProgressView::Pending(BluezListing::Opening), services, at + 1, listing),
    ensures
        performs(
            ProgressView::Pending(BluezResolveView::Checking { bdaddr, adapter: None }),
            services,
            at,
            Run {
                requests: seq![RequestView::CheckAddress { bdaddr }] + listing.requests,
                outcome: path_among(bdaddr, listing.outcome),
            },
        ),
{
    let p = BluezResolveView::Checking { bdaddr, adapter: None };
    let rest = settled::<Seq<char>>(path_among(bdaddr, listing.outcome));
    lemma_continued(
        ProgressView::Pending(BluezListing::Opening),
        |listing: BluezListing| BluezResolveView::Listing { bdaddr, listing },
        |listed: Result<Seq<ManagedObjectView>, ErrorView>|
            ProgressView::<BluezResolveView, Seq<char>>::Finished(path_among(bdaddr, listed)),
        services,
        at + 1,
        listing,
        rest,
    );
    assert(listing.requests + rest.requests =~= listing.requests);
    lemma_step(p, services, at, Run { requests: listing.requests, outcome: rest.outcome });
}

/// Without an adapter the path is that of the first object that BlueZ lists whose interface
/// `org.bluez.Device1` has the address, whatever else the objects have. Where the objects before
/// the one at `n` do not have it, that one decides; where none of them all has it, there is no
/// such Bluetooth device; and where BlueZ does not list them, its error is the outcome.
pub proof fn law_listed_device_is_found(
    services: Services,
    at: int,
    bdaddr: Seq<char>,
    listing: Run<Seq<ManagedObjectView>>,
    n: int,
)
    requires
        services(at, RequestView::CheckAddress { bdaddr }) matches ReplyView::Done(Ok(_)),
        performs(ProgressView::Pending(BluezListing::Opening), services, at + 1, listing),
        listing.outcome matches Ok(objects) ==> 0 <= n <= objects.len() && forall|i: int|
            0 <= i < n ==> !((#[trigger] objects[i]).interfaces.contains_key("org.bluez.Device1"@)
                && objects[i].interfaces["org.bluez.Device1"@].contains_key("Address"@)
                && (objects[i].interfaces["org.bluez.Device1"@]["Address"@] matches ValueView::Str(
                address,
            ) && same_ignoring_ascii_case(address, bdaddr))),
    ensures
        match listing.outcome {
            Err(error) => performs(
                ProgressView::Pending(BluezResolveView::Checking { bdaddr, adapter: None }),
                services,
                at,
                Run {
                    requests: seq![RequestView::CheckAddress { bdaddr }] + listing.requests,
                    outcome: Err(error),
                },
            ),
            Ok(objects) => {
                &&& n < objects.len() && objects[n].interfaces.contains_key("org.bluez.Device1"@)
                    && objects[n].interfaces["org.bluez.Device1"@].contains_key("Address"@) && (
                objects[n].interfaces["org.bluez.Device1"@]["Address"@] matches ValueView::Str(
                    address,
                ) && same_ignoring_ascii_case(address, bdaddr)) ==> performs(
                    ProgressView::Pending(BluezResolveView::Checking { bdaddr, adapter: None }),
                    services,
                    at,
                    Run {
                        requests: seq![RequestView::CheckAddress { bdaddr }] + listing.requests,
                        outcome: Ok(objects[n].path),
                    },
                )
                &&& n == objects.len() ==> performs(
                    ProgressView::Pending(BluezResolveView::Checking { bdaddr, adapter: None }),
                    services,
                    at,
                    Run {
                        requests: seq![RequestView::CheckAddress { bdaddr }] + listing.requests,
                        outcome: Err(ErrorView::NoBluetoothDevice),
                    },
                )
            },
        },
{
    lemma_listed(services, at, bdaddr, listing);
    if listing.outcome is Ok {
        law_first_object_with_the_address_is_found(listing.outcome->Ok_0, bdaddr, n);
    }
}

/// The names of a device are looked for once its address has passed the check, wherever its path
/// is found. They are what can be read there, each by itself. Where BlueZ cannot be asked, does
/// not know the device or does not open it, there are none, and that is no error; every other
/// error is the outcome.
pub proof fn law_names_are_read_where_the_device_is(
    services: Services,
    at: int,
    bdaddr: Seq<char>,
    adapter: Option<Seq<char>>,
    resolve: Run<Seq<char>>,
)
    requires
        services(at, RequestView::CheckAddress { bdaddr }) matches ReplyView::Done(Ok(_)),
        performs(
            ProgressView::Pending(BluezResolveView::Checking { bdaddr, adapter }),
            services,
            at + 1,
            resolve,
        ),
    ensures
        ({
            let start = ProgressView::<BluezInfoView, NamesView>::Pending(
                BluezInfoView::Checking { bdaddr, adapter },
            );
            let before = seq![RequestView::CheckAddress { bdaddr }] + resolve.requests;
            let n = at + 1 + resolve.requests.len();
            match resolve.outcome {
                Err(ErrorView::NoBluetoothDevice) => performs(
                    start,
                    services,
                    at,
                    Run { requests: before, outcome: Ok((None, None)) },
                ),
                Err(ErrorView::BluezUnavailable(_)) => performs(
                    start,
                    services,
                    at,
                    Run { requests: before, outcome: Ok((None, None)) },
                ),
                Err(error) => performs(
                    start,
                    services,
                    at,
                    Run { requests: before, outcome: Err(error) },
                ),
                Ok(device) => {
                    let open = RequestView::OpenBluezDevice { device };
                    let name = RequestView::BluezName { device };
                    let alias = RequestView::BluezAlias { device };
                    match (services(n, open), services(n + 1, name), services(n + 2, alias)) {
                        (ReplyView::DeviceOpened(Err(error)), _, _) => performs(
                            start,
                            services,
                            at,
                            Run { requests: before + seq![open], outcome: Err(error) },
                        ),
                        (
                            ReplyView::DeviceOpened(Ok(true)),
                            ReplyView::Text(named),
                            ReplyView::Text(aliased),
                        ) => performs(
                            start,
                            services,
                            at,
                            Run {
                                requests: before + seq![open, name, alias],
                                outcome: Ok(
                                    (
                                        match named {
                                            Ok(text) => Some(text),
                                            Err(_) => None,
                                        },
                                        match aliased {
                                            Ok(text) => Some(text),
                                            Err(_) => None,
                                        },
                                    ),
                                ),
                            },
                        ),
                        (ReplyView::DeviceOpened(Ok(false)), _, _) => performs(
                            start,
                            services,
                            at,
                            Run { requests: before + seq![open], outcome: Ok((None, None)) },
                        ),
                        _ => true,
                    }
                },
            }
        }),
{
    let n = at + 1 + resolve.requests.len();
    match resolve.outcome {
        Err(ErrorView::NoBluetoothDevice) => {
            lemma_names_after(services, at, bdaddr, adapter, resolve, settled(Ok((None, None))));
        },
        Err(ErrorView::BluezUnavailable(_)) => {
            lemma_names_after(services, at, bdaddr, adapter, resolve, settled(Ok((None, None))));
        },
        Err(error) => {
            lemma_names_after(services, at, bdaddr, adapter, resolve, settled(Err(error)));
        },
        Ok(device) => {
            reveal_with_fuel(performs, 4);
            let open = RequestView::OpenBluezDevice { device };
            let name = RequestView::BluezName { device };
            let alias = RequestView::BluezAlias { device };
            match services(n, open) {
                ReplyView::DeviceOpened(Err(error)) => {
                    let rest = Run { requests: seq![open], outcome: Err(error) };
                    lemma_names_after(services, at, bdaddr, adapter, resolve, rest);
                },
                ReplyView::DeviceOpened(Ok(opened)) => {
                    if opened {
                        if services(n + 1, name) is Text && services(n + 2, alias) is Text {
                            let rest = Run {
                                requests: seq![open, name, alias],
                                outcome: Ok(
                                    (
                                        match services(n + 1, name)->Text_0 {
                                            Ok(text) => Some(text),
                                            Err(_) => None,
                                        },
                                        match services(n + 2, alias)->Text_0 {
                                            Ok(text) => Some(text),
                                            Err(_) => None,
                                        },
                                    ),
                                ),
                            };
                            lemma_names_after(services, at, bdaddr, adapter, resolve, rest);
                        }
                    } else {
                        let rest = Run { requests: seq![open], outcome: Ok((None, None)) };
                        lemma_names_after(services, at, bdaddr, adapter, resolve, rest);
                    }
                },
                _ => {},
            }
        },
    }
}

proof fn lemma_names_after(
    services: Services,
    at: int,
    bdaddr: Seq<char>,
    adapter: Option<Seq<char>>,
    resolve: Run<Seq<char>>,
    rest: Run<NamesView>,
)
    requires
        services(at, RequestView::CheckAddress { bdaddr }) matches ReplyView::Done(Ok(_)),
        performs(
            ProgressView::Pending(BluezResolveView::Checking { bdaddr, adapter }),
            services,
            at + 1,
            resolve,
        ),
        performs(
            after_path(resolve.outcome),
            services,
            at + 1 + resolve.requests.len(),
            rest,
        ),
    ensures
        performs(
            ProgressView::Pending(BluezInfoView::Checking { bdaddr, adapter }),
            services,
            at,
            Run {
                requests: seq![RequestView::CheckAddress { bdaddr }] + resolve.requests
                    + rest.requests,
                outcome: rest.outcome,
            },
        ),
        rest.requests.len() == 0 ==> performs(
            ProgressView::Pending(BluezInfoView::Checking { bdaddr, adapter }),
            services,
            at,
            Run {
                requests: seq![RequestView::CheckAddress { bdaddr }] + resolve.requests,
                outcome: rest.outcome,
            },
        ),
{
    let p = BluezInfoView::Checking { bdaddr, adapter };
    let check = seq![RequestView::CheckAddress { bdaddr }];
    lemma_continued(
        ProgressView::Pending(BluezResolveView::Checking { bdaddr, adapter }),
        |resolve: BluezResolveView| BluezInfoView::Resolving(resolve),
        |path: Result<Seq<char>, ErrorView>| after_path(path),
        services,
        at + 1,
        resolve,
        rest,
    );
    lemma_step(
        p,
        services,
        at,
        Run { requests: resolve.requests + rest.requests, outcome: rest.outcome },
    );
    assert(check + (resolve.requests + rest.requests) =~= check + resolve.requests
        + rest.requests);
    assert(rest.requests.len() == 0 ==> check + resolve.requests + rest.requests =~= check
        + resolve.requests);
}

/// An address that the check refuses is reported, and its names are not looked for.
pub proof fn law_refused_address_has_no_names(
    services: Services,
    at: int,
    bdaddr: Seq<char>,
    adapter: Option<Seq<char>>,
    error: ErrorView,
)
    requires
        services(at, RequestView::CheckAddress { bdaddr }) == ReplyView::Done(Err(error)),
    ensures
        performs(
            ProgressView::Pending(BluezInfoView::Checking { bdaddr, adapter }),
            services,
            at,
            Run { requests: seq![RequestView::CheckAddress { bdaddr }], outcome: Err(error) },
        ),
{
    reveal_with_fuel(performs, 2);
}

} // verus!
