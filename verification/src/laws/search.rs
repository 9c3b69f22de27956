//! The search for a device takes the first one of the type, among all that are listed.

use vstd::prelude::*;

use crate::device_search::{ask_each, type_requests, DeviceSearchView, Wanted};
use crate::error::ErrorView;
use crate::protocol::{ProgressView, ReplyView, RequestView};
use crate::run::{
    faithful, law_one_run_only, lemma_step, performs, settled, Procedure, Run, Services,
};

verus! {

proof fn lemma_asking(
    services: Services,
    at: int,
    wanted: Wanted,
    number: u32,
    devices: Seq<Seq<char>>,
    n: int,
)
    requires
        0 <= n <= devices.len(),
        wanted.type_number() == number,
        forall|i: int|
            #![trigger devices[i]]
            0 <= i < n ==> (services(
                at + i,
                RequestView::DeviceType { device: devices[i] },
            ) matches ReplyView::Number(Ok(other)) && other != number),
    ensures
        n < devices.len() ==> match services(
            at + n,
            RequestView::DeviceType { device: devices[n] },
        ) {
            ReplyView::Number(Ok(found)) => found == number ==> performs(
                ask_each(wanted, devices),
                services,
                at,
                Run { requests: type_requests(devices, n + 1), outcome: Ok(devices[n]) },
            ),
            ReplyView::Number(Err(error)) => performs(
                ask_each(wanted, devices),
                services,
                at,
                Run { requests: type_requests(devices, n + 1), outcome: Err(error) },
            ),
            _ => true,
        },
        n == devices.len() ==> performs(
            ask_each(wanted, devices),
            services,
            at,
            Run { requests: type_requests(devices, n), outcome: Err(wanted.absent()) },
        ),
    decreases n,
{
    if devices.len() > 0 {
        let tail = devices.drop_first();
        let p = DeviceSearchView::Asking { wanted, device: devices[0], rest: tail };
        let request = RequestView::DeviceType { device: devices[0] };
        assert(p.request() == request);
        if n == 0 {
            assert(seq![request] + Seq::<RequestView>::empty() =~= type_requests(devices, 1));
            match services(at, request) {
                ReplyView::Number(Ok(found)) => {
                    if found == number {
                        lemma_step(p, services, at, settled(Ok(devices[0])));
                    }
                },
                ReplyView::Number(Err(error)) => {
                    lemma_step(p, services, at, settled(Err(error)));
                },
                _ => {},
            }
        } else {
            assert forall|i: int| #![trigger tail[i]] 0 <= i < n - 1 implies (services(
                at + 1 + i,
                RequestView::DeviceType { device: tail[i] },
            ) matches ReplyView::Number(Ok(other)) && other != number) by {
                assert(tail[i] == devices[i + 1]);
            }
            lemma_asking(services, at + 1, wanted, number, tail, n - 1);
            assert(p.resumed(services(at, request)) == ask_each(wanted, tail));
            assert(seq![request] + type_requests(tail, n - 1) =~= type_requests(devices, n));
            if n < devices.len() {
                assert(tail[n - 1] == devices[n]);
                assert(seq![request] + type_requests(tail, n) =~= type_requests(devices, n + 1));
                match services(at + n, RequestView::DeviceType { device: devices[n] }) {
                    ReplyView::Number(Ok(found)) => {
                        if found == number {
                            lemma_step(
                                p,
                                services,
                                at,
                                Run {
                                    requests: type_requests(tail, n),
                                    outcome: Ok(devices[n]),
                                },
                            );
                        }
                    },
                    ReplyView::Number(Err(error)) => {
                        lemma_step(
                            p,
                            services,
                            at,
                            Run { requests: type_requests(tail, n), outcome: Err(error) },
                        );
                    },
                    _ => {},
                }
            } else {
                lemma_step(
                    p,
                    services,
                    at,
                    Run {
                        requests: type_requests(tail, n - 1),
                        outcome: Err(wanted.absent()),
                    },
                );
            }
        }
    }
}

proof fn lemma_listing(
    services: Services,
    at: int,
    wanted: Wanted,
    number: u32,
    devices: Seq<Seq<char>>,
    n: int,
)
    requires
        0 <= n <= devices.len(),
        wanted.type_number() == number,
        services(at, RequestView::ListDevices) == ReplyView::Paths(Ok(devices)),
        forall|i: int|
            #![trigger devices[i]]
            0 <= i < n ==> (services(
                at + 1 + i,
                RequestView::DeviceType { device: devices[i] },
            ) matches ReplyView::Number(Ok(other)) && other != number),
    ensures
        n < devices.len() ==> match services(
            at + 1 + n,
            RequestView::DeviceType { device: devices[n] },
        ) {
            ReplyView::Number(Ok(found)) => found == number ==> performs(
                ProgressView::Pending(DeviceSearchView::Listing(wanted)),
                services,
                at,
                Run {
                    requests: seq![RequestView::ListDevices] + type_requests(devices, n + 1),
                    outcome: Ok(devices[n]),
                },
            ),
            ReplyView::Number(Err(error)) => performs(
                ProgressView::Pending(DeviceSearchView::Listing(wanted)),
                services,
                at,
                Run {
                    requests: seq![RequestView::ListDevices] + type_requests(devices, n + 1),
                    outcome: Err(error),
                },
            ),
            _ => true,
        },
        n == devices.len() ==> performs(
            ProgressView::Pending(DeviceSearchView::Listing(wanted)),
            services,
            at,
            Run {
                requests: seq![RequestView::ListDevices] + type_requests(devices, n),
                outcome: Err(wanted.absent()),
            },
        ),
{
    let p = DeviceSearchView::Listing(wanted);
    lemma_asking(services, at + 1, wanted, number, devices, n);
    assert(p.resumed(services(at, p.request())) == ask_each(wanted, devices));
    if n < devices.len() {
        match services(at + 1 + n, RequestView::DeviceType { device: devices[n] }) {
            ReplyView::Number(Ok(found)) => {
                if found == number {
                    lemma_step(
                        p,
                        services,
                        at,
                        Run { requests: type_requests(devices, n + 1), outcome: Ok(devices[n]) },
                    );
                }
            },
            ReplyView::Number(Err(error)) => {
                lemma_step(
                    p,
                    services,
                    at,
                    Run { requests: type_requests(devices, n + 1), outcome: Err(error) },
                );
            },
            _ => {},
        }
    } else {
        lemma_step(
            p,
            services,
            at,
            Run { requests: type_requests(devices, n), outcome: Err(wanted.absent()) },
        );
    }
}

/// The search for the Bluetooth hardware asks the devices that NetworkManager lists one after the
/// other, however many there are. Where those before the one at `n` are of other types, it ends
/// there: with that device, if its type is 5, and with the error, if it cannot be asked. Where
/// none of them all is of type 5, the outcome is that there is no Bluetooth device.
pub proof fn law_bluetooth_hardware_is_the_first_of_its_type(
    services: Services,
    at: int,
    devices: Seq<Seq<char>>,
    n: int,
)
    requires
        0 <= n <= devices.len(),
        services(at, RequestView::ListDevices) == ReplyView::Paths(Ok(devices)),
        forall|i: int|
            #![trigger devices[i]]
            0 <= i < n ==> (services(
                at + 1 + i,
                RequestView::DeviceType { device: devices[i] },
            ) matches ReplyView::Number(Ok(other)) && other != 5),
    ensures
        n < devices.len() ==> match services(
            at + 1 + n,
            RequestView::DeviceType { device: devices[n] },
        ) {
            ReplyView::Number(Ok(found)) => found == 5 ==> performs(
                ProgressView::Pending(DeviceSearchView::Listing(Wanted::Bluetooth)),
                services,
                at,
                Run {
                    requests: seq![RequestView::ListDevices] + Seq::new(
                        (n + 1) as nat,
                        |i: int| RequestView::DeviceType { device: devices[i] },
                    ),
                    outcome: Ok(devices[n]),
                },
            ),
            ReplyView::Number(Err(error)) => performs(
                ProgressView::Pending(DeviceSearchView::Listing(Wanted::Bluetooth)),
                services,
                at,
                Run {
                    requests: seq![RequestView::ListDevices] + Seq::new(
                        (n + 1) as nat,
                        |i: int| RequestView::DeviceType { device: devices[i] },
                    ),
                    outcome: Err(error),
                },
            ),
            _ => true,
        },
        n == devices.len() ==> performs(
            ProgressView::Pending(DeviceSearchView::Listing(Wanted::Bluetooth)),
            services,
            at,
            Run {
                requests: seq![RequestView::ListDevices] + Seq::new(
                    n as nat,
                    |i: int| RequestView::DeviceType { device: devices[i] },
                ),
                outcome: Err(ErrorView::NoBluetoothDevice),
            },
        ),
{
    lemma_listing(services, at, Wanted::Bluetooth, 5, devices, n);
    assert(type_requests(devices, n) =~= Seq::new(
        n as nat,
        |i: int| RequestView::DeviceType { device: devices[i] },
    ));
    assert(type_requests(devices, n + 1) =~= Seq::new(
        (n + 1) as nat,
        |i: int| RequestView::DeviceType { device: devices[i] },
    ));
}

/// The search by type does the same for any type, once NetworkManager has been opened, and where
/// no device is of the type, the outcome is that there is none.
pub proof fn law_device_by_type_is_the_first_of_its_type(
    services: Services,
    at: int,
    raw_type: u32,
    devices: Seq<Seq<char>>,
    n: int,
)
    requires
        0 <= n <= devices.len(),
        services(at, RequestView::OpenManager) matches ReplyView::Done(Ok(_)),
        services(at + 1, RequestView::ListDevices) == ReplyView::Paths(Ok(devices)),
        forall|i: int|
            #![trigger devices[i]]
            0 <= i < n ==> (services(
                at + 2 + i,
                RequestView::DeviceType { device: devices[i] },
            ) matches ReplyView::Number(Ok(other)) && other != raw_type),
    ensures
        n < devices.len() ==> match services(
            at + 2 + n,
            RequestView::DeviceType { device: devices[n] },
        ) {
            ReplyView::Number(Ok(found)) => found == raw_type ==> performs(
                ProgressView::Pending(DeviceSearchView::Opening(Wanted::OfType(raw_type))),
                services,
                at,
                Run {
                    requests: seq![RequestView::OpenManager, RequestView::ListDevices] + Seq::new(
                        (n + 1) as nat,
                        |i: int| RequestView::DeviceType { device: devices[i] },
                    ),
                    outcome: Ok(devices[n]),
                },
            ),
            ReplyView::Number(Err(error)) => performs(
                ProgressView::Pending(DeviceSearchView::Opening(Wanted::OfType(raw_type))),
                services,
                at,
                Run {
                    requests: seq![RequestView::OpenManager, RequestView::ListDevices] + Seq::new(
                        (n + 1) as nat,
                        |i: int| RequestView::DeviceType { device: devices[i] },
                    ),
                    outcome: Err(error),
                },
            ),
            _ => true,
        },
        n == devices.len() ==> performs(
            ProgressView::Pending(DeviceSearchView::Opening(Wanted::OfType(raw_type))),
            services,
            at,
            Run {
                requests: seq![RequestView::OpenManager, RequestView::ListDevices] + Seq::new(
                    n as nat,
                    |i: int| RequestView::DeviceType { device: devices[i] },
                ),
                outcome: Err(ErrorView::NotFound),
            },
        ),
{
    let wanted = Wanted::OfType(raw_type);
    let p = DeviceSearchView::Opening(wanted);
    let list = seq![RequestView::ListDevices];
    lemma_listing(services, at + 1, wanted, raw_type, devices, n);
    assert(seq![RequestView::OpenManager] + (list + type_requests(devices, n)) =~= seq![
        RequestView::OpenManager,
        RequestView::ListDevices,
    ] + Seq::new(n as nat, |i: int| RequestView::DeviceType { device: devices[i] }));
    assert(seq![RequestView::OpenManager] + (list + type_requests(devices, n + 1)) =~= seq![
        RequestView::OpenManager,
        RequestView::ListDevices,
    ] + Seq::new((n + 1) as nat, |i: int| RequestView::DeviceType { device: devices[i] }));
    if n < devices.len() {
        match services(at + 2 + n, RequestView::DeviceType { device: devices[n] }) {
            ReplyView::Number(Ok(found)) => {
                if found == raw_type {
                    lemma_step(
                        p,
                        services,
                        at,
                        Run {
                            requests: list + type_requests(devices, n + 1),
                            outcome: Ok(devices[n]),
                        },
                    );
                }
            },
            ReplyView::Number(Err(error)) => {
                lemma_step(
                    p,
                    services,
                    at,
                    Run {
                        requests: list + type_requests(devices, n + 1),
                        outcome: Err(error),
                    },
                );
            },
            _ => {},
        }
    } else {
        lemma_step(
            p,
            services,
            at,
            Run { requests: list + type_requests(devices, n), outcome: Err(ErrorView::NotFound) },
        );
    }
}

/// Where NetworkManager cannot be opened or does not list its devices, that is the outcome, and no
/// device is asked.
pub proof fn law_search_reports_a_missing_listing(
    services: Services,
    at: int,
    raw_type: u32,
    error: ErrorView,
)
    ensures
        services(at, RequestView::ListDevices) == ReplyView::Paths(Err(error)) ==> performs(
            ProgressView::Pending(DeviceSearchView::Listing(Wanted::Bluetooth)),
            services,
            at,
            Run { requests: seq![RequestView::ListDevices], outcome: Err(error) },
        ),
        services(at, RequestView::OpenManager) == ReplyView::Done(Err(error)) ==> performs(
            ProgressView::Pending(DeviceSearchView::Opening(Wanted::OfType(raw_type))),
            services,
            at,
            Run { requests: seq![RequestView::OpenManager], outcome: Err(error) },
        ),
        (services(at, RequestView::OpenManager) matches ReplyView::Done(Ok(_))) && services(
            at + 1,
            RequestView::ListDevices,
        ) == ReplyView::Paths(Err(error)) ==> performs(
            ProgressView::Pending(DeviceSearchView::Opening(Wanted::OfType(raw_type))),
            services,
            at,
            Run {
                requests: seq![RequestView::OpenManager, RequestView::ListDevices],
                outcome: Err(error),
            },
        ),
{
    reveal_with_fuel(performs, 3);
}

proof fn lemma_decided(
    services: Services,
    at: int,
    number: u32,
    devices: Seq<Seq<char>>,
    from: int,
) -> (n: int)
    requires
        faithful(services),
        0 <= from <= devices.len(),
        forall|i: int|
            #![trigger devices[i]]
            0 <= i < from ==> (services(
                at + i,
                RequestView::DeviceType { device: devices[i] },
            ) matches ReplyView::Number(Ok(other)) && other != number),
    ensures
        0 <= n <= devices.len(),
        forall|i: int|
            #![trigger devices[i]]
            0 <= i < n ==> (services(
                at + i,
                RequestView::DeviceType { device: devices[i] },
            ) matches ReplyView::Number(Ok(other)) && other != number),
        n < devices.len() ==> match services(
            at + n,
            RequestView::DeviceType { device: devices[n] },
        ) {
            ReplyView::Number(Ok(found)) => found == number,
            ReplyView::Number(Err(_)) => true,
            _ => false,
        },
    decreases devices.len() - from,
{
    if from == devices.len() {
        from
    } else {
        let request = RequestView::DeviceType { device: devices[from] };
        assert(request.answered_by(services(at + from, request)));
        match services(at + from, request)->Number_0 {
            Ok(found) => if found == number {
                from
            } else {
                lemma_decided(services, at, number, devices, from + 1)
            },
            Err(_) => from,
        }
    }
}

/// The search for the Bluetooth hardware says that there is none only where every device that
/// NetworkManager lists has been asked, unless a device says so itself; and a device that it finds
/// is a listed one of type 5.
pub proof fn law_bluetooth_hardware_is_not_overlooked(
    services: Services,
    at: int,
    devices: Seq<Seq<char>>,
    run: Run<Seq<char>>,
)
    requires
        faithful(services),
        services(at, RequestView::ListDevices) == ReplyView::Paths(Ok(devices)),
        performs(
            ProgressView::Pending(DeviceSearchView::Listing(Wanted::Bluetooth)),
            services,
            at,
            run,
        ),
    ensures
        match run.outcome {
            Ok(device) => exists|n: int|
                0 <= n < devices.len() && device == #[trigger] devices[n] && services(
                    at + 1 + n,
                    RequestView::DeviceType { device },
                ) == ReplyView::Number(Ok(5)),
            Err(error) => {
                ||| error == ErrorView::NoBluetoothDevice && run.requests.len() == 1
                    + devices.len() && forall|i: int|
                    0 <= i < devices.len() ==> run.requests[1 + i] == (RequestView::DeviceType {
                        device: #[trigger] devices[i],
                    }) && services(at + 1 + i, run.requests[1 + i]) != ReplyView::Number(Ok(5))
                ||| exists|n: int|
                    0 <= n < devices.len() && services(
                        at + 1 + n,
                        RequestView::DeviceType { device: #[trigger] devices[n] },
                    ) == ReplyView::Number(Err(error))
            },
        },
{
    let n = lemma_decided(services, at + 1, 5, devices, 0);
    law_bluetooth_hardware_is_the_first_of_its_type(services, at, devices, n);
    let start = ProgressView::<DeviceSearchView, Seq<char>>::Pending(
        DeviceSearchView::Listing(Wanted::Bluetooth),
    );
    if n < devices.len() {
        let asked = seq![RequestView::ListDevices] + Seq::new(
            (n + 1) as nat,
            |i: int| RequestView::DeviceType { device: devices[i] },
        );
        match services(at + 1 + n, RequestView::DeviceType { device: devices[n] })->Number_0 {
            Ok(_) => {
                law_one_run_only(
                    start,
                    services,
                    at,
                    run,
                    Run { requests: asked, outcome: Ok(devices[n]) },
                );
            },
            Err(error) => {
                law_one_run_only(
                    start,
                    services,
                    at,
                    run,
                    Run { requests: asked, outcome: Err(error) },
                );
            },
        }
    } else {
        let asked = seq![RequestView::ListDevices] + Seq::new(
            n as nat,
            |i: int| RequestView::DeviceType { device: devices[i] },
        );
        law_one_run_only(
            start,
            services,
            at,
            run,
            Run { requests: asked, outcome: Err(ErrorView::NoBluetoothDevice) },
        );
    }
}

} // verus!
