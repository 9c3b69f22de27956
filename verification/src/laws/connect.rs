//! Connecting and disconnecting a Bluetooth device.

use core::time::Duration;

use vstd::prelude::*;

use crate::bluetooth::{ConnectBluetoothView, ConnectStageView};
use crate::bluetooth_disconnect::{DisconnectBluetoothView, DisconnectStage};
use crate::bluez_lookup::{
    law_resolve_bluez_device_path, resolve_bluez_device_path_run, BluezResolveView,
};
use crate::device_search::{
    find_bluetooth_device_run, law_find_bluetooth_device, DeviceSearchView, Wanted,
};
use crate::error::ErrorView;
use crate::models::{BluetoothIdentityView, ConnectionOptions, TimeoutConfig};
use crate::protocol::{ProgressView, ReplyView, RequestView};
use crate::run::{
    continued, faithful, law_one_run_only, lemma_continued, lemma_step, performs, settled, Procedure,
    Run, Services,
};

verus! {

/// The connection starts by opening NetworkManager, and where that fails, it is over. Where the
/// device that is connected is the one to connect to, it has succeeded, and nothing else is asked.
pub proof fn law_connected_device_ends_the_connection(
    services: Services,
    at: int,
    name: Seq<char>,
    identity: BluetoothIdentityView,
    timeouts: Option<TimeoutConfig>,
)
    ensures
        ({
            let start = ProgressView::<ConnectBluetoothView, ()>::Pending(
                ConnectBluetoothView { name, identity, timeouts, stage: ConnectStageView::Opening },
            );
            match services(at, RequestView::OpenManager) {
                ReplyView::Done(Err(error)) => performs(
                    start,
                    services,
                    at,
                    Run { requests: seq![RequestView::OpenManager], outcome: Err(error) },
                ),
                ReplyView::Done(Ok(_)) => services(at + 1, RequestView::CurrentBluetooth)
                    == ReplyView::Current(Some(identity.bdaddr)) ==> performs(
                    start,
                    services,
                    at,
                    Run {
                        requests: seq![RequestView::OpenManager, RequestView::CurrentBluetooth],
                        outcome: Ok(()),
                    },
                ),
                _ => true,
            }
        }),
{
    reveal_with_fuel(performs, 3);
}

proof fn lemma_after_search(
    services: Services,
    at: int,
    c: ConnectBluetoothView,
    current: Option<Seq<char>>,
    search: Run<Seq<char>>,
    rest: Run<()>,
)
    requires
        c.stage is Opening,
        services(at, RequestView::OpenManager) matches ReplyView::Done(Ok(_)),
        services(at + 1, RequestView::CurrentBluetooth) == ReplyView::Current(current),
        current != Some(c.identity.bdaddr),
        performs(
            ProgressView::Pending(DeviceSearchView::Listing(Wanted::Bluetooth)),
            services,
            at + 2,
            search,
        ),
        performs(c.after_search(search.outcome), services, at + 2 + search.requests.len(), rest),
    ensures
        performs(
            ProgressView::Pending(c),
            services,
            at,
            Run {
                requests: seq![RequestView::OpenManager, RequestView::CurrentBluetooth]
                    + search.requests + rest.requests,
                outcome: rest.outcome,
            },
        ),
{
    let q = ConnectBluetoothView { stage: ConnectStageView::CheckingCurrent, ..c };
    let embed = |search: DeviceSearchView|
        ConnectBluetoothView { stage: ConnectStageView::Searching(search), ..c };
    let next = |found: Result<Seq<char>, ErrorView>| c.after_search(found);
    assert forall|inner: DeviceSearchView, reply: ReplyView| #[trigger]
        embed(inner).resumed(reply) == continued(inner.resumed(reply), embed, next) by {
        let state = embed(inner);
        assert forall|found: Result<Seq<char>, ErrorView>| #[trigger]
            state.after_search(found) == c.after_search(found) by {}
    }
    lemma_continued(
        ProgressView::Pending(DeviceSearchView::Listing(Wanted::Bluetooth)),
        embed,
        next,
        services,
        at + 2,
        search,
        rest,
    );
    let tail = search.requests + rest.requests;
    lemma_step(q, services, at + 1, Run { requests: tail, outcome: rest.outcome });
    lemma_step(
        c,
        services,
        at,
        Run {
            requests: seq![RequestView::CurrentBluetooth] + tail,
            outcome: rest.outcome,
        },
    );
    assert(seq![RequestView::OpenManager] + (seq![RequestView::CurrentBluetooth] + tail) =~= seq![
        RequestView::OpenManager,
        RequestView::CurrentBluetooth,
    ] + search.requests + rest.requests);
}

proof fn lemma_after_look_up(
    services: Services,
    at: int,
    c: ConnectBluetoothView,
    device: Seq<char>,
    saved: Option<Seq<char>>,
    resolve: Run<Seq<char>>,
    rest: Run<()>,
)
    requires
        services(at, RequestView::SavedConnection { name: c.name }) == ReplyView::Saved(Ok(saved)),
        performs(
            ProgressView::Pending(
                BluezResolveView::Checking {
                    bdaddr: c.identity.bdaddr,
                    adapter: c.identity.adapter,
                },
            ),
            services,
            at + 1,
            resolve,
        ),
        performs(
            c.after_resolve(device, saved, resolve.outcome),
            services,
            at + 1 + resolve.requests.len(),
            rest,
        ),
    ensures
        performs(
            c.after_search(Ok(device)),
            services,
            at,
            Run {
                requests: seq![RequestView::SavedConnection { name: c.name }] + resolve.requests
                    + rest.requests,
                outcome: rest.outcome,
            },
        ),
{
    let p = ConnectBluetoothView { stage: ConnectStageView::LookingUp { device }, ..c };
    let embed = |resolve: BluezResolveView|
        ConnectBluetoothView {
            stage: ConnectStageView::Resolving { device, saved, resolve },
            ..c
        };
    let next = |resolved: Result<Seq<char>, ErrorView>| c.after_resolve(device, saved, resolved);
    assert forall|inner: BluezResolveView, reply: ReplyView| #[trigger]
        embed(inner).resumed(reply) == continued(inner.resumed(reply), embed, next) by {
        let state = embed(inner);
        assert forall|resolved: Result<Seq<char>, ErrorView>| #[trigger]
            state.after_resolve(device, saved, resolved) == c.after_resolve(
            device,
            saved,
            resolved,
        ) by {}
    }
    lemma_continued(
        ProgressView::Pending(
            BluezResolveView::Checking {
                bdaddr: c.identity.bdaddr,
                adapter: c.identity.adapter,
            },
        ),
        embed,
        next,
        services,
        at + 1,
        resolve,
        rest,
    );
    let tail = resolve.requests + rest.requests;
    lemma_step(p, services, at, Run { requests: tail, outcome: rest.outcome });
    assert(seq![RequestView::SavedConnection { name: c.name }] + tail =~= seq![
        RequestView::SavedConnection { name: c.name },
    ] + resolve.requests + rest.requests);
}

/// Unless the device is connected already, the Bluetooth hardware is looked for. Where that fails,
/// its error is the outcome; else a saved profile is looked for, and where that cannot be done,
/// its error is.
pub proof fn law_connection_needs_hardware(
    services: Services,
    at: int,
    name: Seq<char>,
    identity: BluetoothIdentityView,
    timeouts: Option<TimeoutConfig>,
    current: Option<Seq<char>>,
    search: Run<Seq<char>>,
)
    requires
        services(at, RequestView::OpenManager) matches ReplyView::Done(Ok(_)),
        services(at + 1, RequestView::CurrentBluetooth) == ReplyView::Current(current),
        current != Some(identity.bdaddr),
        performs(
            ProgressView::Pending(DeviceSearchView::Listing(Wanted::Bluetooth)),
            services,
            at + 2,
            search,
        ),
    ensures
        ({
            let start = ProgressView::<ConnectBluetoothView, ()>::Pending(
                ConnectBluetoothView { name, identity, timeouts, stage: ConnectStageView::Opening },
            );
            let before = seq![RequestView::OpenManager, RequestView::CurrentBluetooth]
                + search.requests;
            let look_up = RequestView::SavedConnection { name };
            match search.outcome {
                Err(error) => performs(
                    start,
                    services,
                    at,
                    Run { requests: before, outcome: Err(error) },
                ),
                Ok(_) => match services(at + 2 + search.requests.len(), look_up) {
                    ReplyView::Saved(Err(error)) => performs(
                        start,
                        services,
                        at,
                        Run { requests: before + seq![look_up], outcome: Err(error) },
                    ),
                    _ => true,
                },
            }
        }),
{
    let c = ConnectBluetoothView { name, identity, timeouts, stage: ConnectStageView::Opening };
    let before = seq![RequestView::OpenManager, RequestView::CurrentBluetooth] + search.requests;
    match search.outcome {
        Err(error) => {
            lemma_after_search(services, at, c, current, search, settled(Err(error)));
            assert(before + Seq::<RequestView>::empty() =~= before);
        },
        Ok(device) => {
            let look_up = RequestView::SavedConnection { name };
            let n = at + 2 + search.requests.len();
            if let ReplyView::Saved(Err(error)) = services(n, look_up) {
                reveal_with_fuel(performs, 2);
                let rest = Run { requests: seq![look_up], outcome: Err(error) };
                lemma_after_search(services, at, c, current, search, rest);
            }
        },
    }
}

/// Once the hardware has been found and a saved profile looked for, the path of the device is
/// looked for, and where that fails, its error is the outcome.
pub proof fn law_connection_needs_the_device_object(
    services: Services,
    at: int,
    name: Seq<char>,
    identity: BluetoothIdentityView,
    timeouts: Option<TimeoutConfig>,
    current: Option<Seq<char>>,
    search: Run<Seq<char>>,
    device: Seq<char>,
    saved: Option<Seq<char>>,
    resolve: Run<Seq<char>>,
    error: ErrorView,
)
    requires
        services(at, RequestView::OpenManager) matches ReplyView::Done(Ok(_)),
        services(at + 1, RequestView::CurrentBluetooth) == ReplyView::Current(current),
        current != Some(identity.bdaddr),
        performs(
            ProgressView::Pending(DeviceSearchView::Listing(Wanted::Bluetooth)),
            services,
            at + 2,
            search,
        ),
        search.outcome == Ok::<Seq<char>, ErrorView>(device),
        services(at + 2 + search.requests.len(), RequestView::SavedConnection { name })
            == ReplyView::Saved(Ok(saved)),
        performs(
            ProgressView::Pending(
                BluezResolveView::Checking { bdaddr: identity.bdaddr, adapter: identity.adapter },
            ),
            services,
            at + 3 + search.requests.len(),
            resolve,
        ),
        resolve.outcome == Err::<Seq<char>, ErrorView>(error),
    ensures
        performs(
            ProgressView::Pending(
                ConnectBluetoothView { name, identity, timeouts, stage: ConnectStageView::Opening },
            ),
            services,
            at,
            Run {
                requests: seq![RequestView::OpenManager, RequestView::CurrentBluetooth]
                    + search.requests + seq![RequestView::SavedConnection { name }]
                    + resolve.requests,
                outcome: Err(error),
            },
        ),
{
    let c = ConnectBluetoothView { name, identity, timeouts, stage: ConnectStageView::Opening };
    let rest = settled::<()>(Err(error));
    lemma_whole(services, at, c, current, search, device, saved, resolve, rest);
}

/// Once the hardware and the path of the device have been found, a profile that is saved under the
/// name is activated, on that hardware and for that object. Where that fails, its error is the
/// outcome. Else the active connection that it gave is waited for, as long as the caller's timeouts
/// say, and the outcome of the wait, be it success or an error, is that of the connection.
pub proof fn law_saved_profile_is_activated_and_waited_for(
    services: Services,
    at: int,
    name: Seq<char>,
    identity: BluetoothIdentityView,
    timeouts: Option<TimeoutConfig>,
    current: Option<Seq<char>>,
    search: Run<Seq<char>>,
    device: Seq<char>,
    profile: Seq<char>,
    resolve: Run<Seq<char>>,
    specific_object: Seq<char>,
)
    requires
        services(at, RequestView::OpenManager) matches ReplyView::Done(Ok(_)),
        services(at + 1, RequestView::CurrentBluetooth) == ReplyView::Current(current),
        current != Some(identity.bdaddr),
        performs(
            ProgressView::Pending(DeviceSearchView::Listing(Wanted::Bluetooth)),
            services,
            at + 2,
            search,
        ),
        search.outcome == Ok::<Seq<char>, ErrorView>(device),
        services(at + 2 + search.requests.len(), RequestView::SavedConnection { name })
            == ReplyView::Saved(Ok(Some(profile))),
        performs(
            ProgressView::Pending(
                BluezResolveView::Checking { bdaddr: identity.bdaddr, adapter: identity.adapter },
            ),
            services,
            at + 3 + search.requests.len(),
            resolve,
        ),
        resolve.outcome == Ok::<Seq<char>, ErrorView>(specific_object),
    ensures
        ({
            let start = ProgressView::<ConnectBluetoothView, ()>::Pending(
                ConnectBluetoothView { name, identity, timeouts, stage: ConnectStageView::Opening },
            );
            let before = seq![RequestView::OpenManager, RequestView::CurrentBluetooth]
                + search.requests + seq![RequestView::SavedConnection { name }] + resolve.requests;
            let n = at + 3 + search.requests.len() + resolve.requests.len();
            let up = RequestView::ActivateConnection { profile, device, specific_object };
            match services(n, up) {
                ReplyView::Path(Err(error)) => performs(
                    start,
                    services,
                    at,
                    Run { requests: before + seq![up], outcome: Err(error) },
                ),
                ReplyView::Path(Ok(active)) => {
                    let wait = RequestView::AwaitActivation {
                        active,
                        timeout: match timeouts {
                            Some(config) => Some(config.connection_timeout),
                            None => None,
                        },
                    };
                    match services(n + 1, wait) {
                        ReplyView::Done(outcome) => performs(
                            start,
                            services,
                            at,
                            Run { requests: before + seq![up, wait], outcome },
                        ),
                        _ => true,
                    }
                },
                _ => true,
            }
        }),
{
    let c = ConnectBluetoothView { name, identity, timeouts, stage: ConnectStageView::Opening };
    let n = at + 3 + search.requests.len() + resolve.requests.len();
    let up = RequestView::ActivateConnection { profile, device, specific_object };
    match services(n, up) {
        ReplyView::Path(Err(error)) => {
            reveal_with_fuel(performs, 2);
            let rest = Run::<()> { requests: seq![up], outcome: Err(error) };
            lemma_whole(services, at, c, current, search, device, Some(profile), resolve, rest);
        },
        ReplyView::Path(Ok(active)) => {
            let wait = RequestView::AwaitActivation {
                active,
                timeout: match timeouts {
                    Some(config) => Some(config.connection_timeout),
                    None => None,
                },
            };
            if let ReplyView::Done(outcome) = services(n + 1, wait) {
                reveal_with_fuel(performs, 3);
                let rest = Run::<()> { requests: seq![up, wait], outcome };
                lemma_whole(services, at, c, current, search, device, Some(profile), resolve, rest);
            }
        },
        _ => {},
    }
}

/// Where no profile is saved under the name, a new one is made of the caller's name and device, such
/// that NetworkManager does not bring it up by itself, and activated on the hardware and for the
/// object that were found. Where that fails, its error is the outcome. Else the active connection
/// that it gave is waited for, as long as the caller's timeouts say, and the outcome of the wait,
/// be it success or an error, is that of the connection.
pub proof fn law_new_profile_is_made_and_waited_for(
    services: Services,
    at: int,
    name: Seq<char>,
    identity: BluetoothIdentityView,
    timeouts: Option<TimeoutConfig>,
    current: Option<Seq<char>>,
    search: Run<Seq<char>>,
    device: Seq<char>,
    resolve: Run<Seq<char>>,
    specific_object: Seq<char>,
)
    requires
        services(at, RequestView::OpenManager) matches ReplyView::Done(Ok(_)),
        services(at + 1, RequestView::CurrentBluetooth) == ReplyView::Current(current),
        current != Some(identity.bdaddr),
        performs(
            ProgressView::Pending(DeviceSearchView::Listing(Wanted::Bluetooth)),
            services,
            at + 2,
            search,
        ),
        search.outcome == Ok::<Seq<char>, ErrorView>(device),
        services(at + 2 + search.requests.len(), RequestView::SavedConnection { name })
            == ReplyView::Saved(Ok(None)),
        performs(
            ProgressView::Pending(
                BluezResolveView::Checking { bdaddr: identity.bdaddr, adapter: identity.adapter },
            ),
            services,
            at + 3 + search.requests.len(),
            resolve,
        ),
        resolve.outcome == Ok::<Seq<char>, ErrorView>(specific_object),
    ensures
        ({
            let start = ProgressView::<ConnectBluetoothView, ()>::Pending(
                ConnectBluetoothView { name, identity, timeouts, stage: ConnectStageView::Opening },
            );
            let before = seq![RequestView::OpenManager, RequestView::CurrentBluetooth]
                + search.requests + seq![RequestView::SavedConnection { name }] + resolve.requests;
            let n = at + 3 + search.requests.len() + resolve.requests.len();
            let up = RequestView::AddAndActivateBluetooth {
                name,
                identity,
                options: ConnectionOptions {
                    autoconnect: false,
                    autoconnect_priority: None,
                    autoconnect_retries: None,
                },
                device,
                specific_object,
            };
            match services(n, up) {
                ReplyView::Added(Err(error)) => performs(
                    start,
                    services,
                    at,
                    Run { requests: before + seq![up], outcome: Err(error) },
                ),
                ReplyView::Added(Ok((_, active))) => {
                    let wait = RequestView::AwaitActivation {
                        active,
                        timeout: match timeouts {
                            Some(config) => Some(config.connection_timeout),
                            None => None,
                        },
                    };
                    match services(n + 1, wait) {
                        ReplyView::Done(outcome) => performs(
                            start,
                            services,
                            at,
                            Run { requests: before + seq![up, wait], outcome },
                        ),
                        _ => true,
                    }
                },
                _ => true,
            }
        }),
{
    let c = ConnectBluetoothView { name, identity, timeouts, stage: ConnectStageView::Opening };
    let n = at + 3 + search.requests.len() + resolve.requests.len();
    let up = RequestView::AddAndActivateBluetooth {
        name,
        identity,
        options: ConnectionOptions {
            autoconnect: false,
            autoconnect_priority: None,
            autoconnect_retries: None,
        },
        device,
        specific_object,
    };
    match services(n, up) {
        ReplyView::Added(Err(error)) => {
            reveal_with_fuel(performs, 2);
            let rest = Run::<()> { requests: seq![up], outcome: Err(error) };
            lemma_whole(services, at, c, current, search, device, None, resolve, rest);
        },
        ReplyView::Added(Ok((_, active))) => {
            let wait = RequestView::AwaitActivation {
                active,
                timeout: match timeouts {
                    Some(config) => Some(config.connection_timeout),
                    None => None,
                },
            };
            if let ReplyView::Done(outcome) = services(n + 1, wait) {
                reveal_with_fuel(performs, 3);
                let rest = Run::<()> { requests: seq![up, wait], outcome };
                lemma_whole(services, at, c, current, search, device, None, resolve, rest);
            }
        },
        _ => {},
    }
}

proof fn lemma_whole(
    services: Services,
    at: int,
    c: ConnectBluetoothView,
    current: Option<Seq<char>>,
    search: Run<Seq<char>>,
    device: Seq<char>,
    saved: Option<Seq<char>>,
    resolve: Run<Seq<char>>,
    rest: Run<()>,
)
    requires
        c.stage is Opening,
        services(at, RequestView::OpenManager) matches ReplyView::Done(Ok(_)),
        services(at + 1, RequestView::CurrentBluetooth) == ReplyView::Current(current),
        current != Some(c.identity.bdaddr),
        performs(
            ProgressView::Pending(DeviceSearchView::Listing(Wanted::Bluetooth)),
            services,
            at + 2,
            search,
        ),
        search.outcome == Ok::<Seq<char>, ErrorView>(device),
        services(at + 2 + search.requests.len(), RequestView::SavedConnection { name: c.name })
            == ReplyView::Saved(Ok(saved)),
        performs(
            ProgressView::Pending(
                BluezResolveView::Checking {
                    bdaddr: c.identity.bdaddr,
                    adapter: c.identity.adapter,
                },
            ),
            services,
            at + 3 + search.requests.len(),
            resolve,
        ),
        performs(
            c.after_resolve(device, saved, resolve.outcome),
            services,
            at + 3 + search.requests.len() + resolve.requests.len(),
            rest,
        ),
    ensures
        performs(
            ProgressView::Pending(c),
            services,
            at,
            Run {
                requests: seq![RequestView::OpenManager, RequestView::CurrentBluetooth]
                    + search.requests + seq![RequestView::SavedConnection { name: c.name }]
                    + resolve.requests + rest.requests,
                outcome: rest.outcome,
            },
        ),
        rest.requests.len() == 0 ==> performs(
            ProgressView::Pending(c),
            services,
            at,
            Run {
                requests: seq![RequestView::OpenManager, RequestView::CurrentBluetooth]
                    + search.requests + seq![RequestView::SavedConnection { name: c.name }]
                    + resolve.requests,
                outcome: rest.outcome,
            },
        ),
{
    let first = seq![RequestView::OpenManager, RequestView::CurrentBluetooth];
    let look_up = seq![RequestView::SavedConnection { name: c.name }];
    lemma_after_look_up(
        services,
        at + 2 + search.requests.len(),
        c,
        device,
        saved,
        resolve,
        rest,
    );
    let middle = look_up + resolve.requests + rest.requests;
    lemma_after_search(
        services,
        at,
        c,
        current,
        search,
        Run { requests: middle, outcome: rest.outcome },
    );
    let whole = first + search.requests + look_up + resolve.requests;
    assert(first + search.requests + middle =~= whole + rest.requests);
    assert(rest.requests.len() == 0 ==> whole + rest.requests =~= whole);
}

/// A connection that succeeds, of a device that was not connected already, has brought an active
/// connection up, by activating a saved profile or making a new one, and its last request was to
/// wait for just that active connection, as long as the caller's timeouts say, which succeeded.
pub proof fn law_success_means_that_the_wait_succeeded(
    services: Services,
    at: int,
    name: Seq<char>,
    identity: BluetoothIdentityView,
    timeouts: Option<TimeoutConfig>,
    run: Run<()>,
)
    requires
        faithful(services),
        performs(
            ProgressView::Pending(
                ConnectBluetoothView { name, identity, timeouts, stage: ConnectStageView::Opening },
            ),
            services,
            at,
            run,
        ),
        run.outcome is Ok,
        services(at + 1, RequestView::CurrentBluetooth) != ReplyView::Current(
            Some(identity.bdaddr),
        ),
    ensures
        ({
            let n = run.requests.len() as int;
            &&& n >= 2
            &&& run.requests[n - 1] matches RequestView::AwaitActivation { active, timeout }
            &&& timeout == match timeouts {
                Some(config) => Some(config.connection_timeout),
                None => None,
            }
            &&& services(at + n - 1, run.requests[n - 1]) matches ReplyView::Done(Ok(_))
            &&& {
                ||| run.requests[n - 2] is ActivateConnection && services(
                    at + n - 2,
                    run.requests[n - 2],
                ) == ReplyView::Path(Ok(active))
                ||| run.requests[n - 2] is AddAndActivateBluetooth && (services(
                    at + n - 2,
                    run.requests[n - 2],
                ) matches ReplyView::Added(Ok((_, added))) && added == active)
            }
        }),
{
    let start = ProgressView::<ConnectBluetoothView, ()>::Pending(
        ConnectBluetoothView { name, identity, timeouts, stage: ConnectStageView::Opening },
    );
    let open = RequestView::OpenManager;
    let check = RequestView::CurrentBluetooth;
    assert(open.answered_by(services(at, open)));
    assert(check.answered_by(services(at + 1, check)));
    law_connected_device_ends_the_connection(services, at, name, identity, timeouts);
    if services(at, open)->Done_0 is Err {
        let failed = Run::<()> {
            requests: seq![open],
            outcome: Err(services(at, open)->Done_0->Err_0),
        };
        law_one_run_only(start, services, at, run, failed);
    }
    let current = services(at + 1, check)->Current_0;
    law_find_bluetooth_device(services, at + 2);
    let search = find_bluetooth_device_run(services, at + 2);
    law_connection_needs_hardware(
        services,
        at,
        name,
        identity,
        timeouts,
        current,
        search,
    );
    let asked = seq![open, check] + search.requests;
    if search.outcome is Err {
        let failed = Run::<()> { requests: asked, outcome: Err(search.outcome->Err_0) };
        law_one_run_only(start, services, at, run, failed);
    }
    let device = search.outcome->Ok_0;
    let look_up = RequestView::SavedConnection { name };
    let look_up_at = at + 2 + search.requests.len();
    assert(look_up.answered_by(services(look_up_at, look_up)));
    let found = services(look_up_at, look_up)->Saved_0;
    if found is Err {
        let failed = Run::<()> { requests: asked + seq![look_up], outcome: Err(found->Err_0) };
        law_one_run_only(start, services, at, run, failed);
    }
    let saved = found->Ok_0;
    law_resolve_bluez_device_path(services, look_up_at + 1, identity.bdaddr, identity.adapter);
    let resolve = resolve_bluez_device_path_run(
        services,
        look_up_at + 1,
        identity.bdaddr,
        identity.adapter,
    );
    let before = asked + seq![look_up] + resolve.requests;
    if resolve.outcome is Err {
        law_connection_needs_the_device_object(
            services,
            at,
            name,
            identity,
            timeouts,
            current,
            search,
            device,
            saved,
            resolve,
            resolve.outcome->Err_0,
        );
        let failed = Run::<()> { requests: before, outcome: Err(resolve.outcome->Err_0) };
        law_one_run_only(start, services, at, run, failed);
    }
    let specific_object = resolve.outcome->Ok_0;
    let n = at + 3 + search.requests.len() + resolve.requests.len();
    let timeout = match timeouts {
        Some(config) => Some(config.connection_timeout),
        None => None,
    };
    match saved {
        Some(profile) => {
            law_saved_profile_is_activated_and_waited_for(
                services,
                at,
                name,
                identity,
                timeouts,
                current,
                search,
                device,
                profile,
                resolve,
                specific_object,
            );
            let up = RequestView::ActivateConnection { profile, device, specific_object };
            assert(up.answered_by(services(n, up)));
            lemma_came_up(services, at, start, run, before, up, services(n, up)->Path_0, timeout);
        },
        None => {
            law_new_profile_is_made_and_waited_for(
                services,
                at,
                name,
                identity,
                timeouts,
                current,
                search,
                device,
                resolve,
                specific_object,
            );
            let up = RequestView::AddAndActivateBluetooth {
                name,
                identity,
                options: ConnectionOptions {
                    autoconnect: false,
                    autoconnect_priority: None,
                    autoconnect_retries: None,
                },
                device,
                specific_object,
            };
            assert(up.answered_by(services(n, up)));
            let active = match services(n, up)->Added_0 {
                Ok((_, active)) => Ok(active),
                Err(error) => Err(error),
            };
            lemma_came_up(services, at, start, run, before, up, active, timeout);
        },
    }
}

proof fn lemma_came_up(
    services: Services,
    at: int,
    start: ProgressView<ConnectBluetoothView, ()>,
    run: Run<()>,
    before: Seq<RequestView>,
    up: RequestView,
    active: Result<Seq<char>, ErrorView>,
    timeout: Option<Duration>,
)
    requires
        faithful(services),
        performs(start, services, at, run),
        run.outcome is Ok,
        match active {
            Err(error) => performs(
                start,
                services,
                at,
                Run { requests: before + seq![up], outcome: Err(error) },
            ),
            Ok(active) => {
                let wait = RequestView::AwaitActivation { active, timeout };
                services(at + before.len() + 1, wait) is Done ==> performs(
                    start,
                    services,
                    at,
                    Run {
                        requests: before + seq![up, wait],
                        outcome: services(at + before.len() + 1, wait)->Done_0,
                    },
                )
            },
        },
    ensures
        active is Ok,
        ({
            let wait = RequestView::AwaitActivation { active: active->Ok_0, timeout };
            &&& run.requests == before + seq![up, wait]
            &&& services(at + before.len() + 1, wait) matches ReplyView::Done(Ok(_))
        }),
{
    match active {
        Err(error) => {
            law_one_run_only(
                start,
                services,
                at,
                run,
                Run { requests: before + seq![up], outcome: Err(error) },
            );
        },
        Ok(active) => {
            let wait = RequestView::AwaitActivation { active, timeout };
            let reply = services(at + before.len() + 1, wait);
            assert(wait.answered_by(reply));
            law_one_run_only(
                start,
                services,
                at,
                run,
                Run { requests: before + seq![up, wait], outcome: reply->Done_0 },
            );
        },
    }
}

/// The disconnection reads the state of the device. A device whose state is 20 or 30 is left as it
/// is, and that is success. Every other device is told to disconnect and, once it has been told,
/// waited for, as long as the caller's timeouts say; the outcome of the wait is that of the
/// disconnection. The first step that fails ends it with its error.
pub proof fn law_only_idle_devices_are_left_connected(
    services: Services,
    at: int,
    device: Seq<char>,
    timeouts: Option<TimeoutConfig>,
)
    ensures
        ({
            let start = ProgressView::<DisconnectBluetoothView, ()>::Pending(
                DisconnectBluetoothView { device, timeouts, stage: DisconnectStage::ReadingState },
            );
            let read = RequestView::DeviceState { device };
            let disconnect = RequestView::Disconnect { device };
            let wait = RequestView::AwaitDisconnect {
                device,
                timeout: match timeouts {
                    Some(config) => Some(config.disconnect_timeout),
                    None => None,
                },
            };
            match services(at, read) {
                ReplyView::Number(Err(error)) => performs(
                    start,
                    services,
                    at,
                    Run { requests: seq![read], outcome: Err(error) },
                ),
                ReplyView::Number(Ok(state)) => if state == 20 || state == 30 {
                    performs(start, services, at, Run { requests: seq![read], outcome: Ok(()) })
                } else {
                    match services(at + 1, disconnect) {
                        ReplyView::Done(Err(error)) => performs(
                            start,
                            services,
                            at,
                            Run { requests: seq![read, disconnect], outcome: Err(error) },
                        ),
                        ReplyView::Done(Ok(_)) => match services(at + 2, wait) {
                            ReplyView::Done(outcome) => performs(
                                start,
                                services,
                                at,
                                Run { requests: seq![read, disconnect, wait], outcome },
                            ),
                            _ => true,
                        },
                        _ => true,
                    }
                },
                _ => true,
            }
        }),
{
    reveal_with_fuel(performs, 4);
}

} // verus!
