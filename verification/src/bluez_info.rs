//! The names that BlueZ has for a Bluetooth device.
//!
//! NetworkManager does not tell them, so BlueZ is asked. The names are a convenience: where
//! BlueZ cannot be asked or does not know the device, there are none, and that is no error.

use vstd::prelude::*;

use crate::bluez::adapter_path;
use crate::bluez_lookup::{
    law_resolve_bluez_device_path, law_stray_reply_leaves_resolve, resolve_bluez_device_path,
    resolve_bluez_device_path_run, BluezResolve, BluezResolveView,
};
use crate::error::{ConnectionError, ErrorView};
use crate::object_path::ObjectPath;
use crate::protocol::{Progress, ProgressView, Reply, ReplyView, Request, RequestView};
use crate::run::{
    asked, continued, faithful, lemma_continued, lemma_step, performs, settled, Procedure, Run,
    Services,
};

verus! {

/// The name and the alias of a device.
pub type NamesView = (Option<Seq<char>>, Option<Seq<char>>);

/// The search for the name and the alias of a Bluetooth device.
pub enum BluezInfo {
    /// The address is being checked.
    Checking { bdaddr: String, adapter: Option<String> },
    /// The path of the device is being looked for.
    Resolving(BluezResolve),
    /// The device object is being opened.
    Opening { device: ObjectPath },
    /// The name is being read.
    Naming { device: ObjectPath },
    /// The alias is being read.
    Aliasing { device: ObjectPath, name: Option<String> },
}

/// The mathematical value of a [`BluezInfo`].
pub enum BluezInfoView {
    Checking { bdaddr: Seq<char>, adapter: Option<Seq<char>> },
    Resolving(BluezResolveView),
    Opening { device: Seq<char> },
    Naming { device: Seq<char> },
    Aliasing { device: Seq<char>, name: Option<Seq<char>> },
}

impl DeepView for BluezInfo {
    type V = BluezInfoView;

    open spec fn deep_view(&self) -> BluezInfoView {
        match *self {
            BluezInfo::Checking { bdaddr, adapter } => BluezInfoView::Checking {
                bdaddr: bdaddr@,
                adapter: adapter.deep_view(),
            },
            BluezInfo::Resolving(resolve) => BluezInfoView::Resolving(resolve.deep_view()),
            BluezInfo::Opening { device } => BluezInfoView::Opening { device: device@ },
            BluezInfo::Naming { device } => BluezInfoView::Naming { device: device@ },
            BluezInfo::Aliasing { device, name } => BluezInfoView::Aliasing {
                device: device@,
                name: name.deep_view(),
            },
        }
    }
}

/// The text that was read, if it could be.
pub open spec fn readable(text: Result<Seq<char>, ErrorView>) -> Option<Seq<char>> {
    match text {
        Ok(text) => Some(text),
        Err(_) => None,
    }
}

/// How the search goes on once the path of the device has been looked for.
pub open spec fn after_path(path: Result<Seq<char>, ErrorView>) -> ProgressView<
    BluezInfoView,
    NamesView,
> {
    match path {
        Ok(device) => ProgressView::Pending(BluezInfoView::Opening { device }),
        Err(ErrorView::NoBluetoothDevice) => ProgressView::Finished(Ok((None, None))),
        Err(ErrorView::BluezUnavailable(_)) => ProgressView::Finished(Ok((None, None))),
        Err(error) => ProgressView::Finished(Err(error)),
    }
}

impl Procedure for BluezInfoView {
    type Output = NamesView;

    open spec fn request(self) -> RequestView {
        match self {
            BluezInfoView::Checking { bdaddr, .. } => RequestView::CheckAddress { bdaddr },
            BluezInfoView::Resolving(resolve) => resolve.request(),
            BluezInfoView::Opening { device } => RequestView::OpenBluezDevice { device },
            BluezInfoView::Naming { device } => RequestView::BluezName { device },
            BluezInfoView::Aliasing { device, .. } => RequestView::BluezAlias { device },
        }
    }

    open spec fn resumed(self, reply: ReplyView) -> ProgressView<BluezInfoView, NamesView> {
        match (self, reply) {
            (BluezInfoView::Checking { bdaddr, adapter }, ReplyView::Done(Ok(_))) =>
                ProgressView::Pending(
                    BluezInfoView::Resolving(BluezResolveView::Checking { bdaddr, adapter }),
                ),
            (BluezInfoView::Checking { .. }, ReplyView::Done(Err(error))) => ProgressView::Finished(
                Err(error),
            ),
            (BluezInfoView::Resolving(resolve), _) => continued(
                resolve.resumed(reply),
                |resolve: BluezResolveView| BluezInfoView::Resolving(resolve),
                |path: Result<Seq<char>, ErrorView>| after_path(path),
            ),
            (
                BluezInfoView::Opening { device },
                ReplyView::DeviceOpened(Ok(opened)),
            ) => if opened {
                ProgressView::Pending(BluezInfoView::Naming { device })
            } else {
                ProgressView::Finished(Ok((None, None)))
            },
            (BluezInfoView::Opening { .. }, ReplyView::DeviceOpened(Err(error))) =>
                ProgressView::Finished(Err(error)),
            (BluezInfoView::Naming { device }, ReplyView::Text(text)) => ProgressView::Pending(
                BluezInfoView::Aliasing { device, name: readable(text) },
            ),
            (BluezInfoView::Aliasing { name, .. }, ReplyView::Text(text)) => ProgressView::Finished(
                Ok((name, readable(text))),
            ),
            (state, _) => ProgressView::Pending(state),
        }
    }
}

/// The start of the search for the name and the alias of the device with the address `bdaddr`.
pub fn populate_bluez_info(bdaddr: String, adapter: Option<String>) -> (info: BluezInfo)
    ensures
        info.deep_view() == (BluezInfoView::Checking {
            bdaddr: bdaddr@,
            adapter: adapter.deep_view(),
        }),
{
    BluezInfo::Checking { bdaddr, adapter }
}

impl BluezInfo {
    /// The request whose reply the search waits for.
    pub fn request(&self) -> (request: Request<'_>)
        ensures
            request.deep_view() == self.deep_view().request(),
    {
        match self {
            BluezInfo::Checking { bdaddr, .. } => Request::CheckAddress { bdaddr: bdaddr.clone() },
            BluezInfo::Resolving(resolve) => resolve.request(),
            BluezInfo::Opening { device } => Request::OpenBluezDevice { device: device.clone() },
            BluezInfo::Naming { device } => Request::BluezName { device: device.clone() },
            BluezInfo::Aliasing { device, .. } => Request::BluezAlias { device: device.clone() },
        }
    }

    /// How the search goes on once it has the reply; a reply to another request changes
    /// nothing.
    pub fn resume(self, reply: Reply) -> (progress: Progress<
        BluezInfo,
        (Option<String>, Option<String>),
    >)
        ensures
            progress.deep_view() == self.deep_view().resumed(reply.deep_view()),
    {
        match (self, reply) {
            (BluezInfo::Checking { bdaddr, adapter }, Reply::Done(Ok(_))) => Progress::Pending(
                BluezInfo::Resolving(resolve_bluez_device_path(bdaddr, adapter)),
            ),
            (BluezInfo::Checking { .. }, Reply::Done(Err(error))) => Progress::Finished(Err(error)),
            (BluezInfo::Resolving(resolve), reply) => match resolve.resume(reply) {
                Progress::Pending(resolve) => Progress::Pending(BluezInfo::Resolving(resolve)),
                Progress::Finished(Ok(device)) => Progress::Pending(BluezInfo::Opening { device }),
                Progress::Finished(Err(error)) => match error {
                    ConnectionError::NoBluetoothDevice
                    | ConnectionError::BluezUnavailable(_) => Progress::Finished(Ok((None, None))),
                    error => Progress::Finished(Err(error)),
                },
            },
            (BluezInfo::Opening { device }, Reply::DeviceOpened(Ok(opened))) => {
                if opened {
                    Progress::Pending(BluezInfo::Naming { device })
                } else {
                    Progress::Finished(Ok((None, None)))
                }
            },
            (BluezInfo::Opening { .. }, Reply::DeviceOpened(Err(error))) => Progress::Finished(
                Err(error),
            ),
            (BluezInfo::Naming { device }, Reply::Text(text)) => Progress::Pending(
                BluezInfo::Aliasing { device, name: text.ok() },
            ),
            (BluezInfo::Aliasing { name, .. }, Reply::Text(text)) => Progress::Finished(
                Ok((name, text.ok())),
            ),
            (state, _) => Progress::Pending(state),
        }
    }
}

/// The run from the path of the device on.
pub open spec fn names_run(
    services: Services,
    at: int,
    path: Result<Seq<char>, ErrorView>,
) -> Run<NamesView> {
    match path {
        Err(ErrorView::NoBluetoothDevice) => settled(Ok((None, None))),
        Err(ErrorView::BluezUnavailable(_)) => settled(Ok((None, None))),
        Err(error) => settled(Err(error)),
        Ok(device) => {
            let open = RequestView::OpenBluezDevice { device };
            let name = RequestView::BluezName { device };
            let alias = RequestView::BluezAlias { device };
            match services(at, open)->DeviceOpened_0 {
                Err(error) => asked(open, Err(error)),
                Ok(opened) => if opened {
                    Run {
                        requests: seq![open, name, alias],
                        outcome: Ok(
                            (
                                readable(services(at + 1, name)->Text_0),
                                readable(services(at + 2, alias)->Text_0),
                            ),
                        ),
                    }
                } else {
                    asked(open, Ok((None, None)))
                },
            }
        },
    }
}

/// The run of [`populate_bluez_info`]: the address is checked, the path of the device is looked
/// for, and the names are read there.
pub open spec fn populate_bluez_info_run(
    services: Services,
    at: int,
    bdaddr: Seq<char>,
    adapter: Option<Seq<char>>,
) -> Run<NamesView> {
    let check = RequestView::CheckAddress { bdaddr };
    asked(check, services(at, check)->Done_0).followed_by(
        |_checked: ()|
            {
                let resolve = resolve_bluez_device_path_run(services, at + 1, bdaddr, adapter);
                let names = names_run(
                    services,
                    at + 1 + resolve.requests.len(),
                    resolve.outcome,
                );
                Run { requests: resolve.requests + names.requests, outcome: names.outcome }
            },
    )
}

proof fn lemma_names(services: Services, at: int, path: Result<Seq<char>, ErrorView>)
    requires
        faithful(services),
    ensures
        performs(after_path(path), services, at, names_run(services, at, path)),
{
    if path is Ok {
        let device = path->Ok_0;
        let p = BluezInfoView::Opening { device };
        let q = BluezInfoView::Naming { device };
        let opened = services(at, p.request());
        let named = services(at + 1, q.request());
        assert(p.request().answered_by(opened));
        assert(q.request().answered_by(named));
        let r = BluezInfoView::Aliasing { device, name: readable(named->Text_0) };
        let aliased = services(at + 2, r.request());
        assert(r.request().answered_by(aliased));
        let run = names_run(services, at, path);
        match opened->DeviceOpened_0 {
            Err(error) => {
                lemma_step(p, services, at, settled(run.outcome));
            },
            Ok(opened) => {
                if opened {
                    lemma_step(r, services, at + 2, settled(run.outcome));
                    lemma_step(q, services, at + 1, asked(r.request(), run.outcome));
                    let rest = Run {
                        requests: seq![q.request()] + seq![r.request()],
                        outcome: run.outcome,
                    };
                    lemma_step(p, services, at, rest);
                    assert(run.requests =~= seq![p.request()] + rest.requests);
                } else {
                    lemma_step(p, services, at, settled(run.outcome));
                }
            },
        }
    }
}

/// Whatever the services answer, the search that [`populate_bluez_info`] starts runs as
/// [`populate_bluez_info_run`] says.
pub proof fn law_populate_bluez_info(
    services: Services,
    at: int,
    bdaddr: Seq<char>,
    adapter: Option<Seq<char>>,
)
    requires
        faithful(services),
    ensures
        performs(
            ProgressView::Pending(BluezInfoView::Checking { bdaddr, adapter }),
            services,
            at,
            populate_bluez_info_run(services, at, bdaddr, adapter),
        ),
{
    let p = BluezInfoView::Checking { bdaddr, adapter };
    let checked = services(at, p.request());
    assert(p.request().answered_by(checked));
    match checked->Done_0 {
        Err(error) => {
            lemma_step(p, services, at, settled(Err(error)));
        },
        Ok(_) => {
            let resolve = resolve_bluez_device_path_run(services, at + 1, bdaddr, adapter);
            let then_at = at + 1 + resolve.requests.len();
            let names = names_run(services, then_at, resolve.outcome);
            law_resolve_bluez_device_path(services, at + 1, bdaddr, adapter);
            lemma_names(services, then_at, resolve.outcome);
            lemma_continued(
                ProgressView::Pending(BluezResolveView::Checking { bdaddr, adapter }),
                |resolve: BluezResolveView| BluezInfoView::Resolving(resolve),
                |path: Result<Seq<char>, ErrorView>| after_path(path),
                services,
                at + 1,
                resolve,
                names,
            );
            lemma_step(
                p,
                services,
                at,
                Run { requests: resolve.requests + names.requests, outcome: names.outcome },
            );
        },
    }
}

/// Where the address passes both checks and no adapter is given, the names are never an error
/// on account of BlueZ: where BlueZ cannot be opened, cannot list its objects or does not know
/// the device, there is neither a name nor an alias.
pub proof fn law_missing_names_are_no_error(services: Services, at: int, bdaddr: Seq<char>)
    requires
        services(at, RequestView::CheckAddress { bdaddr }) == ReplyView::Done(Ok(())),
        services(at + 1, RequestView::CheckAddress { bdaddr }) == ReplyView::Done(Ok(())),
        resolve_bluez_device_path_run(services, at + 1, bdaddr, None).outcome is Err,
    ensures
        populate_bluez_info_run(services, at, bdaddr, None).outcome == Ok::<NamesView, ErrorView>(
            (None, None),
        ),
{
    let check = RequestView::CheckAddress { bdaddr };
    assert(services(at, check)->Done_0 is Ok);
    assert(services(at + 1, check)->Done_0 is Ok);
}

/// Whether an error says that BlueZ cannot be asked or does not know the device.
pub open spec fn is_about_bluez(error: ErrorView) -> bool {
    error is NoBluetoothDevice || error is BluezUnavailable
}

/// Whatever BlueZ answers, the search fails exactly if one of the two checks refuses the address,
/// the adapter makes no path of it, or the path of the device that was found is not accepted; and
/// the error is the one of the first of these. The one exception is a second check whose error
/// says the same as one about BlueZ would: it is taken for that.
pub proof fn law_when_names_are_an_error(
    services: Services,
    at: int,
    bdaddr: Seq<char>,
    adapter: Option<Seq<char>>,
)
    ensures
        ({
            let check = RequestView::CheckAddress { bdaddr };
            let first = services(at, check)->Done_0;
            let second = services(at + 1, check)->Done_0;
            let resolve = resolve_bluez_device_path_run(services, at + 1, bdaddr, adapter);
            let outcome = populate_bluez_info_run(services, at, bdaddr, adapter).outcome;
            if first is Err {
                outcome == Err::<NamesView, ErrorView>(first->Err_0)
            } else if second is Err {
                if is_about_bluez(second->Err_0) {
                    outcome == Ok::<NamesView, ErrorView>((None, None))
                } else {
                    outcome == Err::<NamesView, ErrorView>(second->Err_0)
                }
            } else if adapter is Some && adapter_path(bdaddr, adapter->0) is Err {
                outcome == Err::<NamesView, ErrorView>(adapter_path(bdaddr, adapter->0)->Err_0)
            } else {
                match resolve.outcome {
                    Ok(device) => {
                        let opened = services(
                            at + 1 + resolve.requests.len(),
                            RequestView::OpenBluezDevice { device },
                        )->DeviceOpened_0;
                        if opened is Err {
                            outcome == Err::<NamesView, ErrorView>(opened->Err_0)
                        } else {
                            outcome is Ok
                        }
                    },
                    Err(_) => outcome is Ok,
                }
            }
        }),
{
}

/// BlueZ alone never makes the search fail. Where both checks of the address give the same answer
/// and no path of a device object is refused, the search fails exactly if the address is refused
/// or the adapter makes no path of it, with that error: not where BlueZ cannot be opened, cannot
/// list its objects or does not know the device, nor where the device object cannot be opened or
/// a name cannot be read.
pub proof fn law_bluez_never_fails_the_names(
    services: Services,
    at: int,
    bdaddr: Seq<char>,
    adapter: Option<Seq<char>>,
    valid: Result<(), ErrorView>,
)
    requires
        services(at, RequestView::CheckAddress { bdaddr }) == ReplyView::Done(valid),
        services(at + 1, RequestView::CheckAddress { bdaddr }) == ReplyView::Done(valid),
        forall|n: int, device: Seq<char>|
            (#[trigger] services(n, RequestView::OpenBluezDevice { device }))->DeviceOpened_0 is Ok,
    ensures
        ({
            let outcome = populate_bluez_info_run(services, at, bdaddr, adapter).outcome;
            &&& outcome is Err <==> valid is Err || (adapter matches Some(a) && adapter_path(
                bdaddr,
                a,
            ) is Err)
            &&& valid is Err ==> outcome == Err::<NamesView, ErrorView>(valid->Err_0)
            &&& valid is Ok && outcome is Err ==> outcome == Err::<NamesView, ErrorView>(
                adapter_path(bdaddr, adapter->0)->Err_0,
            )
        }),
{
    law_when_names_are_an_error(services, at, bdaddr, adapter);
}

/// Where the path of the device has been found, the names are those that can be read there: a
/// device object that cannot be opened has neither, and a name that cannot be read is left out.
pub proof fn law_readable_names_are_reported(
    services: Services,
    at: int,
    bdaddr: Seq<char>,
    adapter: Option<Seq<char>>,
    device: Seq<char>,
    opened: bool,
)
    requires
        services(at, RequestView::CheckAddress { bdaddr }) == ReplyView::Done(Ok(())),
        ({
            let resolve = resolve_bluez_device_path_run(services, at + 1, bdaddr, adapter);
            &&& resolve.outcome == Ok::<Seq<char>, ErrorView>(device)
            &&& services(
                at + 1 + resolve.requests.len(),
                RequestView::OpenBluezDevice { device },
            ) == ReplyView::DeviceOpened(Ok(opened))
        }),
    ensures
        ({
            let resolve = resolve_bluez_device_path_run(services, at + 1, bdaddr, adapter);
            let open_at = at + 1 + resolve.requests.len();
            let name = services(open_at + 1, RequestView::BluezName { device })->Text_0;
            let alias = services(open_at + 2, RequestView::BluezAlias { device })->Text_0;
            populate_bluez_info_run(services, at, bdaddr, adapter).outcome == Ok::<
                NamesView,
                ErrorView,
            >(
                if opened {
                    (readable(name), readable(alias))
                } else {
                    (None, None)
                },
            )
        }),
{
    let check = RequestView::CheckAddress { bdaddr };
    assert(services(at, check)->Done_0 is Ok);
}

/// An address that is refused is reported, and BlueZ is not asked.
pub proof fn law_refused_address_is_reported(
    services: Services,
    at: int,
    bdaddr: Seq<char>,
    adapter: Option<Seq<char>>,
    error: ErrorView,
)
    requires
        services(at, RequestView::CheckAddress { bdaddr }) == ReplyView::Done(Err(error)),
    ensures
        populate_bluez_info_run(services, at, bdaddr, adapter) == asked::<NamesView>(
            RequestView::CheckAddress { bdaddr },
            Err(error),
        ),
        resolve_bluez_device_path_run(services, at, bdaddr, adapter) == asked::<Seq<char>>(
            RequestView::CheckAddress { bdaddr },
            Err(error),
        ),
{
}

/// A reply that does not answer the request that the search waits for changes nothing.
pub proof fn law_stray_reply_leaves_info(state: BluezInfoView, reply: ReplyView)
    requires
        !Procedure::request(state).answered_by(reply),
    ensures
        state.resumed(reply) == ProgressView::<BluezInfoView, NamesView>::Pending(state),
{
    if let BluezInfoView::Resolving(resolve) = state {
        law_stray_reply_leaves_resolve(resolve, reply);
    }
}

} // verus!
