//! Asking BlueZ for the objects it manages and for the path of a device.

use vstd::prelude::*;

use crate::bluez::{
    adapter_path, bluez_device_path_for_adapter, find_bluez_device_path, first_with_address,
};
use crate::error::{ConnectionError, ErrorView};
use crate::models::{ManagedObject, ManagedObjectView};
use crate::object_path::ObjectPath;
use crate::protocol::{
    BluezOpenFailure, BluezOpenFailureView, Progress, ProgressView, Reply, ReplyView, Request,
    RequestView,
};
use crate::run::{
    asked, continued, faithful, lemma_continued, lemma_step, performs, settled, Procedure, Run,
    Services,
};
use crate::text::joined;

verus! {

/// The enumeration of the objects that BlueZ manages.
pub enum BluezListing {
    /// The object manager is being opened.
    Opening,
    /// The objects are being listed.
    Enumerating,
}

impl DeepView for BluezListing {
    type V = BluezListing;

    open spec fn deep_view(&self) -> BluezListing {
        *self
    }
}

/// The error where the object manager cannot be opened.
pub open spec fn open_error(failure: BluezOpenFailureView) -> ErrorView {
    match failure {
        BluezOpenFailureView::Address(message) => ErrorView::BluezUnavailable(message),
        BluezOpenFailureView::Connect(message) => ErrorView::BluezUnavailable(
            "failed to connect to BlueZ: "@ + message,
        ),
    }
}

/// The error where the objects cannot be listed.
pub open spec fn enumerate_error(message: Seq<char>) -> ErrorView {
    ErrorView::BluezUnavailable("failed to enumerate BlueZ objects: "@ + message)
}

impl Procedure for BluezListing {
    type Output = Seq<ManagedObjectView>;

    open spec fn request(self) -> RequestView {
        match self {
            BluezListing::Opening => RequestView::OpenBluez,
            BluezListing::Enumerating => RequestView::ListManagedObjects,
        }
    }

    open spec fn resumed(self, reply: ReplyView) -> ProgressView<
        BluezListing,
        Seq<ManagedObjectView>,
    > {
        match (self, reply) {
            (BluezListing::Opening, ReplyView::BluezOpened(Ok(_))) => ProgressView::Pending(
                BluezListing::Enumerating,
            ),
            (BluezListing::Opening, ReplyView::BluezOpened(Err(failure))) => ProgressView::Finished(
                Err(open_error(failure)),
            ),
            (BluezListing::Enumerating, ReplyView::ManagedObjects(Ok(objects))) =>
                ProgressView::Finished(Ok(objects)),
            (BluezListing::Enumerating, ReplyView::ManagedObjects(Err(message))) =>
                ProgressView::Finished(Err(enumerate_error(message))),
            (state, _) => ProgressView::Pending(state),
        }
    }
}

/// The start of the enumeration of the objects that BlueZ manages.
pub fn bluez_managed_objects() -> (listing: BluezListing)
    ensures
        listing.deep_view() == BluezListing::Opening,
{
    BluezListing::Opening
}

impl BluezListing {
    /// The request whose reply the enumeration waits for.
    pub fn request(&self) -> (request: Request<'_>)
        ensures
            request.deep_view() == Procedure::request(self.deep_view()),
    {
        match self {
            BluezListing::Opening => Request::OpenBluez,
            BluezListing::Enumerating => Request::ListManagedObjects,
        }
    }

    /// How the enumeration goes on once it has the reply; a reply to another request changes
    /// nothing.
    pub fn resume(self, reply: Reply) -> (progress: Progress<BluezListing, Vec<ManagedObject>>)
        ensures
            progress.deep_view() == self.deep_view().resumed(reply.deep_view()),
    {
        match (self, reply) {
            (BluezListing::Opening, Reply::BluezOpened(Ok(_))) => Progress::Pending(
                BluezListing::Enumerating,
            ),
            (BluezListing::Opening, Reply::BluezOpened(Err(failure))) => Progress::Finished(
                Err(
                    ConnectionError::BluezUnavailable(
                        match failure {
                            BluezOpenFailure::Address(message) => message,
                            BluezOpenFailure::Connect(message) => joined(
                                "failed to connect to BlueZ: ",
                                message.as_str(),
                            ),
                        },
                    ),
                ),
            ),
            (BluezListing::Enumerating, Reply::ManagedObjects(Ok(objects))) => Progress::Finished(
                Ok(objects),
            ),
            (BluezListing::Enumerating, Reply::ManagedObjects(Err(message))) => Progress::Finished(
                Err(
                    ConnectionError::BluezUnavailable(
                        joined("failed to enumerate BlueZ objects: ", message.as_str()),
                    ),
                ),
            ),
            (state, _) => Progress::Pending(state),
        }
    }
}

/// The run of [`bluez_managed_objects`].
pub open spec fn bluez_managed_objects_run(services: Services, at: int) -> Run<
    Seq<ManagedObjectView>,
> {
    match services(at, RequestView::OpenBluez)->BluezOpened_0 {
        Err(failure) => asked(RequestView::OpenBluez, Err(open_error(failure))),
        Ok(_) => Run {
            requests: seq![RequestView::OpenBluez, RequestView::ListManagedObjects],
            outcome: match services(at + 1, RequestView::ListManagedObjects)->ManagedObjects_0 {
                Ok(objects) => Ok(objects),
                Err(message) => Err(enumerate_error(message)),
            },
        },
    }
}

/// Whatever the services answer, the enumeration that [`bluez_managed_objects`] starts runs as
/// [`bluez_managed_objects_run`] says.
pub proof fn law_bluez_managed_objects(services: Services, at: int)
    requires
        faithful(services),
    ensures
        performs(
            ProgressView::Pending(BluezListing::Opening),
            services,
            at,
            bluez_managed_objects_run(services, at),
        ),
{
    let p = BluezListing::Opening;
    let q = BluezListing::Enumerating;
    let opened = services(at, Procedure::request(p));
    let listed = services(at + 1, Procedure::request(q));
    assert(Procedure::request(p).answered_by(opened));
    assert(Procedure::request(q).answered_by(listed));
    let run = bluez_managed_objects_run(services, at);
    match opened->BluezOpened_0 {
        Err(failure) => {
            lemma_step(p, services, at, settled(run.outcome));
        },
        Ok(_) => {
            lemma_step(q, services, at + 1, settled(run.outcome));
            lemma_step(p, services, at, asked(RequestView::ListManagedObjects, run.outcome));
            assert(run.requests =~= seq![RequestView::OpenBluez]
                + seq![RequestView::ListManagedObjects]);
        },
    }
}

/// The search for the path of a Bluetooth device.
pub enum BluezResolve {
    /// The address is being checked.
    Checking { bdaddr: String, adapter: Option<String> },
    /// The objects of BlueZ are being listed.
    Listing { bdaddr: String, listing: BluezListing },
}

/// The mathematical value of a [`BluezResolve`].
pub enum BluezResolveView {
    Checking { bdaddr: Seq<char>, adapter: Option<Seq<char>> },
    Listing { bdaddr: Seq<char>, listing: BluezListing },
}

impl DeepView for BluezResolve {
    type V = BluezResolveView;

    open spec fn deep_view(&self) -> BluezResolveView {
        match *self {
            BluezResolve::Checking { bdaddr, adapter } => BluezResolveView::Checking {
                bdaddr: bdaddr@,
                adapter: adapter.deep_view(),
            },
            BluezResolve::Listing { bdaddr, listing } => BluezResolveView::Listing {
                bdaddr: bdaddr@,
                listing,
            },
        }
    }
}

/// The path of the device with an address among the objects that were listed.
pub open spec fn path_among(
    bdaddr: Seq<char>,
    listed: Result<Seq<ManagedObjectView>, ErrorView>,
) -> Result<Seq<char>, ErrorView> {
    match listed {
        Ok(objects) => match first_with_address(objects, bdaddr) {
            Some(path) => Ok(path),
            None => Err(ErrorView::NoBluetoothDevice),
        },
        Err(error) => Err(error),
    }
}

impl Procedure for BluezResolveView {
    type Output = Seq<char>;

    open spec fn request(self) -> RequestView {
        match self {
            BluezResolveView::Checking { bdaddr, .. } => RequestView::CheckAddress { bdaddr },
            BluezResolveView::Listing { listing, .. } => Procedure::request(listing),
        }
    }

    open spec fn resumed(self, reply: ReplyView) -> ProgressView<BluezResolveView, Seq<char>> {
        match (self, reply) {
            (
                BluezResolveView::Checking { bdaddr, adapter },
                ReplyView::Done(Ok(_)),
            ) => match adapter {
                Some(adapter) => ProgressView::Finished(adapter_path(bdaddr, adapter)),
                None => ProgressView::Pending(
                    BluezResolveView::Listing { bdaddr, listing: BluezListing::Opening },
                ),
            },
            (BluezResolveView::Checking { .. }, ReplyView::Done(Err(error))) =>
                ProgressView::Finished(Err(error)),
            (BluezResolveView::Checking { .. }, _) => ProgressView::Pending(self),
            (BluezResolveView::Listing { bdaddr, listing }, _) => continued(
                listing.resumed(reply),
                |listing: BluezListing| BluezResolveView::Listing { bdaddr, listing },
                |listed: Result<Seq<ManagedObjectView>, ErrorView>|
                    ProgressView::Finished(path_among(bdaddr, listed)),
            ),
        }
    }
}

/// The start of the search for the path of the device with the address `bdaddr`: at `adapter`
/// if it is given, and else wherever BlueZ lists the device.
pub fn resolve_bluez_device_path(bdaddr: String, adapter: Option<String>) -> (resolve: BluezResolve)
    ensures
        resolve.deep_view() == (BluezResolveView::Checking {
            bdaddr: bdaddr@,
            adapter: adapter.deep_view(),
        }),
{
    BluezResolve::Checking { bdaddr, adapter }
}

impl BluezResolve {
    /// The request whose reply the search waits for.
    pub fn request(&self) -> (request: Request<'_>)
        ensures
            request.deep_view() == self.deep_view().request(),
    {
        match self {
            BluezResolve::Checking { bdaddr, .. } => Request::CheckAddress {
                bdaddr: bdaddr.clone(),
            },
            BluezResolve::Listing { listing, .. } => listing.request(),
        }
    }

    /// How the search goes on once it has the reply; a reply to another request changes
    /// nothing.
    pub fn resume(self, reply: Reply) -> (progress: Progress<BluezResolve, ObjectPath>)
        ensures
            progress.deep_view() == self.deep_view().resumed(reply.deep_view()),
    {
        match self {
            BluezResolve::Checking { bdaddr, adapter } => match reply {
                Reply::Done(Ok(_)) => match adapter {
                    Some(adapter) => Progress::Finished(
                        bluez_device_path_for_adapter(bdaddr.as_str(), adapter.as_str()),
                    ),
                    None => Progress::Pending(
                        BluezResolve::Listing { bdaddr, listing: bluez_managed_objects() },
                    ),
                },
                Reply::Done(Err(error)) => Progress::Finished(Err(error)),
                _ => Progress::Pending(BluezResolve::Checking { bdaddr, adapter }),
            },
            BluezResolve::Listing { bdaddr, listing } => match listing.resume(reply) {
                Progress::Pending(listing) => Progress::Pending(
                    BluezResolve::Listing { bdaddr, listing },
                ),
                Progress::Finished(Ok(objects)) => match find_bluez_device_path(
                    &objects,
                    bdaddr.as_str(),
                ) {
                    Some(path) => Progress::Finished(Ok(path)),
                    None => Progress::Finished(Err(ConnectionError::NoBluetoothDevice)),
                },
                Progress::Finished(Err(error)) => Progress::Finished(Err(error)),
            },
        }
    }
}

/// The run of [`resolve_bluez_device_path`]: the address is checked first; an adapter decides
/// the path by itself, and without one BlueZ is asked.
pub open spec fn resolve_bluez_device_path_run(
    services: Services,
    at: int,
    bdaddr: Seq<char>,
    adapter: Option<Seq<char>>,
) -> Run<Seq<char>> {
    let check = RequestView::CheckAddress { bdaddr };
    asked(check, services(at, check)->Done_0).followed_by(
        |_checked: ()|
            match adapter {
                Some(adapter) => settled(adapter_path(bdaddr, adapter)),
                None => {
                    let listing = bluez_managed_objects_run(services, at + 1);
                    Run {
                        requests: listing.requests,
                        outcome: path_among(bdaddr, listing.outcome),
                    }
                },
            },
    )
}

/// Whatever the services answer, the search that [`resolve_bluez_device_path`] starts runs as
/// [`resolve_bluez_device_path_run`] says.
pub proof fn law_resolve_bluez_device_path(
    services: Services,
    at: int,
    bdaddr: Seq<char>,
    adapter: Option<Seq<char>>,
)
    requires
        faithful(services),
    ensures
        performs(
            ProgressView::Pending(BluezResolveView::Checking { bdaddr, adapter }),
            services,
            at,
            resolve_bluez_device_path_run(services, at, bdaddr, adapter),
        ),
{
    let p = BluezResolveView::Checking { bdaddr, adapter };
    let checked = services(at, p.request());
    assert(p.request().answered_by(checked));
    let run = resolve_bluez_device_path_run(services, at, bdaddr, adapter);
    match checked->Done_0 {
        Err(error) => {
            lemma_step(p, services, at, settled(Err(error)));
            assert(run.requests =~= seq![p.request()]);
        },
        Ok(_) => match adapter {
            Some(adapter) => {
                lemma_step(p, services, at, settled(adapter_path(bdaddr, adapter)));
            },
            None => {
                let listing = bluez_managed_objects_run(services, at + 1);
                let embed = |listing: BluezListing| BluezResolveView::Listing { bdaddr, listing };
                let next = |listed: Result<Seq<ManagedObjectView>, ErrorView>|
                    ProgressView::<BluezResolveView, Seq<char>>::Finished(
                        path_among(bdaddr, listed),
                    );
                law_bluez_managed_objects(services, at + 1);
                let rest = settled(path_among(bdaddr, listing.outcome));
                lemma_continued(
                    ProgressView::Pending(BluezListing::Opening),
                    embed,
                    next,
                    services,
                    at + 1,
                    listing,
                    rest,
                );
                assert(listing.requests + rest.requests =~= listing.requests);
                lemma_step(
                    p,
                    services,
                    at,
                    Run { requests: listing.requests, outcome: rest.outcome },
                );
            },
        },
    }
}

/// A reply that does not answer the request that the enumeration waits for changes nothing.
pub proof fn law_stray_reply_leaves_listing(state: BluezListing, reply: ReplyView)
    requires
        !Procedure::request(state).answered_by(reply),
    ensures
        state.resumed(reply) == ProgressView::<BluezListing, Seq<ManagedObjectView>>::Pending(state),
{
}

/// A reply that does not answer the request that the search waits for changes nothing.
pub proof fn law_stray_reply_leaves_resolve(state: BluezResolveView, reply: ReplyView)
    requires
        !Procedure::request(state).answered_by(reply),
    ensures
        state.resumed(reply) == ProgressView::<BluezResolveView, Seq<char>>::Pending(state),
{
    if let BluezResolveView::Listing { listing, .. } = state {
        law_stray_reply_leaves_listing(listing, reply);
    }
}

} // verus!
