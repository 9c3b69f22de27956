//! Finding a device of a certain type.

use vstd::prelude::*;

use crate::device_type;
use crate::error::{ConnectionError, ErrorView};
use crate::object_path::ObjectPath;
use crate::protocol::{Progress, ProgressView, Reply, ReplyView, Request, RequestView};
use crate::run::{asked, faithful, lemma_step, performs, settled, Procedure, Run, Services};

verus! {

/// Which device is looked for.
#[derive(Clone, Copy, Debug, PartialEq, Eq, Structural)]
pub enum Wanted {
    /// The Bluetooth hardware, with NetworkManager open already.
    Bluetooth,
    /// A device of the type with this number.
    OfType(u32),
}

impl Wanted {
    /// The number of the type.
    pub open spec fn type_number(self) -> u32 {
        match self {
            Wanted::Bluetooth => device_type::BLUETOOTH,
            Wanted::OfType(raw_type) => raw_type,
        }
    }

    /// The error where there is no such device.
    pub open spec fn absent(self) -> ErrorView {
        match self {
            Wanted::Bluetooth => ErrorView::NoBluetoothDevice,
            Wanted::OfType(_) => ErrorView::NotFound,
        }
    }

    /// Whether a device with this type number is the one looked for.
    fn is_type(&self, number: u32) -> (is: bool)
        ensures
            is == (number == self.type_number()),
    {
        match self {
            Wanted::Bluetooth => number == device_type::BLUETOOTH,
            Wanted::OfType(raw_type) => number == *raw_type,
        }
    }

    /// The error where there is no such device.
    fn absent_error(&self) -> (error: ConnectionError)
        ensures
            error.deep_view() == self.absent(),
    {
        match self {
            Wanted::Bluetooth => ConnectionError::NoBluetoothDevice,
            Wanted::OfType(_) => ConnectionError::NotFound,
        }
    }
}

/// The search for the first device of a type, which asks one device after the other.
pub enum DeviceSearch {
    /// NetworkManager is being opened.
    Opening(Wanted),
    /// The devices are being listed.
    Listing(Wanted),
    /// The type of `device` is being read; the devices of `rest` come after it.
    Asking { wanted: Wanted, device: ObjectPath, rest: Vec<ObjectPath> },
}

/// The mathematical value of a [`DeviceSearch`].
pub enum DeviceSearchView {
    Opening(Wanted),
    Listing(Wanted),
    Asking { wanted: Wanted, device: Seq<char>, rest: Seq<Seq<char>> },
}

impl DeepView for DeviceSearch {
    type V = DeviceSearchView;

    open spec fn deep_view(&self) -> DeviceSearchView {
        match *self {
            DeviceSearch::Opening(wanted) => DeviceSearchView::Opening(wanted),
            DeviceSearch::Listing(wanted) => DeviceSearchView::Listing(wanted),
            DeviceSearch::Asking { wanted, device, rest } => DeviceSearchView::Asking {
                wanted,
                device: device@,
                rest: rest.deep_view(),
            },
        }
    }
}

/// The search among `devices`.
pub open spec fn ask_each(wanted: Wanted, devices: Seq<Seq<char>>) -> ProgressView<
    DeviceSearchView,
    Seq<char>,
> {
    if devices.len() > 0 {
        ProgressView::Pending(
            DeviceSearchView::Asking {
                wanted,
                device: devices[0],
                rest: devices.drop_first(),
            },
        )
    } else {
        ProgressView::Finished(Err(wanted.absent()))
    }
}

impl Procedure for DeviceSearchView {
    type Output = Seq<char>;

    open spec fn request(self) -> RequestView {
        match self {
            DeviceSearchView::Opening(_) => RequestView::OpenManager,
            DeviceSearchView::Listing(_) => RequestView::ListDevices,
            DeviceSearchView::Asking { device, .. } => RequestView::DeviceType { device },
        }
    }

    open spec fn resumed(self, reply: ReplyView) -> ProgressView<DeviceSearchView, Seq<char>> {
        match (self, reply) {
            (DeviceSearchView::Opening(wanted), ReplyView::Done(Ok(_))) => ProgressView::Pending(
                DeviceSearchView::Listing(wanted),
            ),
            (DeviceSearchView::Opening(_), ReplyView::Done(Err(error))) => ProgressView::Finished(
                Err(error),
            ),
            (DeviceSearchView::Listing(wanted), ReplyView::Paths(Ok(devices))) => ask_each(
                wanted,
                devices,
            ),
            (DeviceSearchView::Listing(_), ReplyView::Paths(Err(error))) => ProgressView::Finished(
                Err(error),
            ),
            (
                DeviceSearchView::Asking { wanted, device, rest },
                ReplyView::Number(Ok(number)),
            ) => if number == wanted.type_number() {
                ProgressView::Finished(Ok(device))
            } else {
                ask_each(wanted, rest)
            },
            (DeviceSearchView::Asking { .. }, ReplyView::Number(Err(error))) =>
                ProgressView::Finished(Err(error)),
            (state, _) => ProgressView::Pending(state),
        }
    }
}

/// The start of the search for the Bluetooth hardware.
pub fn find_bluetooth_device() -> (search: DeviceSearch)
    ensures
        search.deep_view() == DeviceSearchView::Listing(Wanted::Bluetooth),
{
    DeviceSearch::Listing(Wanted::Bluetooth)
}

/// The start of the search for the first device of a type.
pub fn find_first_device_by_type(raw_type: u32) -> (search: DeviceSearch)
    ensures
        search.deep_view() == DeviceSearchView::Opening(Wanted::OfType(raw_type)),
{
    DeviceSearch::Opening(Wanted::OfType(raw_type))
}

fn search_each(wanted: Wanted, devices: Vec<ObjectPath>) -> (progress: Progress<
    DeviceSearch,
    ObjectPath,
>)
    ensures
        progress.deep_view() == ask_each(wanted, devices.deep_view()),
{
    let mut rest: Vec<ObjectPath> = devices;
    if rest.len() > 0 {
        let device: ObjectPath = rest.remove(0);
        assert(rest.deep_view() =~= devices.deep_view().drop_first());
        Progress::Pending(DeviceSearch::Asking { wanted, device, rest })
    } else {
        Progress::Finished(Err(wanted.absent_error()))
    }
}

impl DeviceSearch {
    /// The request whose reply the search waits for.
    pub fn request(&self) -> (request: Request<'_>)
        ensures
            request.deep_view() == self.deep_view().request(),
    {
        match self {
            DeviceSearch::Opening(_) => Request::OpenManager,
            DeviceSearch::Listing(_) => Request::ListDevices,
            DeviceSearch::Asking { device, .. } => Request::DeviceType { device: device.clone() },
        }
    }

    /// How the search goes on once it has the reply; a reply to another request changes
    /// nothing.
    pub fn resume(self, reply: Reply) -> (progress: Progress<DeviceSearch, ObjectPath>)
        ensures
            progress.deep_view() == self.deep_view().resumed(reply.deep_view()),
    {
        match (self, reply) {
            (DeviceSearch::Opening(wanted), Reply::Done(Ok(_))) => Progress::Pending(
                DeviceSearch::Listing(wanted),
            ),
            (DeviceSearch::Opening(_), Reply::Done(Err(error))) => Progress::Finished(Err(error)),
            (DeviceSearch::Listing(wanted), Reply::Paths(Ok(devices))) => search_each(
                wanted,
                devices,
            ),
            (DeviceSearch::Listing(_), Reply::Paths(Err(error))) => Progress::Finished(Err(error)),
            (DeviceSearch::Asking { wanted, device, rest }, Reply::Number(Ok(number))) => {
                if wanted.is_type(number) {
                    Progress::Finished(Ok(device))
                } else {
                    search_each(wanted, rest)
                }
            },
            (DeviceSearch::Asking { .. }, Reply::Number(Err(error))) => Progress::Finished(
                Err(error),
            ),
            (state, _) => Progress::Pending(state),
        }
    }
}

/// The run of the search among `devices`: each is asked for its type in turn, until one is of
/// the type looked for or one cannot be asked.
pub open spec fn ask_each_run(
    services: Services,
    at: int,
    wanted: Wanted,
    devices: Seq<Seq<char>>,
) -> Run<Seq<char>>
    decreases devices.len(),
{
    if devices.len() == 0 {
        settled(Err(wanted.absent()))
    } else {
        let request = RequestView::DeviceType { device: devices[0] };
        match services(at, request)->Number_0 {
            Err(error) => asked(request, Err(error)),
            Ok(number) => if number == wanted.type_number() {
                asked(request, Ok(devices[0]))
            } else {
                let rest = ask_each_run(services, at + 1, wanted, devices.drop_first());
                Run { requests: seq![request] + rest.requests, outcome: rest.outcome }
            },
        }
    }
}

/// The run of the search once NetworkManager is open: its devices are listed and asked.
pub open spec fn list_run(services: Services, at: int, wanted: Wanted) -> Run<Seq<char>> {
    asked(
        RequestView::ListDevices,
        services(at, RequestView::ListDevices)->Paths_0,
    ).followed_by(|devices: Seq<Seq<char>>| ask_each_run(services, at + 1, wanted, devices))
}

/// The run of [`find_bluetooth_device`].
pub open spec fn find_bluetooth_device_run(services: Services, at: int) -> Run<Seq<char>> {
    list_run(services, at, Wanted::Bluetooth)
}

/// The run of [`find_first_device_by_type`]: NetworkManager is opened first.
pub open spec fn find_first_device_by_type_run(services: Services, at: int, raw_type: u32) -> Run<
    Seq<char>,
> {
    asked(
        RequestView::OpenManager,
        services(at, RequestView::OpenManager)->Done_0,
    ).followed_by(|_opened: ()| list_run(services, at + 1, Wanted::OfType(raw_type)))
}

proof fn lemma_ask_each(services: Services, at: int, wanted: Wanted, devices: Seq<Seq<char>>)
    requires
        faithful(services),
    ensures
        performs(
            ask_each(wanted, devices),
            services,
            at,
            ask_each_run(services, at, wanted, devices),
        ),
    decreases devices.len(),
{
    if devices.len() > 0 {
        let p = DeviceSearchView::Asking {
            wanted,
            device: devices[0],
            rest: devices.drop_first(),
        };
        let reply = services(at, p.request());
        assert(p.request().answered_by(reply));
        match reply->Number_0 {
            Err(error) => {
                lemma_step(p, services, at, settled(Err(error)));
            },
            Ok(number) => {
                if number == wanted.type_number() {
                    lemma_step(p, services, at, settled(Ok(devices[0])));
                } else {
                    lemma_ask_each(services, at + 1, wanted, devices.drop_first());
                    lemma_step(
                        p,
                        services,
                        at,
                        ask_each_run(services, at + 1, wanted, devices.drop_first()),
                    );
                }
            },
        }
    }
}

proof fn lemma_list(services: Services, at: int, wanted: Wanted)
    requires
        faithful(services),
    ensures
        performs(
            ProgressView::Pending(DeviceSearchView::Listing(wanted)),
            services,
            at,
            list_run(services, at, wanted),
        ),
{
    let p = DeviceSearchView::Listing(wanted);
    let reply = services(at, p.request());
    assert(p.request().answered_by(reply));
    match reply->Paths_0 {
        Err(error) => {
            lemma_step(p, services, at, settled(Err(error)));
        },
        Ok(devices) => {
            lemma_ask_each(services, at + 1, wanted, devices);
            lemma_step(p, services, at, ask_each_run(services, at + 1, wanted, devices));
        },
    }
}

/// Whatever the services answer, the search that [`find_bluetooth_device`] starts runs as
/// [`find_bluetooth_device_run`] says.
pub proof fn law_find_bluetooth_device(services: Services, at: int)
    requires
        faithful(services),
    ensures
        performs(
            ProgressView::Pending(DeviceSearchView::Listing(Wanted::Bluetooth)),
            services,
            at,
            find_bluetooth_device_run(services, at),
        ),
{
    lemma_list(services, at, Wanted::Bluetooth);
}

/// Whatever the services answer, the search that [`find_first_device_by_type`] starts runs as
/// [`find_first_device_by_type_run`] says.
pub proof fn law_find_first_device_by_type(services: Services, at: int, raw_type: u32)
    requires
        faithful(services),
    ensures
        performs(
            ProgressView::Pending(DeviceSearchView::Opening(Wanted::OfType(raw_type))),
            services,
            at,
            find_first_device_by_type_run(services, at, raw_type),
        ),
{
    let p = DeviceSearchView::Opening(Wanted::OfType(raw_type));
    let reply = services(at, p.request());
    assert(p.request().answered_by(reply));
    match reply->Done_0 {
        Err(error) => {
            lemma_step(p, services, at, settled(Err(error)));
        },
        Ok(_) => {
            lemma_list(services, at + 1, Wanted::OfType(raw_type));
            lemma_step(p, services, at, list_run(services, at + 1, Wanted::OfType(raw_type)));
        },
    }
}

/// What the device at `i` answers when the devices are asked one after the other.
pub open spec fn type_answer(
    services: Services,
    at: int,
    devices: Seq<Seq<char>>,
    i: int,
) -> Result<u32, ErrorView> {
    services(at + i, RequestView::DeviceType { device: devices[i] })->Number_0
}

/// The first `n` devices can be asked and none of them is of the type looked for.
pub open spec fn passed_over(
    services: Services,
    at: int,
    wanted: Wanted,
    devices: Seq<Seq<char>>,
    n: int,
) -> bool {
    forall|i: int|
        0 <= i < n ==> (#[trigger] type_answer(services, at, devices, i)) is Ok && type_answer(
            services,
            at,
            devices,
            i,
        )->Ok_0 != wanted.type_number()
}

/// The requests for the types of the first `n` devices.
pub open spec fn type_requests(devices: Seq<Seq<char>>, n: int) -> Seq<RequestView> {
    Seq::new(n as nat, |i: int| RequestView::DeviceType { device: devices[i] })
}

proof fn lemma_ask_each_prefix(
    services: Services,
    at: int,
    wanted: Wanted,
    devices: Seq<Seq<char>>,
    n: int,
)
    requires
        0 <= n <= devices.len(),
        passed_over(services, at, wanted, devices, n),
    ensures
        ({
            let rest = ask_each_run(services, at + n, wanted, devices.skip(n));
            &&& ask_each_run(services, at, wanted, devices).outcome == rest.outcome
            &&& ask_each_run(services, at, wanted, devices).requests == type_requests(devices, n)
                + rest.requests
        }),
    decreases n,
{
    if n == 0 {
        assert(devices.skip(0) =~= devices);
        assert(type_requests(devices, 0) + ask_each_run(
            services,
            at,
            wanted,
            devices,
        ).requests =~= ask_each_run(services, at, wanted, devices).requests);
    } else {
        let tail = devices.drop_first();
        assert(type_answer(services, at, devices, 0) is Ok);
        assert forall|i: int| 0 <= i < n - 1 implies (#[trigger] type_answer(
            services,
            at + 1,
            tail,
            i,
        )) is Ok && type_answer(services, at + 1, tail, i)->Ok_0 != wanted.type_number() by {
            assert(type_answer(services, at, devices, i + 1) == type_answer(
                services,
                at + 1,
                tail,
                i,
            ));
        }
        lemma_ask_each_prefix(services, at + 1, wanted, tail, n - 1);
        assert(tail.skip(n - 1) =~= devices.skip(n));
        let request = RequestView::DeviceType { device: devices[0] };
        let rest = ask_each_run(services, at + n, wanted, devices.skip(n));
        assert(seq![request] + (type_requests(tail, n - 1) + rest.requests) =~= type_requests(
            devices,
            n,
        ) + rest.requests);
    }
}

/// The search takes the first device of the type looked for: where the devices before the one
/// at `n` are of other types, the outcome is decided there. It is that device if it is of the
/// type, and the error if it cannot be asked; either way no device after it is asked. Where no
/// device is of the type, every device has been asked and the outcome says that there is none.
pub proof fn law_search_takes_the_first_match(
    services: Services,
    at: int,
    wanted: Wanted,
    devices: Seq<Seq<char>>,
    n: int,
)
    requires
        0 <= n <= devices.len(),
        passed_over(services, at, wanted, devices, n),
    ensures
        n < devices.len() && type_answer(services, at, devices, n) == Ok::<u32, ErrorView>(
            wanted.type_number(),
        ) ==> ask_each_run(services, at, wanted, devices) == (Run {
            requests: type_requests(devices, n + 1),
            outcome: Ok(devices[n]),
        }),
        n < devices.len() && type_answer(services, at, devices, n) is Err ==> ask_each_run(
            services,
            at,
            wanted,
            devices,
        ) == (Run::<Seq<char>> {
            requests: type_requests(devices, n + 1),
            outcome: Err(type_answer(services, at, devices, n)->Err_0),
        }),
        n == devices.len() ==> ask_each_run(services, at, wanted, devices) == (Run::<Seq<char>> {
            requests: type_requests(devices, n),
            outcome: Err(wanted.absent()),
        }),
{
    lemma_ask_each_prefix(services, at, wanted, devices, n);
    let run = ask_each_run(services, at, wanted, devices);
    if n < devices.len() {
        assert(devices.skip(n)[0] == devices[n]);
        let answer = type_answer(services, at, devices, n);
        if answer is Err || answer->Ok_0 == wanted.type_number() {
            assert(run.requests =~= type_requests(devices, n + 1));
        }
    } else {
        assert(run.requests =~= type_requests(devices, n));
    }
}

/// Asking the devices is all that the search among them does: each request is for a type.
pub proof fn law_only_types_are_asked_for(
    services: Services,
    at: int,
    wanted: Wanted,
    devices: Seq<Seq<char>>,
)
    ensures
        forall|i: int|
            0 <= i < ask_each_run(services, at, wanted, devices).requests.len() ==> (
            #[trigger] ask_each_run(services, at, wanted, devices).requests[i]) is DeviceType,
    decreases devices.len(),
{
    if devices.len() > 0 {
        law_only_types_are_asked_for(services, at + 1, wanted, devices.drop_first());
    }
}

/// A reply that does not answer the request that the search waits for changes nothing.
pub proof fn law_stray_reply_leaves_search(state: DeviceSearchView, reply: ReplyView)
    requires
        !Procedure::request(state).answered_by(reply),
    ensures
        state.resumed(reply) == ProgressView::<DeviceSearchView, Seq<char>>::Pending(state),
{
}

} // verus!
