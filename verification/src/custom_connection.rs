//! Handing settings to NetworkManager as new profiles.

use vstd::prelude::*;

use crate::bluez_lookup::{
    law_resolve_bluez_device_path, resolve_bluez_device_path, resolve_bluez_device_path_run,
    BluezResolve, BluezResolveView,
};
use crate::device_search::{
    find_first_device_by_type, find_first_device_by_type_run, law_find_first_device_by_type,
    law_stray_reply_leaves_search, DeviceSearch, DeviceSearchView, Wanted,
};
use crate::error::{ConnectionError, ErrorView};
use crate::models::{Sections, SectionsView};
use crate::object_path::ObjectPath;
use crate::protocol::{Progress, ProgressView, Reply, ReplyView, Request, RequestView};
use crate::run::{
    asked, continued, faithful, lemma_continued, lemma_step, performs, settled, Procedure, Run,
    Services,
};
use crate::settings::{
    bluetooth_bdaddr, bluetooth_bdaddr_from_settings, connection_type,
    connection_type_from_settings, expected_device_type, explicit_object, explicit_specific_object,
    needed_device_type,
};
use crate::text::same_text;

verus! {

/// The search for the device of a new connection.
pub enum DeviceResolve {
    /// The device with an interface name is being looked for.
    ByInterface { interface: String },
    /// A device of the type that the connection needs is being looked for.
    Searching(DeviceSearch),
}

/// The mathematical value of a [`DeviceResolve`].
pub enum DeviceResolveView {
    ByInterface { interface: Seq<char> },
    Searching(DeviceSearchView),
}

impl DeepView for DeviceResolve {
    type V = DeviceResolveView;

    open spec fn deep_view(&self) -> DeviceResolveView {
        match *self {
            DeviceResolve::ByInterface { interface } => DeviceResolveView::ByInterface {
                interface: interface@,
            },
            DeviceResolve::Searching(search) => DeviceResolveView::Searching(search.deep_view()),
        }
    }
}

impl Procedure for DeviceResolveView {
    type Output = Seq<char>;

    open spec fn request(self) -> RequestView {
        match self {
            DeviceResolveView::ByInterface { interface } => RequestView::DeviceByInterface {
                interface,
            },
            DeviceResolveView::Searching(search) => search.request(),
        }
    }

    open spec fn resumed(self, reply: ReplyView) -> ProgressView<DeviceResolveView, Seq<char>> {
        match (self, reply) {
            (DeviceResolveView::ByInterface { .. }, ReplyView::Path(outcome)) =>
                ProgressView::Finished(outcome),
            (DeviceResolveView::ByInterface { .. }, _) => ProgressView::Pending(self),
            (DeviceResolveView::Searching(search), _) => continued(
                search.resumed(reply),
                |search: DeviceSearchView| DeviceResolveView::Searching(search),
                |found: Result<Seq<char>, ErrorView>| ProgressView::Finished(found),
            ),
        }
    }
}

/// The start of the search for the device of a new connection: the one with the interface name,
/// if that is given; else the first of the type that the connection needs; and `/`, which leaves
/// the choice to NetworkManager, where it needs no certain type.
pub open spec fn device_start(settings: SectionsView, interface: Option<Seq<char>>) -> ProgressView<
    DeviceResolveView,
    Seq<char>,
> {
    match interface {
        Some(interface) => ProgressView::Pending(DeviceResolveView::ByInterface { interface }),
        None => match connection_type(settings) {
            Err(error) => ProgressView::Finished(Err(error)),
            Ok(conn_type) => match needed_device_type(conn_type) {
                Some(raw_type) => ProgressView::Pending(
                    DeviceResolveView::Searching(
                        DeviceSearchView::Opening(Wanted::OfType(raw_type)),
                    ),
                ),
                None => ProgressView::Finished(Ok("/"@)),
            },
        },
    }
}

/// The start of the search for the device of a new connection with these settings, on the device
/// with the interface name, if that is given.
pub fn resolve_device_path(settings: &Sections, interface: Option<String>) -> (progress: Progress<
    DeviceResolve,
    ObjectPath,
>)
    ensures
        progress.deep_view() == device_start(settings.deep_view(), interface.deep_view()),
{
    match interface {
        Some(interface) => Progress::Pending(DeviceResolve::ByInterface { interface }),
        None => match connection_type_from_settings(settings) {
            Err(error) => Progress::Finished(Err(error)),
            Ok(conn_type) => match expected_device_type(conn_type) {
                Some(raw_type) => Progress::Pending(
                    DeviceResolve::Searching(find_first_device_by_type(raw_type)),
                ),
                None => Progress::Finished(Ok(ObjectPath::default())),
            },
        },
    }
}

impl DeviceResolve {
    /// The request whose reply the search waits for.
    pub fn request(&self) -> (request: Request<'_>)
        ensures
            request.deep_view() == self.deep_view().request(),
    {
        match self {
            DeviceResolve::ByInterface { interface } => Request::DeviceByInterface {
                interface: interface.clone(),
            },
            DeviceResolve::Searching(search) => search.request(),
        }
    }

    /// How the search goes on once it has the reply; a reply to another request changes
    /// nothing.
    pub fn resume(self, reply: Reply) -> (progress: Progress<DeviceResolve, ObjectPath>)
        ensures
            progress.deep_view() == self.deep_view().resumed(reply.deep_view()),
    {
        match self {
            DeviceResolve::ByInterface { interface } => match reply {
                Reply::Path(outcome) => Progress::Finished(outcome),
                _ => Progress::Pending(DeviceResolve::ByInterface { interface }),
            },
            DeviceResolve::Searching(search) => match search.resume(reply) {
                Progress::Pending(search) => Progress::Pending(DeviceResolve::Searching(search)),
                Progress::Finished(found) => Progress::Finished(found),
            },
        }
    }
}

/// The start of the search for the object that a new connection is for: the one that the caller
/// asks for, if the caller does; else the device object of BlueZ, where the connection is a
/// Bluetooth one; and else `/`, which stands for none.
pub open spec fn object_start(
    settings: SectionsView,
    specific_object: Option<Seq<char>>,
) -> ProgressView<BluezResolveView, Seq<char>> {
    match explicit_object(specific_object) {
        Err(error) => ProgressView::Finished(Err(error)),
        Ok(Some(path)) => ProgressView::Finished(Ok(path)),
        Ok(None) => match connection_type(settings) {
            Err(error) => ProgressView::Finished(Err(error)),
            Ok(conn_type) => if conn_type == "bluetooth"@ {
                match bluetooth_bdaddr(settings) {
                    Err(error) => ProgressView::Finished(Err(error)),
                    Ok(bdaddr) => ProgressView::Pending(
                        BluezResolveView::Checking { bdaddr, adapter: None },
                    ),
                }
            } else {
                ProgressView::Finished(Ok("/"@))
            },
        },
    }
}

/// The start of the search for the object that a new connection with these settings is for, which
/// is `specific_object`, if that is given.
pub fn resolve_specific_object(settings: &Sections, specific_object: Option<&str>) -> (progress:
    Progress<BluezResolve, ObjectPath>)
    ensures
        progress.deep_view() == object_start(settings.deep_view(), specific_object.deep_view()),
{
    match explicit_specific_object(specific_object) {
        Err(error) => Progress::Finished(Err(error)),
        Ok(Some(path)) => Progress::Finished(Ok(path)),
        Ok(None) => match connection_type_from_settings(settings) {
            Err(error) => Progress::Finished(Err(error)),
            Ok(conn_type) => {
                if same_text(conn_type, "bluetooth") {
                    match bluetooth_bdaddr_from_settings(settings) {
                        Err(error) => Progress::Finished(Err(error)),
                        Ok(bdaddr) => Progress::Pending(
                            resolve_bluez_device_path(bdaddr, None),
                        ),
                    }
                } else {
                    Progress::Finished(Ok(ObjectPath::default()))
                }
            },
        },
    }
}

/// The run of [`resolve_device_path`].
pub open spec fn resolve_device_path_run(
    services: Services,
    at: int,
    settings: SectionsView,
    interface: Option<Seq<char>>,
) -> Run<Seq<char>> {
    match interface {
        Some(interface) => {
            let find = RequestView::DeviceByInterface { interface };
            asked(find, services(at, find)->Path_0)
        },
        None => match connection_type(settings) {
            Err(error) => settled(Err(error)),
            Ok(conn_type) => match needed_device_type(conn_type) {
                Some(raw_type) => find_first_device_by_type_run(services, at, raw_type),
                None => settled(Ok("/"@)),
            },
        },
    }
}

/// Whatever the services answer, the search that [`resolve_device_path`] starts runs as
/// [`resolve_device_path_run`] says.
pub proof fn law_resolve_device_path(
    services: Services,
    at: int,
    settings: SectionsView,
    interface: Option<Seq<char>>,
)
    requires
        faithful(services),
    ensures
        performs(
            device_start(settings, interface),
            services,
            at,
            resolve_device_path_run(services, at, settings, interface),
        ),
{
    let start = device_start(settings, interface);
    match start {
        ProgressView::Finished(outcome) => {},
        ProgressView::Pending(p) => match p {
            DeviceResolveView::ByInterface { interface } => {
                let reply = services(at, p.request());
                assert(p.request().answered_by(reply));
                lemma_step(p, services, at, settled(reply->Path_0));
            },
            DeviceResolveView::Searching(_) => {
                let raw_type = needed_device_type(connection_type(settings)->Ok_0)->0;
                let search = find_first_device_by_type_run(services, at, raw_type);
                law_find_first_device_by_type(services, at, raw_type);
                let rest = settled(search.outcome);
                lemma_continued(
                    ProgressView::Pending(DeviceSearchView::Opening(Wanted::OfType(raw_type))),
                    |search: DeviceSearchView| DeviceResolveView::Searching(search),
                    |found: Result<Seq<char>, ErrorView>| ProgressView::Finished(found),
                    services,
                    at,
                    search,
                    rest,
                );
                assert(search.requests + rest.requests =~= search.requests);
            },
        },
    }
}

/// The run of [`resolve_specific_object`].
pub open spec fn resolve_specific_object_run(
    services: Services,
    at: int,
    settings: SectionsView,
    specific_object: Option<Seq<char>>,
) -> Run<Seq<char>> {
    match explicit_object(specific_object) {
        Err(error) => settled(Err(error)),
        Ok(Some(path)) => settled(Ok(path)),
        Ok(None) => match connection_type(settings) {
            Err(error) => settled(Err(error)),
            Ok(conn_type) => if conn_type == "bluetooth"@ {
                match bluetooth_bdaddr(settings) {
                    Err(error) => settled(Err(error)),
                    Ok(bdaddr) => resolve_bluez_device_path_run(services, at, bdaddr, None),
                }
            } else {
                settled(Ok("/"@))
            },
        },
    }
}

/// Whatever the services answer, the search that [`resolve_specific_object`] starts runs as
/// [`resolve_specific_object_run`] says.
pub proof fn law_resolve_specific_object(
    services: Services,
    at: int,
    settings: SectionsView,
    specific_object: Option<Seq<char>>,
)
    requires
        faithful(services),
    ensures
        performs(
            object_start(settings, specific_object),
            services,
            at,
            resolve_specific_object_run(services, at, settings, specific_object),
        ),
{
    if object_start(settings, specific_object) is Pending {
        law_resolve_bluez_device_path(services, at, bluetooth_bdaddr(settings)->Ok_0, None);
    }
}

/// The caller's word goes before the settings: an interface name decides the device and a path
/// decides the object, whatever the settings say.
pub proof fn law_caller_goes_before_settings(
    services: Services,
    at: int,
    a: SectionsView,
    b: SectionsView,
    interface: Seq<char>,
    specific_object: Seq<char>,
)
    ensures
        resolve_device_path_run(services, at, a, Some(interface)) == resolve_device_path_run(
            services,
            at,
            b,
            Some(interface),
        ),
        resolve_specific_object_run(services, at, a, Some(specific_object))
            == resolve_specific_object_run(services, at, b, Some(specific_object)),
{
}

/// How far the saving of settings as a new profile has come.
#[derive(Clone, Copy, Debug, PartialEq, Eq, Structural)]
pub enum AddStage {
    /// The settings service is being opened.
    Opening,
    /// The settings are being handed to it.
    Calling,
    /// Its reply is being read.
    Decoding,
}

/// The saving of settings as a new profile, which is not activated.
pub struct AddConnection {
    /// The settings.
    pub settings: Sections,
    /// How far the saving has come.
    pub stage: AddStage,
}

/// The mathematical value of an [`AddConnection`].
pub struct AddConnectionView {
    pub settings: SectionsView,
    pub stage: AddStage,
}

impl DeepView for AddConnection {
    type V = AddConnectionView;

    open spec fn deep_view(&self) -> AddConnectionView {
        AddConnectionView { settings: self.settings.deep_view(), stage: self.stage }
    }
}

impl AddConnectionView {
    /// The same saving at another stage.
    pub open spec fn at(self, stage: AddStage) -> ProgressView<AddConnectionView, Seq<char>> {
        ProgressView::Pending(AddConnectionView { stage, ..self })
    }
}

/// The error where the settings service does not take the settings.
pub open spec fn add_error(source: zbus::Error) -> ErrorView {
    ErrorView::DbusOperation { context: "failed to add connection"@, source }
}

/// The error where the reply of the settings service cannot be read.
pub open spec fn decode_error(source: zbus::Error) -> ErrorView {
    ErrorView::DbusOperation { context: "failed to decode AddConnection reply"@, source }
}

impl Procedure for AddConnectionView {
    type Output = Seq<char>;

    open spec fn request(self) -> RequestView {
        match self.stage {
            AddStage::Opening => RequestView::OpenSettings,
            AddStage::Calling => RequestView::AddConnection { settings: self.settings },
            AddStage::Decoding => RequestView::DecodeAdded,
        }
    }

    open spec fn resumed(self, reply: ReplyView) -> ProgressView<AddConnectionView, Seq<char>> {
        match (self.stage, reply) {
            (AddStage::Opening, ReplyView::Done(Ok(_))) => self.at(AddStage::Calling),
            (AddStage::Opening, ReplyView::Done(Err(error))) => ProgressView::Finished(Err(error)),
            (AddStage::Calling, ReplyView::Called(Ok(_))) => self.at(AddStage::Decoding),
            (AddStage::Calling, ReplyView::Called(Err(source))) => ProgressView::Finished(
                Err(add_error(source)),
            ),
            (AddStage::Decoding, ReplyView::Decoded(Ok(profile))) => ProgressView::Finished(
                Ok(profile),
            ),
            (AddStage::Decoding, ReplyView::Decoded(Err(source))) => ProgressView::Finished(
                Err(decode_error(source)),
            ),
            (_, _) => ProgressView::Pending(self),
        }
    }
}

/// The start of the saving of settings as a new profile, without activating it.
pub fn add_connection(settings: Sections) -> (add: AddConnection)
    ensures
        add.deep_view() == (AddConnectionView {
            settings: settings.deep_view(),
            stage: AddStage::Opening,
        }),
{
    AddConnection { settings, stage: AddStage::Opening }
}

impl AddConnection {
    /// The request whose reply the saving waits for.
    pub fn request(&self) -> (request: Request<'_>)
        ensures
            request.deep_view() == self.deep_view().request(),
    {
        match self.stage {
            AddStage::Opening => Request::OpenSettings,
            AddStage::Calling => Request::AddConnection { settings: &self.settings },
            AddStage::Decoding => Request::DecodeAdded,
        }
    }

    fn at(self, stage: AddStage) -> (progress: Progress<AddConnection, ObjectPath>)
        ensures
            progress.deep_view() == self.deep_view().at(stage),
    {
        Progress::Pending(AddConnection { settings: self.settings, stage })
    }

    /// How the saving goes on once it has the reply; a reply to another request changes nothing.
    pub fn resume(self, reply: Reply) -> (progress: Progress<AddConnection, ObjectPath>)
        ensures
            progress.deep_view() == self.deep_view().resumed(reply.deep_view()),
    {
        match (self.stage, reply) {
            (AddStage::Opening, Reply::Done(Ok(_))) => self.at(AddStage::Calling),
            (AddStage::Opening, Reply::Done(Err(error))) => Progress::Finished(Err(error)),
            (AddStage::Calling, Reply::Called(Ok(_))) => self.at(AddStage::Decoding),
            (AddStage::Calling, Reply::Called(Err(source))) => Progress::Finished(
                Err(
                    ConnectionError::DbusOperation {
                        context: "failed to add connection".to_owned(),
                        source,
                    },
                ),
            ),
            (AddStage::Decoding, Reply::Decoded(Ok(profile))) => Progress::Finished(Ok(profile)),
            (AddStage::Decoding, Reply::Decoded(Err(source))) => Progress::Finished(
                Err(
                    ConnectionError::DbusOperation {
                        context: "failed to decode AddConnection reply".to_owned(),
                        source,
                    },
                ),
            ),
            (_, _) => Progress::Pending(self),
        }
    }
}

/// The run of [`add_connection`].
pub open spec fn add_connection_run(services: Services, at: int, settings: SectionsView) -> Run<
    Seq<char>,
> {
    let add = RequestView::AddConnection { settings };
    asked(
        RequestView::OpenSettings,
        services(at, RequestView::OpenSettings)->Done_0,
    ).followed_by(
        |_opened: ()|
            match services(at + 1, add)->Called_0 {
                Err(source) => asked(add, Err(add_error(source))),
                Ok(_) => Run {
                    requests: seq![add, RequestView::DecodeAdded],
                    outcome: match services(at + 2, RequestView::DecodeAdded)->Decoded_0 {
                        Ok(profile) => Ok(profile),
                        Err(source) => Err(decode_error(source)),
                    },
                },
            },
    )
}

/// Whatever the services answer, the saving that [`add_connection`] starts runs as
/// [`add_connection_run`] says.
pub proof fn law_add_connection(services: Services, at: int, settings: SectionsView)
    requires
        faithful(services),
    ensures
        performs(
            ProgressView::Pending(AddConnectionView { settings, stage: AddStage::Opening }),
            services,
            at,
            add_connection_run(services, at, settings),
        ),
{
    let p = AddConnectionView { settings, stage: AddStage::Opening };
    let q = AddConnectionView { settings, stage: AddStage::Calling };
    let r = AddConnectionView { settings, stage: AddStage::Decoding };
    let opened = services(at, p.request());
    let called = services(at + 1, q.request());
    let decoded = services(at + 2, r.request());
    assert(p.request().answered_by(opened));
    assert(q.request().answered_by(called));
    assert(r.request().answered_by(decoded));
    let run = add_connection_run(services, at, settings);
    if opened->Done_0 is Err {
        lemma_step(p, services, at, settled(run.outcome));
    } else if called->Called_0 is Err {
        lemma_step(q, services, at + 1, settled(run.outcome));
        lemma_step(p, services, at, asked(q.request(), run.outcome));
    } else {
        lemma_step(r, services, at + 2, settled(run.outcome));
        lemma_step(q, services, at + 1, asked(r.request(), run.outcome));
        let rest = Run {
            requests: seq![q.request()] + seq![r.request()],
            outcome: run.outcome,
        };
        lemma_step(p, services, at, rest);
        assert(rest.requests =~= seq![q.request(), r.request()]);
    }
}

/// Saving a profile activates nothing: the settings service is opened, handed the caller's
/// settings, unchanged, and its reply read, and nothing else is asked of anyone.
pub proof fn law_saving_does_not_activate(services: Services, at: int, settings: SectionsView)
    ensures
        add_connection_run(services, at, settings).requests.is_prefix_of(
            seq![
                RequestView::OpenSettings,
                RequestView::AddConnection { settings },
                RequestView::DecodeAdded,
            ],
        ),
{
    let whole = seq![
        RequestView::OpenSettings,
        RequestView::AddConnection { settings },
        RequestView::DecodeAdded,
    ];
    let requests = add_connection_run(services, at, settings).requests;
    assert(requests =~= whole.subrange(0, requests.len() as int));
}

/// Where the settings service can be opened, takes the caller's settings and replies with a path,
/// that path is the outcome, after exactly these three requests.
pub proof fn law_saved_profile_is_reported(
    services: Services,
    at: int,
    settings: SectionsView,
    profile: Seq<char>,
)
    requires
        services(at, RequestView::OpenSettings) == ReplyView::Done(Ok(())),
        services(at + 1, RequestView::AddConnection { settings }) == ReplyView::Called(Ok(())),
        services(at + 2, RequestView::DecodeAdded) == ReplyView::Decoded(Ok(profile)),
    ensures
        add_connection_run(services, at, settings) == (Run {
            requests: seq![
                RequestView::OpenSettings,
                RequestView::AddConnection { settings },
                RequestView::DecodeAdded,
            ],
            outcome: Ok(profile),
        }),
{
    let add = RequestView::AddConnection { settings };
    assert(seq![RequestView::OpenSettings] + seq![add, RequestView::DecodeAdded] =~= seq![
        RequestView::OpenSettings,
        add,
        RequestView::DecodeAdded,
    ]);
}

/// A reply that does not answer the request that the search waits for changes nothing.
pub proof fn law_stray_reply_leaves_device_search(state: DeviceResolveView, reply: ReplyView)
    requires
        !Procedure::request(state).answered_by(reply),
    ensures
        state.resumed(reply) == ProgressView::<DeviceResolveView, Seq<char>>::Pending(state),
{
    if let DeviceResolveView::Searching(search) = state {
        law_stray_reply_leaves_search(search, reply);
    }
}

/// A reply that does not answer the request that the saving waits for changes nothing.
pub proof fn law_stray_reply_leaves_saving(state: AddConnectionView, reply: ReplyView)
    requires
        !Procedure::request(state).answered_by(reply),
    ensures
        state.resumed(reply) == ProgressView::<AddConnectionView, Seq<char>>::Pending(state),
{
}

} // verus!
