//! Handing settings to NetworkManager as a new profile that it activates at once.

use vstd::prelude::*;

use crate::bluez_lookup::{
    law_stray_reply_leaves_resolve, resolve_bluez_device_path_run, BluezResolve, BluezResolveView,
};
use crate::custom_connection::{
    device_start, law_resolve_device_path, law_resolve_specific_object,
    law_stray_reply_leaves_device_search, object_start, resolve_device_path,
    resolve_device_path_run, resolve_specific_object, resolve_specific_object_run, DeviceResolve,
    DeviceResolveView,
};
use crate::device_search::{law_only_types_are_asked_for, list_run, Wanted};
use crate::error::{ConnectionError, ErrorView};
use crate::models::{Sections, SectionsView, TimeoutConfig};
use crate::object_path::ObjectPath;
use crate::protocol::{result_view, Progress, ProgressView, Reply, ReplyView, Request, RequestView};
use crate::run::{
    asked, continued, faithful, lemma_continued, lemma_step, performs, settled, Procedure, Run,
    Services,
};
use crate::settings::{bluetooth_bdaddr, connection_type, explicit_object, needed_device_type};
use crate::text::same_text;

verus! {

/// The paths of a new profile and of its active connection.
pub type AddedView = (Seq<char>, Seq<char>);

/// How far the activation of new settings has come.
pub enum ActivationStage {
    /// The device is being looked for.
    ResolvingDevice(DeviceResolve),
    /// The object that the connection is for is being looked for.
    ResolvingObject { device: ObjectPath, resolve: BluezResolve },
    /// The device is being freed of the connection that it carries.
    Disconnecting { device: ObjectPath, specific_object: ObjectPath },
    /// NetworkManager is being opened.
    Opening { device: ObjectPath, specific_object: ObjectPath },
    /// The profile is being saved and activated.
    Activating { device: ObjectPath, specific_object: ObjectPath },
    /// The connection is coming up.
    Waiting { profile: ObjectPath, active: ObjectPath },
}

/// The mathematical value of an [`ActivationStage`].
pub enum ActivationStageView {
    ResolvingDevice(DeviceResolveView),
    ResolvingObject { device: Seq<char>, resolve: BluezResolveView },
    Disconnecting { device: Seq<char>, specific_object: Seq<char> },
    Opening { device: Seq<char>, specific_object: Seq<char> },
    Activating { device: Seq<char>, specific_object: Seq<char> },
    Waiting { profile: Seq<char>, active: Seq<char> },
}

impl DeepView for ActivationStage {
    type V = ActivationStageView;

    open spec fn deep_view(&self) -> ActivationStageView {
        match *self {
            ActivationStage::ResolvingDevice(resolve) => ActivationStageView::ResolvingDevice(
                resolve.deep_view(),
            ),
            ActivationStage::ResolvingObject {
                device,
                resolve,
            } => ActivationStageView::ResolvingObject {
                device: device@,
                resolve: resolve.deep_view(),
            },
            ActivationStage::Disconnecting {
                device,
                specific_object,
            } => ActivationStageView::Disconnecting {
                device: device@,
                specific_object: specific_object@,
            },
            ActivationStage::Opening { device, specific_object } => ActivationStageView::Opening {
                device: device@,
                specific_object: specific_object@,
            },
            ActivationStage::Activating {
                device,
                specific_object,
            } => ActivationStageView::Activating {
                device: device@,
                specific_object: specific_object@,
            },
            ActivationStage::Waiting { profile, active } => ActivationStageView::Waiting {
                profile: profile@,
                active: active@,
            },
        }
    }
}

/// What is to be activated.
pub struct NewConnection {
    /// The settings.
    pub settings: Sections,
    /// The object that the connection is for, if the caller asks for one.
    pub specific_object: Option<String>,
    /// How long to wait.
    pub timeouts: TimeoutConfig,
}

/// The mathematical value of a [`NewConnection`].
pub struct NewConnectionView {
    pub settings: SectionsView,
    pub specific_object: Option<Seq<char>>,
    pub timeouts: TimeoutConfig,
}

impl DeepView for NewConnection {
    type V = NewConnectionView;

    open spec fn deep_view(&self) -> NewConnectionView {
        NewConnectionView {
            settings: self.settings.deep_view(),
            specific_object: self.specific_object.deep_view(),
            timeouts: self.timeouts,
        }
    }
}

/// The activation of new settings.
pub struct AddAndActivate {
    /// What is to be activated.
    pub connection: NewConnection,
    /// How far the activation has come.
    pub stage: ActivationStage,
}

/// The mathematical value of an [`AddAndActivate`].
pub struct AddAndActivateView {
    pub connection: NewConnectionView,
    pub stage: ActivationStageView,
}

impl DeepView for AddAndActivate {
    type V = AddAndActivateView;

    open spec fn deep_view(&self) -> AddAndActivateView {
        AddAndActivateView {
            connection: self.connection.deep_view(),
            stage: self.stage.deep_view(),
        }
    }
}

impl NewConnectionView {
    /// The activation of the connection at a stage.
    pub open spec fn at(self, stage: ActivationStageView) -> ProgressView<
        AddAndActivateView,
        AddedView,
    > {
        ProgressView::Pending(AddAndActivateView { connection: self, stage })
    }

    /// How the activation goes on once the object has been looked for: a device that was chosen
    /// is freed first; `/` stands for a device that NetworkManager is to choose.
    pub open spec fn after_object(
        self,
        device: Seq<char>,
        found: Result<Seq<char>, ErrorView>,
    ) -> ProgressView<AddAndActivateView, AddedView> {
        match found {
            Err(error) => ProgressView::Finished(Err(error)),
            Ok(specific_object) => if device != "/"@ {
                self.at(ActivationStageView::Disconnecting { device, specific_object })
            } else {
                self.at(ActivationStageView::Opening { device, specific_object })
            },
        }
    }

    /// How the activation goes on once the device has been looked for.
    pub open spec fn after_device(self, found: Result<Seq<char>, ErrorView>) -> ProgressView<
        AddAndActivateView,
        AddedView,
    > {
        match found {
            Err(error) => ProgressView::Finished(Err(error)),
            Ok(device) => continued(
                object_start(self.settings, self.specific_object),
                |resolve: BluezResolveView|
                    AddAndActivateView {
                        connection: self,
                        stage: ActivationStageView::ResolvingObject { device, resolve },
                    },
                |found: Result<Seq<char>, ErrorView>| self.after_object(device, found),
            ),
        }
    }

    /// The start of the activation.
    pub open spec fn start(self, interface: Option<Seq<char>>) -> ProgressView<
        AddAndActivateView,
        AddedView,
    > {
        continued(
            device_start(self.settings, interface),
            |resolve: DeviceResolveView|
                AddAndActivateView {
                    connection: self,
                    stage: ActivationStageView::ResolvingDevice(resolve),
                },
            |found: Result<Seq<char>, ErrorView>| self.after_device(found),
        )
    }
}

impl Procedure for AddAndActivateView {
    type Output = AddedView;

    open spec fn request(self) -> RequestView {
        match self.stage {
            ActivationStageView::ResolvingDevice(resolve) => resolve.request(),
            ActivationStageView::ResolvingObject { resolve, .. } => resolve.request(),
            ActivationStageView::Disconnecting { device, .. } => RequestView::DisconnectWifi {
                device,
                timeouts: self.connection.timeouts,
            },
            ActivationStageView::Opening { .. } => RequestView::OpenManager,
            ActivationStageView::Activating {
                device,
                specific_object,
            } => RequestView::AddAndActivateSettings {
                settings: self.connection.settings,
                device,
                specific_object,
            },
            ActivationStageView::Waiting { active, .. } => RequestView::AwaitActivation {
                active,
                timeout: Some(self.connection.timeouts.connection_timeout),
            },
        }
    }

    open spec fn resumed(self, reply: ReplyView) -> ProgressView<AddAndActivateView, AddedView> {
        let connection = self.connection;
        match (self.stage, reply) {
            (ActivationStageView::ResolvingDevice(resolve), _) => continued(
                resolve.resumed(reply),
                |resolve: DeviceResolveView|
                    AddAndActivateView {
                        connection,
                        stage: ActivationStageView::ResolvingDevice(resolve),
                    },
                |found: Result<Seq<char>, ErrorView>| connection.after_device(found),
            ),
            (ActivationStageView::ResolvingObject { device, resolve }, _) => continued(
                resolve.resumed(reply),
                |resolve: BluezResolveView|
                    AddAndActivateView {
                        connection,
                        stage: ActivationStageView::ResolvingObject { device, resolve },
                    },
                |found: Result<Seq<char>, ErrorView>| connection.after_object(device, found),
            ),
            (
                ActivationStageView::Disconnecting { device, specific_object },
                ReplyView::Done(Ok(_)),
            ) => connection.at(ActivationStageView::Opening { device, specific_object }),
            (ActivationStageView::Disconnecting { .. }, ReplyView::Done(Err(error))) =>
                ProgressView::Finished(Err(error)),
            (
                ActivationStageView::Opening { device, specific_object },
                ReplyView::Done(Ok(_)),
            ) => connection.at(ActivationStageView::Activating { device, specific_object }),
            (ActivationStageView::Opening { .. }, ReplyView::Done(Err(error))) =>
                ProgressView::Finished(Err(error)),
            (ActivationStageView::Activating { .. }, ReplyView::Added(Ok((profile, active)))) =>
                connection.at(ActivationStageView::Waiting { profile, active }),
            (ActivationStageView::Activating { .. }, ReplyView::Added(Err(error))) =>
                ProgressView::Finished(Err(error)),
            (ActivationStageView::Waiting { profile, active }, ReplyView::Done(Ok(_))) =>
                ProgressView::Finished(Ok((profile, active))),
            (ActivationStageView::Waiting { .. }, ReplyView::Done(Err(error))) =>
                ProgressView::Finished(Err(error)),
            (_, _) => ProgressView::Pending(self),
        }
    }
}

impl NewConnection {
    fn at(self, stage: ActivationStage) -> (progress: Progress<
        AddAndActivate,
        (ObjectPath, ObjectPath),
    >)
        ensures
            progress.deep_view() == self.deep_view().at(stage.deep_view()),
    {
        Progress::Pending(AddAndActivate { connection: self, stage })
    }

    fn after_object(self, device: ObjectPath, found: Result<ObjectPath, ConnectionError>) -> (
        progress: Progress<AddAndActivate, (ObjectPath, ObjectPath)>)
        ensures
            progress.deep_view() == self.deep_view().after_object(device@, result_view(found)),
    {
        match found {
            Err(error) => Progress::Finished(Err(error)),
            Ok(specific_object) => {
                if !same_text(device.as_str(), "/") {
                    self.at(ActivationStage::Disconnecting { device, specific_object })
                } else {
                    self.at(ActivationStage::Opening { device, specific_object })
                }
            },
        }
    }

    fn after_device(self, found: Result<ObjectPath, ConnectionError>) -> (progress: Progress<
        AddAndActivate,
        (ObjectPath, ObjectPath),
    >)
        ensures
            progress.deep_view() == self.deep_view().after_device(result_view(found)),
    {
        match found {
            Err(error) => Progress::Finished(Err(error)),
            Ok(device) => {
                let object = match &self.specific_object {
                    Some(path) => resolve_specific_object(&self.settings, Some(path.as_str())),
                    None => resolve_specific_object(&self.settings, None),
                };
                match object {
                    Progress::Pending(resolve) => self.at(
                        ActivationStage::ResolvingObject { device, resolve },
                    ),
                    Progress::Finished(found) => self.after_object(device, found),
                }
            },
        }
    }
}

/// The start of the activation of a new connection, on the device with the interface name, if that
/// is given.
pub fn add_and_activate_connection(connection: NewConnection, interface: Option<String>) -> (
    progress: Progress<AddAndActivate, (ObjectPath, ObjectPath)>)
    ensures
        progress.deep_view() == connection.deep_view().start(interface.deep_view()),
{
    match resolve_device_path(&connection.settings, interface) {
        Progress::Pending(resolve) => connection.at(ActivationStage::ResolvingDevice(resolve)),
        Progress::Finished(found) => connection.after_device(found),
    }
}

impl AddAndActivate {
    /// The request whose reply the activation waits for.
    pub fn request(&self) -> (request: Request<'_>)
        ensures
            request.deep_view() == self.deep_view().request(),
    {
        match &self.stage {
            ActivationStage::ResolvingDevice(resolve) => resolve.request(),
            ActivationStage::ResolvingObject { resolve, .. } => resolve.request(),
            ActivationStage::Disconnecting { device, .. } => Request::DisconnectWifi {
                device: device.clone(),
                timeouts: self.connection.timeouts,
            },
            ActivationStage::Opening { .. } => Request::OpenManager,
            ActivationStage::Activating {
                device,
                specific_object,
            } => Request::AddAndActivateSettings {
                settings: &self.connection.settings,
                device: device.clone(),
                specific_object: specific_object.clone(),
            },
            ActivationStage::Waiting { active, .. } => Request::AwaitActivation {
                active: active.clone(),
                timeout: Some(self.connection.timeouts.connection_timeout),
            },
        }
    }

    /// How the activation goes on once it has the reply; a reply to another request changes
    /// nothing.
    pub fn resume(self, reply: Reply) -> (progress: Progress<
        AddAndActivate,
        (ObjectPath, ObjectPath),
    >)
        ensures
            progress.deep_view() == self.deep_view().resumed(reply.deep_view()),
    {
        let connection = self.connection;
        match (self.stage, reply) {
            (ActivationStage::ResolvingDevice(resolve), reply) => match resolve.resume(reply) {
                Progress::Pending(resolve) => connection.at(
                    ActivationStage::ResolvingDevice(resolve),
                ),
                Progress::Finished(found) => connection.after_device(found),
            },
            (
                ActivationStage::ResolvingObject { device, resolve },
                reply,
            ) => match resolve.resume(reply) {
                Progress::Pending(resolve) => connection.at(
                    ActivationStage::ResolvingObject { device, resolve },
                ),
                Progress::Finished(found) => connection.after_object(device, found),
            },
            (
                ActivationStage::Disconnecting { device, specific_object },
                Reply::Done(Ok(_)),
            ) => connection.at(ActivationStage::Opening { device, specific_object }),
            (ActivationStage::Disconnecting { .. }, Reply::Done(Err(error))) => Progress::Finished(
                Err(error),
            ),
            (
                ActivationStage::Opening { device, specific_object },
                Reply::Done(Ok(_)),
            ) => connection.at(ActivationStage::Activating { device, specific_object }),
            (ActivationStage::Opening { .. }, Reply::Done(Err(error))) => Progress::Finished(
                Err(error),
            ),
            (ActivationStage::Activating { .. }, Reply::Added(Ok((profile, active)))) =>
                connection.at(ActivationStage::Waiting { profile, active }),
            (ActivationStage::Activating { .. }, Reply::Added(Err(error))) => Progress::Finished(
                Err(error),
            ),
            (ActivationStage::Waiting { profile, active }, Reply::Done(Ok(_))) =>
                Progress::Finished(Ok((profile, active))),
            (ActivationStage::Waiting { .. }, Reply::Done(Err(error))) => Progress::Finished(
                Err(error),
            ),
            (stage, _) => connection.at(stage),
        }
    }
}

/// The run that frees a device, unless NetworkManager is to choose it.
pub open spec fn free_device_run(
    services: Services,
    at: int,
    device: Seq<char>,
    timeouts: TimeoutConfig,
) -> Run<()> {
    if device != "/"@ {
        let disconnect = RequestView::DisconnectWifi { device, timeouts };
        asked(disconnect, services(at, disconnect)->Done_0)
    } else {
        settled(Ok(()))
    }
}

/// The run that waits for the new connection to come up.
pub open spec fn await_added_run(
    services: Services,
    at: int,
    timeouts: TimeoutConfig,
    added: AddedView,
) -> Run<AddedView> {
    let wait = RequestView::AwaitActivation {
        active: added.1,
        timeout: Some(timeouts.connection_timeout),
    };
    asked(wait, services(at, wait)->Done_0).followed_by(|_up: ()| settled(Ok(added)))
}

/// The run that opens NetworkManager, has it save and activate the profile, and waits.
pub open spec fn activate_run(
    services: Services,
    at: int,
    connection: NewConnectionView,
    device: Seq<char>,
    specific_object: Seq<char>,
) -> Run<AddedView> {
    let activate = RequestView::AddAndActivateSettings {
        settings: connection.settings,
        device,
        specific_object,
    };
    asked(
        RequestView::OpenManager,
        services(at, RequestView::OpenManager)->Done_0,
    ).followed_by(
        |_opened: ()|
            asked(activate, services(at + 1, activate)->Added_0).followed_by(
                |added: AddedView| await_added_run(services, at + 2, connection.timeouts, added),
            ),
    )
}

/// The run once the device and the object are known.
pub open spec fn free_and_activate_run(
    services: Services,
    at: int,
    connection: NewConnectionView,
    device: Seq<char>,
    specific_object: Seq<char>,
) -> Run<AddedView> {
    let free = free_device_run(services, at, device, connection.timeouts);
    free.followed_by(
        |_freed: ()|
            activate_run(services, at + free.requests.len(), connection, device, specific_object),
    )
}

/// The run once the device is known.
pub open spec fn object_and_activate_run(
    services: Services,
    at: int,
    connection: NewConnectionView,
    device: Seq<char>,
) -> Run<AddedView> {
    let object = resolve_specific_object_run(
        services,
        at,
        connection.settings,
        connection.specific_object,
    );
    object.followed_by(
        |specific_object: Seq<char>|
            free_and_activate_run(
                services,
                at + object.requests.len(),
                connection,
                device,
                specific_object,
            ),
    )
}

/// The run of [`add_and_activate_connection`]: the device is looked for, then the object; a device
/// that was chosen is freed; NetworkManager saves and activates the profile; and the connection is
/// waited for. The first step that fails ends the run with its error.
pub open spec fn add_and_activate_connection_run(
    services: Services,
    at: int,
    connection: NewConnectionView,
    interface: Option<Seq<char>>,
) -> Run<AddedView> {
    let device = resolve_device_path_run(services, at, connection.settings, interface);
    device.followed_by(
        |path: Seq<char>|
            object_and_activate_run(services, at + device.requests.len(), connection, path),
    )
}

proof fn lemma_await_added(services: Services, at: int, c: NewConnectionView, added: AddedView)
    requires
        faithful(services),
    ensures
        performs(
            c.at(ActivationStageView::Waiting { profile: added.0, active: added.1 }),
            services,
            at,
            await_added_run(services, at, c.timeouts, added),
        ),
{
    let p = AddAndActivateView {
        connection: c,
        stage: ActivationStageView::Waiting { profile: added.0, active: added.1 },
    };
    let reply = services(at, p.request());
    assert(p.request().answered_by(reply));
    match reply->Done_0 {
        Err(error) => {
            lemma_step(p, services, at, settled(Err(error)));
        },
        Ok(_) => {
            lemma_step(p, services, at, settled(Ok(added)));
        },
    }
}

proof fn lemma_activate(
    services: Services,
    at: int,
    c: NewConnectionView,
    device: Seq<char>,
    specific_object: Seq<char>,
)
    requires
        faithful(services),
    ensures
        performs(
            c.at(ActivationStageView::Opening { device, specific_object }),
            services,
            at,
            activate_run(services, at, c, device, specific_object),
        ),
{
    let p = AddAndActivateView {
        connection: c,
        stage: ActivationStageView::Opening { device, specific_object },
    };
    let q = AddAndActivateView {
        connection: c,
        stage: ActivationStageView::Activating { device, specific_object },
    };
    let opened = services(at, p.request());
    let added = services(at + 1, q.request());
    assert(p.request().answered_by(opened));
    assert(q.request().answered_by(added));
    if opened->Done_0 is Err {
        lemma_step(p, services, at, settled(Err(opened->Done_0->Err_0)));
    } else if added->Added_0 is Err {
        let error = added->Added_0->Err_0;
        lemma_step(q, services, at + 1, settled(Err(error)));
        lemma_step(p, services, at, asked(q.request(), Err(error)));
    } else {
        let paths = added->Added_0->Ok_0;
        let wait = await_added_run(services, at + 2, c.timeouts, paths);
        lemma_await_added(services, at + 2, c, paths);
        lemma_step(q, services, at + 1, wait);
        lemma_step(
            p,
            services,
            at,
            Run { requests: seq![q.request()] + wait.requests, outcome: wait.outcome },
        );
    }
}

proof fn lemma_free_and_activate(
    services: Services,
    at: int,
    c: NewConnectionView,
    device: Seq<char>,
    specific_object: Seq<char>,
)
    requires
        faithful(services),
    ensures
        performs(
            c.after_object(device, Ok(specific_object)),
            services,
            at,
            free_and_activate_run(services, at, c, device, specific_object),
        ),
{
    let run = free_and_activate_run(services, at, c, device, specific_object);
    if device != "/"@ {
        let p = AddAndActivateView {
            connection: c,
            stage: ActivationStageView::Disconnecting { device, specific_object },
        };
        let reply = services(at, p.request());
        assert(p.request().answered_by(reply));
        match reply->Done_0 {
            Err(error) => {
                lemma_step(p, services, at, settled(Err(error)));
            },
            Ok(_) => {
                lemma_activate(services, at + 1, c, device, specific_object);
                lemma_step(
                    p,
                    services,
                    at,
                    activate_run(services, at + 1, c, device, specific_object),
                );
            },
        }
    } else {
        lemma_activate(services, at, c, device, specific_object);
        assert(run.requests =~= activate_run(
            services,
            at,
            c,
            device,
            specific_object,
        ).requests);
    }
}

proof fn lemma_object_and_activate(
    services: Services,
    at: int,
    c: NewConnectionView,
    device: Seq<char>,
)
    requires
        faithful(services),
    ensures
        performs(
            c.after_device(Ok(device)),
            services,
            at,
            object_and_activate_run(services, at, c, device),
        ),
{
    let object = resolve_specific_object_run(services, at, c.settings, c.specific_object);
    let embed = |resolve: BluezResolveView|
        AddAndActivateView {
            connection: c,
            stage: ActivationStageView::ResolvingObject { device, resolve },
        };
    let next = |found: Result<Seq<char>, ErrorView>| c.after_object(device, found);
    let then_at = at + object.requests.len();
    law_resolve_specific_object(services, at, c.settings, c.specific_object);
    let rest = match object.outcome {
        Ok(specific_object) => free_and_activate_run(
            services,
            then_at,
            c,
            device,
            specific_object,
        ),
        Err(error) => settled(Err(error)),
    };
    if object.outcome is Ok {
        lemma_free_and_activate(services, then_at, c, device, object.outcome->Ok_0);
    }
    lemma_continued(
        object_start(c.settings, c.specific_object),
        embed,
        next,
        services,
        at,
        object,
        rest,
    );
    assert(object.outcome is Err ==> object.requests + rest.requests =~= object.requests);
}

/// Whatever the services answer, the activation that [`add_and_activate_connection`] starts runs as
/// [`add_and_activate_connection_run`] says.
pub proof fn law_add_and_activate_connection(
    services: Services,
    at: int,
    connection: NewConnectionView,
    interface: Option<Seq<char>>,
)
    requires
        faithful(services),
    ensures
        performs(
            connection.start(interface),
            services,
            at,
            add_and_activate_connection_run(services, at, connection, interface),
        ),
{
    let c = connection;
    let device = resolve_device_path_run(services, at, c.settings, interface);
    let embed = |resolve: DeviceResolveView|
        AddAndActivateView {
            connection: c,
            stage: ActivationStageView::ResolvingDevice(resolve),
        };
    let next = |found: Result<Seq<char>, ErrorView>| c.after_device(found);
    let then_at = at + device.requests.len();
    law_resolve_device_path(services, at, c.settings, interface);
    let rest = match device.outcome {
        Ok(path) => object_and_activate_run(services, then_at, c, path),
        Err(error) => settled(Err(error)),
    };
    if device.outcome is Ok {
        lemma_object_and_activate(services, then_at, c, device.outcome->Ok_0);
    }
    lemma_continued(
        device_start(c.settings, interface),
        embed,
        next,
        services,
        at,
        device,
        rest,
    );
    assert(device.outcome is Err ==> device.requests + rest.requests =~= device.requests);
}

/// Whether a request changes what is connected.
pub open spec fn changes(request: RequestView) -> bool {
    request is DisconnectWifi || request is AddAndActivateSettings
}

/// None of the requests changes what is connected.
pub open spec fn changes_nothing(requests: Seq<RequestView>) -> bool {
    forall|i: int| 0 <= i < requests.len() ==> !changes(#[trigger] requests[i])
}

/// Looking for the device and for the object changes nothing.
pub proof fn law_searches_change_nothing(
    services: Services,
    at: int,
    settings: SectionsView,
    interface: Option<Seq<char>>,
    specific_object: Option<Seq<char>>,
)
    ensures
        changes_nothing(resolve_device_path_run(services, at, settings, interface).requests),
        changes_nothing(
            resolve_specific_object_run(services, at, settings, specific_object).requests,
        ),
{
    if interface is None && connection_type(settings) is Ok {
        let needed = needed_device_type(connection_type(settings)->Ok_0);
        if needed is Some {
            let wanted = Wanted::OfType(needed->0);
            let listed = services(at + 1, RequestView::ListDevices)->Paths_0;
            if listed is Ok {
                law_only_types_are_asked_for(services, at + 2, wanted, listed->Ok_0);
            }
            assert(changes_nothing(list_run(services, at + 1, wanted).requests));
        }
    }
    if bluetooth_bdaddr(settings) is Ok {
        let bdaddr = bluetooth_bdaddr(settings)->Ok_0;
        assert(changes_nothing(
            resolve_bluez_device_path_run(services, at, bdaddr, None).requests,
        ));
    }
}

/// Where the device or the object cannot be found, or the caller's path is none, nothing has been
/// changed: the device keeps the connection that it carries.
pub proof fn law_failed_search_changes_nothing(
    services: Services,
    at: int,
    connection: NewConnectionView,
    interface: Option<Seq<char>>,
)
    requires
        ({
            let device = resolve_device_path_run(services, at, connection.settings, interface);
            ||| device.outcome is Err
            ||| explicit_object(connection.specific_object) is Err
            ||| resolve_specific_object_run(
                services,
                at + device.requests.len(),
                connection.settings,
                connection.specific_object,
            ).outcome is Err
        }),
    ensures
        add_and_activate_connection_run(services, at, connection, interface).outcome is Err,
        changes_nothing(
            add_and_activate_connection_run(services, at, connection, interface).requests,
        ),
{
    let device = resolve_device_path_run(services, at, connection.settings, interface);
    let then_at = at + device.requests.len();
    let object = resolve_specific_object_run(
        services,
        then_at,
        connection.settings,
        connection.specific_object,
    );
    law_searches_change_nothing(
        services,
        at,
        connection.settings,
        interface,
        connection.specific_object,
    );
    law_searches_change_nothing(
        services,
        then_at,
        connection.settings,
        interface,
        connection.specific_object,
    );
    if device.outcome is Ok {
        assert(object.outcome is Err);
        let run = add_and_activate_connection_run(services, at, connection, interface);
        assert(run.requests == device.requests + object.requests);
    }
}

/// Where NetworkManager is to choose the device, no device is freed.
pub proof fn law_unchosen_device_is_not_freed(
    services: Services,
    at: int,
    connection: NewConnectionView,
    interface: Option<Seq<char>>,
)
    requires
        resolve_device_path_run(services, at, connection.settings, interface).outcome == Ok::<
            Seq<char>,
            ErrorView,
        >("/"@),
    ensures
        forall|i: int|
            0 <= i < add_and_activate_connection_run(
                services,
                at,
                connection,
                interface,
            ).requests.len() ==> !((#[trigger] add_and_activate_connection_run(
                services,
                at,
                connection,
                interface,
            ).requests[i]) is DisconnectWifi),
{
    let device = resolve_device_path_run(services, at, connection.settings, interface);
    let object_at = at + device.requests.len();
    let object = resolve_specific_object_run(
        services,
        object_at,
        connection.settings,
        connection.specific_object,
    );
    law_searches_change_nothing(
        services,
        at,
        connection.settings,
        interface,
        connection.specific_object,
    );
    law_searches_change_nothing(
        services,
        object_at,
        connection.settings,
        interface,
        connection.specific_object,
    );
    let run = add_and_activate_connection_run(services, at, connection, interface);
    let rest = match object.outcome {
        Ok(specific_object) => activate_run(
            services,
            object_at + object.requests.len(),
            connection,
            "/"@,
            specific_object,
        ).requests,
        Err(_) => Seq::empty(),
    };
    assert(run.requests =~= device.requests + object.requests + rest);
    assert forall|i: int| 0 <= i < run.requests.len() implies !((#[trigger] run.requests[i]) is
        DisconnectWifi) by {
        let n = device.requests.len() as int;
        let m = object.requests.len() as int;
        if i < n {
            assert(run.requests[i] == device.requests[i]);
        } else if i < n + m {
            assert(run.requests[i] == object.requests[i - n]);
        } else {
            assert(run.requests[i] == rest[i - n - m]);
        }
    }
}

/// An activation that succeeds has handed NetworkManager the caller's settings, unchanged, for the
/// device and the object that were found from these same settings. It reports the paths that
/// NetworkManager gave for the new profile and its active connection, and has waited, for as long
/// as the timeouts allow, for that connection to come up.
pub proof fn law_success_reports_what_was_added(
    services: Services,
    at: int,
    connection: NewConnectionView,
    interface: Option<Seq<char>>,
)
    requires
        add_and_activate_connection_run(services, at, connection, interface).outcome is Ok,
    ensures
        ({
            let run = add_and_activate_connection_run(services, at, connection, interface);
            let added = run.outcome->Ok_0;
            let n = run.requests.len() as int;
            let device = resolve_device_path_run(services, at, connection.settings, interface);
            let object = resolve_specific_object_run(
                services,
                at + device.requests.len(),
                connection.settings,
                connection.specific_object,
            );
            &&& n >= 2
            &&& device.outcome is Ok
            &&& object.outcome is Ok
            &&& run.requests[n - 2] == (RequestView::AddAndActivateSettings {
                settings: connection.settings,
                device: device.outcome->Ok_0,
                specific_object: object.outcome->Ok_0,
            })
            &&& services(at + n - 2, run.requests[n - 2])->Added_0 == Ok::<AddedView, ErrorView>(
                added,
            )
            &&& run.requests[n - 1] == (RequestView::AwaitActivation {
                active: added.1,
                timeout: Some(connection.timeouts.connection_timeout),
            })
            &&& services(at + n - 1, run.requests[n - 1])->Done_0 is Ok
        }),
{
    let device = resolve_device_path_run(services, at, connection.settings, interface);
    let path = device.outcome->Ok_0;
    let object_at = at + device.requests.len();
    let object = resolve_specific_object_run(
        services,
        object_at,
        connection.settings,
        connection.specific_object,
    );
    let specific_object = object.outcome->Ok_0;
    let free_at = object_at + object.requests.len();
    let free = free_device_run(services, free_at, path, connection.timeouts);
    let activate_at = free_at + free.requests.len();
    let activate = activate_run(
        services,
        activate_at,
        connection,
        path,
        specific_object,
    );
    let request = RequestView::AddAndActivateSettings {
        settings: connection.settings,
        device: path,
        specific_object,
    };
    let added = services(activate_at + 1, request)->Added_0->Ok_0;
    let wait = RequestView::AwaitActivation {
        active: added.1,
        timeout: Some(connection.timeouts.connection_timeout),
    };
    let run = add_and_activate_connection_run(services, at, connection, interface);
    let before = device.requests + object.requests + free.requests;
    assert(activate.requests =~= seq![RequestView::OpenManager, request, wait]);
    assert(run.requests == device.requests + (object.requests + (free.requests
        + activate.requests)));
    assert(run.requests =~= before + activate.requests);
    let n = run.requests.len() as int;
    assert(run.requests[n - 2] == activate.requests[1]);
    assert(run.requests[n - 1] == activate.requests[2]);
    assert(at + n - 2 == activate_at + 1);
}

/// A reply that does not answer the request that the activation waits for changes nothing.
pub proof fn law_stray_reply_leaves_activation(state: AddAndActivateView, reply: ReplyView)
    requires
        !Procedure::request(state).answered_by(reply),
    ensures
        state.resumed(reply) == ProgressView::<AddAndActivateView, AddedView>::Pending(state),
{
    match state.stage {
        ActivationStageView::ResolvingDevice(resolve) => {
            law_stray_reply_leaves_device_search(resolve, reply);
        },
        ActivationStageView::ResolvingObject { resolve, .. } => {
            law_stray_reply_leaves_resolve(resolve, reply);
        },
        _ => {},
    }
}

} // verus!
