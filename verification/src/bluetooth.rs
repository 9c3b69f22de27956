//! Connecting Bluetooth devices.

use core::time::Duration;

use vstd::prelude::*;

use crate::bluez_lookup::{
    law_resolve_bluez_device_path, law_stray_reply_leaves_resolve, resolve_bluez_device_path,
    resolve_bluez_device_path_run, BluezResolve, BluezResolveView,
};
use crate::device_search::{
    find_bluetooth_device, find_bluetooth_device_run, law_find_bluetooth_device,
    law_only_types_are_asked_for, law_stray_reply_leaves_search, DeviceSearch, DeviceSearchView,
    Wanted,
};
use crate::error::ErrorView;
use crate::models::{
    copy_text, BluetoothIdentity, BluetoothIdentityView, ConnectionOptions, TimeoutConfig,
};
use crate::object_path::ObjectPath;
use crate::protocol::{Progress, ProgressView, Reply, ReplyView, Request, RequestView};
use crate::run::{
    asked, continued, faithful, lemma_continued, lemma_step, performs, settled, Procedure, Run,
    Services,
};
use crate::text::same_text;

verus! {

/// How long to wait for a connection to come up, if that is limited.
pub open spec fn connection_timeout(timeouts: Option<TimeoutConfig>) -> Option<Duration> {
    match timeouts {
        Some(config) => Some(config.connection_timeout),
        None => None,
    }
}

/// A new Bluetooth profile is not brought up by itself.
pub open spec fn bluetooth_options() -> ConnectionOptions {
    ConnectionOptions {
        autoconnect: false,
        autoconnect_priority: None,
        autoconnect_retries: None,
    }
}

/// How far the connection of a Bluetooth device has come.
pub enum ConnectStage {
    /// NetworkManager is being opened.
    Opening,
    /// The device that is connected is being looked up.
    CheckingCurrent,
    /// The Bluetooth hardware is being looked for.
    Searching(DeviceSearch),
    /// A saved profile is being looked for.
    LookingUp { device: ObjectPath },
    /// The path of the Bluetooth device is being looked for.
    Resolving { device: ObjectPath, saved: Option<ObjectPath>, resolve: BluezResolve },
    /// The saved profile is being activated.
    Activating { profile: ObjectPath, device: ObjectPath, specific_object: ObjectPath },
    /// A new profile is being saved and activated.
    Adding { device: ObjectPath, specific_object: ObjectPath },
    /// The connection is coming up.
    Waiting { active: ObjectPath },
}

/// The mathematical value of a [`ConnectStage`].
pub enum ConnectStageView {
    Opening,
    CheckingCurrent,
    Searching(DeviceSearchView),
    LookingUp { device: Seq<char> },
    Resolving { device: Seq<char>, saved: Option<Seq<char>>, resolve: BluezResolveView },
    Activating { profile: Seq<char>, device: Seq<char>, specific_object: Seq<char> },
    Adding { device: Seq<char>, specific_object: Seq<char> },
    Waiting { active: Seq<char> },
}

impl DeepView for ConnectStage {
    type V = ConnectStageView;

    open spec fn deep_view(&self) -> ConnectStageView {
        match *self {
            ConnectStage::Opening => ConnectStageView::Opening,
            ConnectStage::CheckingCurrent => ConnectStageView::CheckingCurrent,
            ConnectStage::Searching(search) => ConnectStageView::Searching(search.deep_view()),
            ConnectStage::LookingUp { device } => ConnectStageView::LookingUp { device: device@ },
            ConnectStage::Resolving { device, saved, resolve } => ConnectStageView::Resolving {
                device: device@,
                saved: saved.deep_view(),
                resolve: resolve.deep_view(),
            },
            ConnectStage::Activating {
                profile,
                device,
                specific_object,
            } => ConnectStageView::Activating {
                profile: profile@,
                device: device@,
                specific_object: specific_object@,
            },
            ConnectStage::Adding { device, specific_object } => ConnectStageView::Adding {
                device: device@,
                specific_object: specific_object@,
            },
            ConnectStage::Waiting { active } => ConnectStageView::Waiting { active: active@ },
        }
    }
}

/// The connection of a Bluetooth device.
pub struct ConnectBluetooth {
    /// The name of the profile.
    pub name: String,
    /// The device.
    pub identity: BluetoothIdentity,
    /// How long to wait.
    pub timeouts: Option<TimeoutConfig>,
    /// How far the connection has come.
    pub stage: ConnectStage,
}

/// The mathematical value of a [`ConnectBluetooth`].
pub struct ConnectBluetoothView {
    pub name: Seq<char>,
    pub identity: BluetoothIdentityView,
    pub timeouts: Option<TimeoutConfig>,
    pub stage: ConnectStageView,
}

impl DeepView for ConnectBluetooth {
    type V = ConnectBluetoothView;

    open spec fn deep_view(&self) -> ConnectBluetoothView {
        ConnectBluetoothView {
            name: self.name@,
            identity: self.identity.deep_view(),
            timeouts: self.timeouts,
            stage: self.stage.deep_view(),
        }
    }
}

impl ConnectBluetoothView {
    /// The same connection at another stage.
    pub open spec fn at(self, stage: ConnectStageView) -> ProgressView<ConnectBluetoothView, ()> {
        ProgressView::Pending(ConnectBluetoothView { stage, ..self })
    }

    /// How it goes on once the Bluetooth hardware has been looked for.
    pub open spec fn after_search(self, found: Result<Seq<char>, ErrorView>) -> ProgressView<
        ConnectBluetoothView,
        (),
    > {
        match found {
            Ok(device) => self.at(ConnectStageView::LookingUp { device }),
            Err(error) => ProgressView::Finished(Err(error)),
        }
    }

    /// How it goes on once the path of the Bluetooth device has been looked for: a saved
    /// profile is activated, and where there is none, a new one is made.
    pub open spec fn after_resolve(
        self,
        device: Seq<char>,
        saved: Option<Seq<char>>,
        resolved: Result<Seq<char>, ErrorView>,
    ) -> ProgressView<ConnectBluetoothView, ()> {
        match resolved {
            Ok(specific_object) => match saved {
                Some(profile) => self.at(
                    ConnectStageView::Activating { profile, device, specific_object },
                ),
                None => self.at(ConnectStageView::Adding { device, specific_object }),
            },
            Err(error) => ProgressView::Finished(Err(error)),
        }
    }
}

impl Procedure for ConnectBluetoothView {
    type Output = ();

    open spec fn request(self) -> RequestView {
        match self.stage {
            ConnectStageView::Opening => RequestView::OpenManager,
            ConnectStageView::CheckingCurrent => RequestView::CurrentBluetooth,
            ConnectStageView::Searching(search) => search.request(),
            ConnectStageView::LookingUp { .. } => RequestView::SavedConnection { name: self.name },
            ConnectStageView::Resolving { resolve, .. } => resolve.request(),
            ConnectStageView::Activating {
                profile,
                device,
                specific_object,
            } => RequestView::ActivateConnection { profile, device, specific_object },
            ConnectStageView::Adding {
                device,
                specific_object,
            } => RequestView::AddAndActivateBluetooth {
                name: self.name,
                identity: self.identity,
                options: bluetooth_options(),
                device,
                specific_object,
            },
            ConnectStageView::Waiting { active } => RequestView::AwaitActivation {
                active,
                timeout: connection_timeout(self.timeouts),
            },
        }
    }

    open spec fn resumed(self, reply: ReplyView) -> ProgressView<ConnectBluetoothView, ()> {
        match (self.stage, reply) {
            (ConnectStageView::Opening, ReplyView::Done(Ok(_))) => self.at(
                ConnectStageView::CheckingCurrent,
            ),
            (ConnectStageView::Opening, ReplyView::Done(Err(error))) => ProgressView::Finished(
                Err(error),
            ),
            (
                ConnectStageView::CheckingCurrent,
                ReplyView::Current(current),
            ) => if current == Some(self.identity.bdaddr) {
                ProgressView::Finished(Ok(()))
            } else {
                self.at(
                    ConnectStageView::Searching(DeviceSearchView::Listing(Wanted::Bluetooth)),
                )
            },
            (ConnectStageView::Searching(search), _) => continued(
                search.resumed(reply),
                |search: DeviceSearchView|
                    ConnectBluetoothView { stage: ConnectStageView::Searching(search), ..self },
                |found: Result<Seq<char>, ErrorView>| self.after_search(found),
            ),
            (ConnectStageView::LookingUp { device }, ReplyView::Saved(Ok(saved))) => self.at(
                ConnectStageView::Resolving {
                    device,
                    saved,
                    resolve: BluezResolveView::Checking {
                        bdaddr: self.identity.bdaddr,
                        adapter: self.identity.adapter,
                    },
                },
            ),
            (ConnectStageView::LookingUp { .. }, ReplyView::Saved(Err(error))) =>
                ProgressView::Finished(Err(error)),
            (ConnectStageView::Resolving { device, saved, resolve }, _) => continued(
                resolve.resumed(reply),
                |resolve: BluezResolveView|
                    ConnectBluetoothView {
                        stage: ConnectStageView::Resolving { device, saved, resolve },
                        ..self
                    },
                |resolved: Result<Seq<char>, ErrorView>|
                    self.after_resolve(device, saved, resolved),
            ),
            (ConnectStageView::Activating { .. }, ReplyView::Path(Ok(active))) => self.at(
                ConnectStageView::Waiting { active },
            ),
            (ConnectStageView::Activating { .. }, ReplyView::Path(Err(error))) =>
                ProgressView::Finished(Err(error)),
            (ConnectStageView::Adding { .. }, ReplyView::Added(Ok((_, active)))) => self.at(
                ConnectStageView::Waiting { active },
            ),
            (ConnectStageView::Adding { .. }, ReplyView::Added(Err(error))) =>
                ProgressView::Finished(Err(error)),
            (ConnectStageView::Waiting { .. }, ReplyView::Done(outcome)) => ProgressView::Finished(
                outcome,
            ),
            (_, _) => ProgressView::Pending(self),
        }
    }
}

/// The start of the connection of a Bluetooth device, under the profile called `name`.
///
/// The device must be paired with BlueZ before.
pub fn connect_bluetooth(
    name: String,
    identity: BluetoothIdentity,
    timeouts: Option<TimeoutConfig>,
) -> (connect: ConnectBluetooth)
    ensures
        connect.deep_view() == (ConnectBluetoothView {
            name: name@,
            identity: identity.deep_view(),
            timeouts,
            stage: ConnectStageView::Opening,
        }),
{
    ConnectBluetooth { name, identity, timeouts, stage: ConnectStage::Opening }
}

impl ConnectBluetooth {
    /// The request whose reply the connection waits for.
    pub fn request(&self) -> (request: Request<'_>)
        ensures
            request.deep_view() == self.deep_view().request(),
    {
        match &self.stage {
            ConnectStage::Opening => Request::OpenManager,
            ConnectStage::CheckingCurrent => Request::CurrentBluetooth,
            ConnectStage::Searching(search) => search.request(),
            ConnectStage::LookingUp { .. } => Request::SavedConnection { name: self.name.clone() },
            ConnectStage::Resolving { resolve, .. } => resolve.request(),
            ConnectStage::Activating {
                profile,
                device,
                specific_object,
            } => Request::ActivateConnection {
                profile: profile.clone(),
                device: device.clone(),
                specific_object: specific_object.clone(),
            },
            ConnectStage::Adding {
                device,
                specific_object,
            } => Request::AddAndActivateBluetooth {
                name: self.name.clone(),
                identity: self.identity.clone(),
                options: ConnectionOptions {
                    autoconnect: false,
                    autoconnect_priority: None,
                    autoconnect_retries: None,
                },
                device: device.clone(),
                specific_object: specific_object.clone(),
            },
            ConnectStage::Waiting { active } => Request::AwaitActivation {
                active: active.clone(),
                timeout: match self.timeouts {
                    Some(config) => Some(config.connection_timeout),
                    None => None,
                },
            },
        }
    }

    fn at(self, stage: ConnectStage) -> (progress: Progress<ConnectBluetooth, ()>)
        ensures
            progress.deep_view() == self.deep_view().at(stage.deep_view()),
    {
        Progress::Pending(
            ConnectBluetooth {
                name: self.name,
                identity: self.identity,
                timeouts: self.timeouts,
                stage,
            },
        )
    }

    /// How the connection goes on once it has the reply; a reply to another request changes
    /// nothing.
    pub fn resume(self, reply: Reply) -> (progress: Progress<ConnectBluetooth, ()>)
        ensures
            progress.deep_view() == self.deep_view().resumed(reply.deep_view()),
    {
        let ConnectBluetooth { name, identity, timeouts, stage } = self;
        let rest = ConnectBluetooth { name, identity, timeouts, stage: ConnectStage::Opening };
        match (stage, reply) {
            (ConnectStage::Opening, Reply::Done(Ok(_))) => rest.at(ConnectStage::CheckingCurrent),
            (ConnectStage::Opening, Reply::Done(Err(error))) => Progress::Finished(Err(error)),
            (ConnectStage::CheckingCurrent, Reply::Current(current)) => {
                let connected: bool = match &current {
                    Some(active) => same_text(active.as_str(), rest.identity.bdaddr.as_str()),
                    None => false,
                };
                if connected {
                    Progress::Finished(Ok(()))
                } else {
                    rest.at(ConnectStage::Searching(find_bluetooth_device()))
                }
            },
            (ConnectStage::Searching(search), reply) => match search.resume(reply) {
                Progress::Pending(search) => rest.at(ConnectStage::Searching(search)),
                Progress::Finished(Ok(device)) => rest.at(ConnectStage::LookingUp { device }),
                Progress::Finished(Err(error)) => Progress::Finished(Err(error)),
            },
            (ConnectStage::LookingUp { device }, Reply::Saved(Ok(saved))) => {
                let resolve = resolve_bluez_device_path(
                    rest.identity.bdaddr.clone(),
                    copy_text(&rest.identity.adapter),
                );
                rest.at(ConnectStage::Resolving { device, saved, resolve })
            },
            (ConnectStage::LookingUp { .. }, Reply::Saved(Err(error))) => Progress::Finished(
                Err(error),
            ),
            (ConnectStage::Resolving { device, saved, resolve }, reply) => match resolve.resume(
                reply,
            ) {
                Progress::Pending(resolve) => rest.at(
                    ConnectStage::Resolving { device, saved, resolve },
                ),
                Progress::Finished(Ok(specific_object)) => match saved {
                    Some(profile) => rest.at(
                        ConnectStage::Activating { profile, device, specific_object },
                    ),
                    None => rest.at(ConnectStage::Adding { device, specific_object }),
                },
                Progress::Finished(Err(error)) => Progress::Finished(Err(error)),
            },
            (ConnectStage::Activating { .. }, Reply::Path(Ok(active))) => rest.at(
                ConnectStage::Waiting { active },
            ),
            (ConnectStage::Activating { .. }, Reply::Path(Err(error))) => Progress::Finished(
                Err(error),
            ),
            (ConnectStage::Adding { .. }, Reply::Added(Ok((_, active)))) => rest.at(
                ConnectStage::Waiting { active },
            ),
            (ConnectStage::Adding { .. }, Reply::Added(Err(error))) => Progress::Finished(
                Err(error),
            ),
            (ConnectStage::Waiting { .. }, Reply::Done(outcome)) => Progress::Finished(outcome),
            (stage, _) => rest.at(stage),
        }
    }
}

/// The run that waits for an active connection to come up.
pub open spec fn await_run(
    services: Services,
    at: int,
    timeouts: Option<TimeoutConfig>,
    active: Seq<char>,
) -> Run<()> {
    let wait = RequestView::AwaitActivation { active, timeout: connection_timeout(timeouts) };
    asked(wait, services(at, wait)->Done_0)
}

/// The path of the active connection of a new profile.
pub open spec fn active_of(added: Result<(Seq<char>, Seq<char>), ErrorView>) -> Result<
    Seq<char>,
    ErrorView,
> {
    match added {
        Ok((_, active)) => Ok(active),
        Err(error) => Err(error),
    }
}

/// The run that activates the saved profile, or makes a new one, and waits for it.
pub open spec fn bring_up_run(
    services: Services,
    at: int,
    name: Seq<char>,
    identity: BluetoothIdentityView,
    timeouts: Option<TimeoutConfig>,
    device: Seq<char>,
    saved: Option<Seq<char>>,
    specific_object: Seq<char>,
) -> Run<()> {
    match saved {
        Some(profile) => {
            let activate = RequestView::ActivateConnection { profile, device, specific_object };
            asked(activate, services(at, activate)->Path_0).followed_by(
                |active: Seq<char>| await_run(services, at + 1, timeouts, active),
            )
        },
        None => {
            let add = RequestView::AddAndActivateBluetooth {
                name,
                identity,
                options: bluetooth_options(),
                device,
                specific_object,
            };
            asked(add, active_of(services(at, add)->Added_0)).followed_by(
                |active: Seq<char>| await_run(services, at + 1, timeouts, active),
            )
        },
    }
}

/// The run from the search for the path of the Bluetooth device on.
pub open spec fn resolve_and_bring_up_run(
    services: Services,
    at: int,
    name: Seq<char>,
    identity: BluetoothIdentityView,
    timeouts: Option<TimeoutConfig>,
    device: Seq<char>,
    saved: Option<Seq<char>>,
) -> Run<()> {
    let resolve = resolve_bluez_device_path_run(services, at, identity.bdaddr, identity.adapter);
    resolve.followed_by(
        |specific_object: Seq<char>|
            bring_up_run(
                services,
                at + resolve.requests.len(),
                name,
                identity,
                timeouts,
                device,
                saved,
                specific_object,
            ),
    )
}

/// The run from the search for a saved profile on.
pub open spec fn look_up_run(
    services: Services,
    at: int,
    name: Seq<char>,
    identity: BluetoothIdentityView,
    timeouts: Option<TimeoutConfig>,
    device: Seq<char>,
) -> Run<()> {
    let look_up = RequestView::SavedConnection { name };
    asked(look_up, services(at, look_up)->Saved_0).followed_by(
        |saved: Option<Seq<char>>|
            resolve_and_bring_up_run(services, at + 1, name, identity, timeouts, device, saved),
    )
}

/// The run from the search for the Bluetooth hardware on.
pub open spec fn search_run(
    services: Services,
    at: int,
    name: Seq<char>,
    identity: BluetoothIdentityView,
    timeouts: Option<TimeoutConfig>,
) -> Run<()> {
    let search = find_bluetooth_device_run(services, at);
    search.followed_by(
        |device: Seq<char>|
            look_up_run(services, at + search.requests.len(), name, identity, timeouts, device),
    )
}

/// Whether the device that is connected is the one to connect to.
pub open spec fn already_connected(
    services: Services,
    at: int,
    identity: BluetoothIdentityView,
) -> bool {
    services(at + 1, RequestView::CurrentBluetooth)->Current_0 == Some(identity.bdaddr)
}

/// The run of [`connect_bluetooth`]:
/// 1. NetworkManager is opened;
/// 2. where the device is connected already, that is all;
/// 3. the Bluetooth hardware is looked for;
/// 4. a saved profile is looked for;
/// 5. the path of the Bluetooth device is looked for;
/// 6. the saved profile is activated, or a new one made;
/// 7. the connection is waited for.
/// The first step that fails ends the run with its error.
pub open spec fn connect_bluetooth_run(
    services: Services,
    at: int,
    name: Seq<char>,
    identity: BluetoothIdentityView,
    timeouts: Option<TimeoutConfig>,
) -> Run<()> {
    asked(
        RequestView::OpenManager,
        services(at, RequestView::OpenManager)->Done_0,
    ).followed_by(
        |_opened: ()|
            {
                let checked = asked(RequestView::CurrentBluetooth, Ok(()));
                if already_connected(services, at, identity) {
                    checked
                } else {
                    checked.followed_by(
                        |_other: ()| search_run(services, at + 2, name, identity, timeouts),
                    )
                }
            },
    )
}

proof fn lemma_await(services: Services, at: int, c: ConnectBluetoothView)
    requires
        faithful(services),
        c.stage is Waiting,
    ensures
        performs(
            ProgressView::Pending(c),
            services,
            at,
            await_run(services, at, c.timeouts, c.stage->active),
        ),
{
    let reply = services(at, c.request());
    assert(c.request().answered_by(reply));
    lemma_step(c, services, at, settled(reply->Done_0));
}

proof fn lemma_bring_up(
    services: Services,
    at: int,
    c: ConnectBluetoothView,
    device: Seq<char>,
    saved: Option<Seq<char>>,
    specific_object: Seq<char>,
)
    requires
        faithful(services),
    ensures
        performs(
            c.after_resolve(device, saved, Ok(specific_object)),
            services,
            at,
            bring_up_run(
                services,
                at,
                c.name,
                c.identity,
                c.timeouts,
                device,
                saved,
                specific_object,
            ),
        ),
{
    let p = c.after_resolve(device, saved, Ok(specific_object))->Pending_0;
    let reply = services(at, p.request());
    assert(p.request().answered_by(reply));
    let activated = match saved {
        Some(_) => reply->Path_0,
        None => active_of(reply->Added_0),
    };
    match activated {
        Err(error) => {
            lemma_step(p, services, at, settled(Err(error)));
        },
        Ok(active) => {
            let waiting = ConnectBluetoothView {
                stage: ConnectStageView::Waiting { active },
                ..c
            };
            assert(p.resumed(reply) == ProgressView::<ConnectBluetoothView, ()>::Pending(waiting));
            lemma_await(services, at + 1, waiting);
            lemma_step(p, services, at, await_run(services, at + 1, c.timeouts, active));
        },
    }
}

proof fn lemma_resolve_and_bring_up(
    services: Services,
    at: int,
    c: ConnectBluetoothView,
    device: Seq<char>,
    saved: Option<Seq<char>>,
)
    requires
        faithful(services),
    ensures
        performs(
            c.at(
                ConnectStageView::Resolving {
                    device,
                    saved,
                    resolve: BluezResolveView::Checking {
                        bdaddr: c.identity.bdaddr,
                        adapter: c.identity.adapter,
                    },
                },
            ),
            services,
            at,
            resolve_and_bring_up_run(
                services,
                at,
                c.name,
                c.identity,
                c.timeouts,
                device,
                saved,
            ),
        ),
{
    let bdaddr = c.identity.bdaddr;
    let adapter = c.identity.adapter;
    let resolve = resolve_bluez_device_path_run(services, at, bdaddr, adapter);
    let embed = |resolve: BluezResolveView|
        ConnectBluetoothView {
            stage: ConnectStageView::Resolving { device, saved, resolve },
            ..c
        };
    let next = |resolved: Result<Seq<char>, ErrorView>| c.after_resolve(device, saved, resolved);
    let then_at = at + resolve.requests.len();
    law_resolve_bluez_device_path(services, at, bdaddr, adapter);
    let rest = match resolve.outcome {
        Ok(specific_object) => bring_up_run(
            services,
            then_at,
            c.name,
            c.identity,
            c.timeouts,
            device,
            saved,
            specific_object,
        ),
        Err(error) => settled(Err(error)),
    };
    if resolve.outcome is Ok {
        lemma_bring_up(services, then_at, c, device, saved, resolve.outcome->Ok_0);
    }
    assert forall|q: BluezResolveView, reply: ReplyView| #[trigger]
        embed(q).resumed(reply) == continued(q.resumed(reply), embed, next) by {
        let state = embed(q);
        assert forall|resolved: Result<Seq<char>, ErrorView>| #[trigger]
            state.after_resolve(device, saved, resolved) == c.after_resolve(
            device,
            saved,
            resolved,
        ) by {}
    }
    lemma_continued(
        ProgressView::Pending(BluezResolveView::Checking { bdaddr, adapter }),
        embed,
        next,
        services,
        at,
        resolve,
        rest,
    );
    assert(resolve.outcome is Err ==> resolve.requests + rest.requests =~= resolve.requests);
}

proof fn lemma_look_up(services: Services, at: int, c: ConnectBluetoothView, device: Seq<char>)
    requires
        faithful(services),
    ensures
        performs(
            c.after_search(Ok(device)),
            services,
            at,
            look_up_run(services, at, c.name, c.identity, c.timeouts, device),
        ),
{
    let p = c.after_search(Ok(device))->Pending_0;
    let reply = services(at, p.request());
    assert(p.request().answered_by(reply));
    match reply->Saved_0 {
        Err(error) => {
            lemma_step(p, services, at, settled(Err(error)));
        },
        Ok(saved) => {
            lemma_resolve_and_bring_up(services, at + 1, p, device, saved);
            lemma_step(
                p,
                services,
                at,
                resolve_and_bring_up_run(
                    services,
                    at + 1,
                    c.name,
                    c.identity,
                    c.timeouts,
                    device,
                    saved,
                ),
            );
        },
    }
}

proof fn lemma_search(services: Services, at: int, c: ConnectBluetoothView)
    requires
        faithful(services),
    ensures
        performs(
            c.at(ConnectStageView::Searching(DeviceSearchView::Listing(Wanted::Bluetooth))),
            services,
            at,
            search_run(services, at, c.name, c.identity, c.timeouts),
        ),
{
    let search = find_bluetooth_device_run(services, at);
    let embed = |search: DeviceSearchView|
        ConnectBluetoothView { stage: ConnectStageView::Searching(search), ..c };
    let next = |found: Result<Seq<char>, ErrorView>| c.after_search(found);
    let then_at = at + search.requests.len();
    law_find_bluetooth_device(services, at);
    let rest = match search.outcome {
        Ok(device) => look_up_run(services, then_at, c.name, c.identity, c.timeouts, device),
        Err(error) => settled(Err(error)),
    };
    if search.outcome is Ok {
        lemma_look_up(services, then_at, c, search.outcome->Ok_0);
    }
    assert forall|q: DeviceSearchView, reply: ReplyView| #[trigger]
        embed(q).resumed(reply) == continued(q.resumed(reply), embed, next) by {
        let state = embed(q);
        assert forall|found: Result<Seq<char>, ErrorView>| #[trigger]
            state.after_search(found) == c.after_search(found) by {}
    }
    lemma_continued(
        ProgressView::Pending(DeviceSearchView::Listing(Wanted::Bluetooth)),
        embed,
        next,
        services,
        at,
        search,
        rest,
    );
    assert(search.outcome is Err ==> search.requests + rest.requests =~= search.requests);
}

/// Whatever the services answer, the connection that [`connect_bluetooth`] starts runs as
/// [`connect_bluetooth_run`] says.
pub proof fn law_connect_bluetooth(
    services: Services,
    at: int,
    name: Seq<char>,
    identity: BluetoothIdentityView,
    timeouts: Option<TimeoutConfig>,
)
    requires
        faithful(services),
    ensures
        performs(
            ProgressView::Pending(
                ConnectBluetoothView { name, identity, timeouts, stage: ConnectStageView::Opening },
            ),
            services,
            at,
            connect_bluetooth_run(services, at, name, identity, timeouts),
        ),
{
    let p = ConnectBluetoothView { name, identity, timeouts, stage: ConnectStageView::Opening };
    let q = ConnectBluetoothView { stage: ConnectStageView::CheckingCurrent, ..p };
    let opened = services(at, p.request());
    let current = services(at + 1, q.request());
    assert(p.request().answered_by(opened));
    assert(q.request().answered_by(current));
    match opened->Done_0 {
        Err(error) => {
            lemma_step(p, services, at, settled(Err(error)));
        },
        Ok(_) => {
            if already_connected(services, at, identity) {
                lemma_step(q, services, at + 1, settled(Ok(())));
                lemma_step(p, services, at, asked(q.request(), Ok(())));
            } else {
                lemma_search(services, at + 2, q);
                let search = search_run(services, at + 2, name, identity, timeouts);
                lemma_step(q, services, at + 1, search);
                lemma_step(
                    p,
                    services,
                    at,
                    Run { requests: seq![q.request()] + search.requests, outcome: search.outcome },
                );
            }
        },
    }
}

/// A device that is connected already is left as it is: NetworkManager is opened and asked which
/// device is connected, and that is all.
pub proof fn law_connected_device_is_left_alone(
    services: Services,
    at: int,
    name: Seq<char>,
    identity: BluetoothIdentityView,
    timeouts: Option<TimeoutConfig>,
)
    requires
        services(at, RequestView::OpenManager) == ReplyView::Done(Ok(())),
        services(at + 1, RequestView::CurrentBluetooth) == ReplyView::Current(
            Some(identity.bdaddr),
        ),
    ensures
        connect_bluetooth_run(services, at, name, identity, timeouts) == (Run {
            requests: seq![RequestView::OpenManager, RequestView::CurrentBluetooth],
            outcome: Ok(()),
        }),
{
    assert(seq![RequestView::OpenManager] + seq![RequestView::CurrentBluetooth] =~= seq![
        RequestView::OpenManager,
        RequestView::CurrentBluetooth,
    ]);
}

/// Whether a request brings a connection up.
pub open spec fn brings_up(request: RequestView) -> bool {
    request is ActivateConnection || request is AddAndActivateBluetooth
}

/// None of the requests brings a connection up.
pub open spec fn only_asks(requests: Seq<RequestView>) -> bool {
    forall|i: int| 0 <= i < requests.len() ==> !brings_up(#[trigger] requests[i])
}

proof fn lemma_searches_only_ask(
    services: Services,
    at: int,
    bdaddr: Seq<char>,
    adapter: Option<Seq<char>>,
)
    ensures
        only_asks(find_bluetooth_device_run(services, at).requests),
        only_asks(resolve_bluez_device_path_run(services, at, bdaddr, adapter).requests),
{
    let listed = services(at, RequestView::ListDevices)->Paths_0;
    if listed is Ok {
        law_only_types_are_asked_for(services, at + 1, Wanted::Bluetooth, listed->Ok_0);
    }
}

/// The requests up to the last two, whatever they are, only ask; and where the run succeeds, the
/// last two bring the connection up and wait for it.
pub open spec fn brings_up_at_the_end(run: Run<()>, timeouts: Option<TimeoutConfig>) -> bool {
    let n = run.requests.len() as int;
    &&& forall|i: int| 0 <= i < n - 2 ==> !brings_up(#[trigger] run.requests[i])
    &&& n >= 2 && brings_up(run.requests[n - 2]) ==> (run.requests[n - 1] matches
        RequestView::AwaitActivation { timeout, .. } && timeout == connection_timeout(timeouts))
    &&& run.outcome is Ok ==> n >= 2 && brings_up(run.requests[n - 2])
}

proof fn lemma_after_asking(
    first: Seq<RequestView>,
    rest: Run<()>,
    timeouts: Option<TimeoutConfig>,
)
    requires
        only_asks(first),
        brings_up_at_the_end(rest, timeouts),
    ensures
        brings_up_at_the_end(
            Run { requests: first + rest.requests, outcome: rest.outcome },
            timeouts,
        ),
{
    let whole = first + rest.requests;
    let n = whole.len() as int;
    let k = first.len() as int;
    assert forall|i: int| 0 <= i < n - 2 implies !brings_up(#[trigger] whole[i]) by {
        if i < k {
            assert(whole[i] == first[i]);
        } else {
            assert(whole[i] == rest.requests[i - k]);
        }
    }
    if n >= 2 && brings_up(whole[n - 2]) {
        if n - 2 < k {
            assert(whole[n - 2] == first[n - 2]);
        } else {
            assert(whole[n - 2] == rest.requests[n - 2 - k]);
            assert(whole[n - 1] == rest.requests[n - 1 - k]);
        }
    }
    if rest.outcome is Ok {
        assert(whole[n - 2] == rest.requests[n - 2 - k]);
    }
}

/// Nothing is brought up before everything has been found out. A run asks first, and brings
/// a connection up, if it comes to that, once: by its last request, where that fails, or by the
/// last but one, after which it waits for the connection, for as long as the timeouts allow. A
/// run that succeeds has done so, unless the device was connected already.
pub proof fn law_brought_up_once_and_last(
    services: Services,
    at: int,
    name: Seq<char>,
    identity: BluetoothIdentityView,
    timeouts: Option<TimeoutConfig>,
)
    ensures
        ({
            let run = connect_bluetooth_run(services, at, name, identity, timeouts);
            already_connected(services, at, identity) && only_asks(run.requests)
                || brings_up_at_the_end(run, timeouts)
        }),
{
    let opened = services(at, RequestView::OpenManager)->Done_0;
    if opened is Ok && !already_connected(services, at, identity) {
        let search = find_bluetooth_device_run(services, at + 2);
        lemma_searches_only_ask(services, at + 2, identity.bdaddr, identity.adapter);
        let run = search_run(services, at + 2, name, identity, timeouts);
        if search.outcome is Ok {
            let device = search.outcome->Ok_0;
            let look_up_at = at + 2 + search.requests.len();
            let look_up = RequestView::SavedConnection { name };
            let found = services(look_up_at, look_up)->Saved_0;
            let looked_up = look_up_run(services, look_up_at, name, identity, timeouts, device);
            if found is Ok {
                let saved = found->Ok_0;
                let resolve_at = look_up_at + 1;
                let resolve = resolve_bluez_device_path_run(
                    services,
                    resolve_at,
                    identity.bdaddr,
                    identity.adapter,
                );
                lemma_searches_only_ask(services, resolve_at, identity.bdaddr, identity.adapter);
                let resolved = resolve_and_bring_up_run(
                    services,
                    resolve_at,
                    name,
                    identity,
                    timeouts,
                    device,
                    saved,
                );
                if resolve.outcome is Ok {
                    let up = bring_up_run(
                        services,
                        resolve_at + resolve.requests.len(),
                        name,
                        identity,
                        timeouts,
                        device,
                        saved,
                        resolve.outcome->Ok_0,
                    );
                    assert(brings_up_at_the_end(up, timeouts));
                    lemma_after_asking(resolve.requests, up, timeouts);
                }
                assert(brings_up_at_the_end(resolved, timeouts));
                lemma_after_asking(seq![look_up], resolved, timeouts);
            }
            assert(brings_up_at_the_end(looked_up, timeouts));
            lemma_after_asking(search.requests, looked_up, timeouts);
        }
        assert(brings_up_at_the_end(run, timeouts));
        lemma_after_asking(seq![RequestView::CurrentBluetooth], run, timeouts);
        lemma_after_asking(
            seq![RequestView::OpenManager],
            Run {
                requests: seq![RequestView::CurrentBluetooth] + run.requests,
                outcome: run.outcome,
            },
            timeouts,
        );
    }
}

/// The request that brings the connection up.
pub open spec fn bring_up_request(
    name: Seq<char>,
    identity: BluetoothIdentityView,
    device: Seq<char>,
    saved: Option<Seq<char>>,
    specific_object: Seq<char>,
) -> RequestView {
    match saved {
        Some(profile) => RequestView::ActivateConnection { profile, device, specific_object },
        None => RequestView::AddAndActivateBluetooth {
            name,
            identity,
            options: bluetooth_options(),
            device,
            specific_object,
        },
    }
}

/// A saved profile is used where there is one, and a new one is made only where there is none,
/// of the name and the device asked for and such that it is not brought up by itself. Either
/// way it is brought up on the hardware that was found and for the device object that was
/// found.
pub proof fn law_saved_profile_is_preferred(
    services: Services,
    at: int,
    name: Seq<char>,
    identity: BluetoothIdentityView,
    timeouts: Option<TimeoutConfig>,
    device: Seq<char>,
    saved: Option<Seq<char>>,
    specific_object: Seq<char>,
)
    requires
        services(at, RequestView::OpenManager) == ReplyView::Done(Ok(())),
        !already_connected(services, at, identity),
        find_bluetooth_device_run(services, at + 2).outcome == Ok::<Seq<char>, ErrorView>(device),
        ({
            let look_up_at = at + 2 + find_bluetooth_device_run(services, at + 2).requests.len();
            &&& services(look_up_at, RequestView::SavedConnection { name }) == ReplyView::Saved(
                Ok(saved),
            )
            &&& resolve_bluez_device_path_run(
                services,
                look_up_at + 1,
                identity.bdaddr,
                identity.adapter,
            ).outcome == Ok::<Seq<char>, ErrorView>(specific_object)
        }),
    ensures
        ({
            let searched = find_bluetooth_device_run(services, at + 2).requests;
            let resolved = resolve_bluez_device_path_run(
                services,
                at + 3 + searched.len(),
                identity.bdaddr,
                identity.adapter,
            ).requests;
            let asking = seq![RequestView::OpenManager, RequestView::CurrentBluetooth] + searched
                + seq![RequestView::SavedConnection { name }] + resolved;
            let requests = connect_bluetooth_run(
                services,
                at,
                name,
                identity,
                timeouts,
            ).requests;
            &&& requests.len() > asking.len()
            &&& requests.take(asking.len() as int) == asking
            &&& requests[asking.len() as int] == bring_up_request(
                name,
                identity,
                device,
                saved,
                specific_object,
            )
        }),
{
    let search = find_bluetooth_device_run(services, at + 2);
    let look_up_at = at + 2 + search.requests.len();
    let look_up = RequestView::SavedConnection { name };
    let resolve = resolve_bluez_device_path_run(
        services,
        look_up_at + 1,
        identity.bdaddr,
        identity.adapter,
    );
    let up = bring_up_run(
        services,
        look_up_at + 1 + resolve.requests.len(),
        name,
        identity,
        timeouts,
        device,
        saved,
        specific_object,
    );
    assert(services(look_up_at, look_up)->Saved_0 == Ok::<Option<Seq<char>>, ErrorView>(saved));
    let requests = connect_bluetooth_run(services, at, name, identity, timeouts).requests;
    let asking = seq![RequestView::OpenManager, RequestView::CurrentBluetooth] + search.requests
        + seq![look_up] + resolve.requests;
    assert(requests == seq![RequestView::OpenManager] + (seq![RequestView::CurrentBluetooth] + (
    search.requests + (seq![look_up] + (resolve.requests + up.requests)))));
    assert(requests =~= asking + up.requests);
    assert(up.requests[0] == bring_up_request(name, identity, device, saved, specific_object));
}

/// A reply that does not answer the request that the connection waits for changes nothing.
pub proof fn law_stray_reply_leaves_connection(state: ConnectBluetoothView, reply: ReplyView)
    requires
        !Procedure::request(state).answered_by(reply),
    ensures
        state.resumed(reply) == ProgressView::<ConnectBluetoothView, ()>::Pending(state),
{
    match state.stage {
        ConnectStageView::Searching(search) => {
            law_stray_reply_leaves_search(search, reply);
        },
        ConnectStageView::Resolving { resolve, .. } => {
            law_stray_reply_leaves_resolve(resolve, reply);
        },
        _ => {},
    }
}

} // verus!
