//! Disconnecting Bluetooth devices.

use core::time::Duration;

use vstd::prelude::*;

use crate::device_state;
use crate::models::TimeoutConfig;
use crate::object_path::ObjectPath;
use crate::protocol::{Progress, ProgressView, Reply, ReplyView, Request, RequestView};
use crate::run::{asked, faithful, lemma_step, performs, settled, Procedure, Run, Services};

verus! {

/// How long to wait for a connection to go down, if that is limited.
pub open spec fn disconnect_timeout(timeouts: Option<TimeoutConfig>) -> Option<Duration> {
    match timeouts {
        Some(config) => Some(config.disconnect_timeout),
        None => None,
    }
}

/// Whether a device in this state carries no connection.
pub open spec fn is_down(state: u32) -> bool {
    state == device_state::DISCONNECTED || state == device_state::UNAVAILABLE
}

/// How far the disconnection of a device has come.
#[derive(Clone, Copy, Debug, PartialEq, Eq, Structural)]
pub enum DisconnectStage {
    /// The state of the device is being read.
    ReadingState,
    /// The device is being told to disconnect.
    Disconnecting,
    /// The connection is going down.
    Waiting,
}

/// The disconnection of a Bluetooth device.
pub struct DisconnectBluetooth {
    /// The device.
    pub device: ObjectPath,
    /// How long to wait.
    pub timeouts: Option<TimeoutConfig>,
    /// How far the disconnection has come.
    pub stage: DisconnectStage,
}

/// The mathematical value of a [`DisconnectBluetooth`].
pub struct DisconnectBluetoothView {
    pub device: Seq<char>,
    pub timeouts: Option<TimeoutConfig>,
    pub stage: DisconnectStage,
}

impl DeepView for DisconnectBluetooth {
    type V = DisconnectBluetoothView;

    open spec fn deep_view(&self) -> DisconnectBluetoothView {
        DisconnectBluetoothView {
            device: self.device@,
            timeouts: self.timeouts,
            stage: self.stage,
        }
    }
}

impl DisconnectBluetoothView {
    /// The same disconnection at another stage.
    pub open spec fn at(self, stage: DisconnectStage) -> ProgressView<DisconnectBluetoothView, ()> {
        ProgressView::Pending(DisconnectBluetoothView { stage, ..self })
    }
}

impl Procedure for DisconnectBluetoothView {
    type Output = ();

    open spec fn request(self) -> RequestView {
        match self.stage {
            DisconnectStage::ReadingState => RequestView::DeviceState { device: self.device },
            DisconnectStage::Disconnecting => RequestView::Disconnect { device: self.device },
            DisconnectStage::Waiting => RequestView::AwaitDisconnect {
                device: self.device,
                timeout: disconnect_timeout(self.timeouts),
            },
        }
    }

    open spec fn resumed(self, reply: ReplyView) -> ProgressView<DisconnectBluetoothView, ()> {
        match (self.stage, reply) {
            (DisconnectStage::ReadingState, ReplyView::Number(Ok(state))) => if is_down(state) {
                ProgressView::Finished(Ok(()))
            } else {
                self.at(DisconnectStage::Disconnecting)
            },
            (DisconnectStage::ReadingState, ReplyView::Number(Err(error))) =>
                ProgressView::Finished(Err(error)),
            (DisconnectStage::Disconnecting, ReplyView::Done(Ok(_))) => self.at(
                DisconnectStage::Waiting,
            ),
            (DisconnectStage::Disconnecting, ReplyView::Done(Err(error))) =>
                ProgressView::Finished(Err(error)),
            (DisconnectStage::Waiting, ReplyView::Done(outcome)) => ProgressView::Finished(
                outcome,
            ),
            (_, _) => ProgressView::Pending(self),
        }
    }
}

/// The start of the disconnection of a Bluetooth device, which ends once the device carries no
/// connection.
pub fn disconnect_bluetooth_and_wait(device: ObjectPath, timeouts: Option<TimeoutConfig>) -> (
    disconnect: DisconnectBluetooth)
    ensures
        disconnect.deep_view() == (DisconnectBluetoothView {
            device: device@,
            timeouts,
            stage: DisconnectStage::ReadingState,
        }),
{
    DisconnectBluetooth { device, timeouts, stage: DisconnectStage::ReadingState }
}

impl DisconnectBluetooth {
    /// The request whose reply the disconnection waits for.
    pub fn request(&self) -> (request: Request<'_>)
        ensures
            request.deep_view() == self.deep_view().request(),
    {
        let device: ObjectPath = self.device.clone();
        match self.stage {
            DisconnectStage::ReadingState => Request::DeviceState { device },
            DisconnectStage::Disconnecting => Request::Disconnect { device },
            DisconnectStage::Waiting => Request::AwaitDisconnect {
                device,
                timeout: match self.timeouts {
                    Some(config) => Some(config.disconnect_timeout),
                    None => None,
                },
            },
        }
    }

    fn at(self, stage: DisconnectStage) -> (progress: Progress<DisconnectBluetooth, ()>)
        ensures
            progress.deep_view() == self.deep_view().at(stage),
    {
        Progress::Pending(
            DisconnectBluetooth { device: self.device, timeouts: self.timeouts, stage },
        )
    }

    /// How the disconnection goes on once it has the reply; a reply to another request changes
    /// nothing.
    pub fn resume(self, reply: Reply) -> (progress: Progress<DisconnectBluetooth, ()>)
        ensures
            progress.deep_view() == self.deep_view().resumed(reply.deep_view()),
    {
        match (self.stage, reply) {
            (DisconnectStage::ReadingState, Reply::Number(Ok(state))) => {
                if state == device_state::DISCONNECTED || state == device_state::UNAVAILABLE {
                    Progress::Finished(Ok(()))
                } else {
                    self.at(DisconnectStage::Disconnecting)
                }
            },
            (DisconnectStage::ReadingState, Reply::Number(Err(error))) => Progress::Finished(
                Err(error),
            ),
            (DisconnectStage::Disconnecting, Reply::Done(Ok(_))) => self.at(
                DisconnectStage::Waiting,
            ),
            (DisconnectStage::Disconnecting, Reply::Done(Err(error))) => Progress::Finished(
                Err(error),
            ),
            (DisconnectStage::Waiting, Reply::Done(outcome)) => Progress::Finished(outcome),
            (_, _) => Progress::Pending(self),
        }
    }
}

/// The run of [`disconnect_bluetooth_and_wait`]: the state of the device is read, and unless it
/// carries no connection, it is told to disconnect and waited for.
pub open spec fn disconnect_bluetooth_and_wait_run(
    services: Services,
    at: int,
    device: Seq<char>,
    timeouts: Option<TimeoutConfig>,
) -> Run<()> {
    let read = RequestView::DeviceState { device };
    let disconnect = RequestView::Disconnect { device };
    let wait = RequestView::AwaitDisconnect { device, timeout: disconnect_timeout(timeouts) };
    asked(read, services(at, read)->Number_0).followed_by(
        |state: u32|
            if is_down(state) {
                settled(Ok(()))
            } else {
                asked(disconnect, services(at + 1, disconnect)->Done_0).followed_by(
                    |_told: ()| asked(wait, services(at + 2, wait)->Done_0),
                )
            },
    )
}

/// Whatever the services answer, the disconnection that [`disconnect_bluetooth_and_wait`] starts
/// runs as [`disconnect_bluetooth_and_wait_run`] says.
pub proof fn law_disconnect_bluetooth_and_wait(
    services: Services,
    at: int,
    device: Seq<char>,
    timeouts: Option<TimeoutConfig>,
)
    requires
        faithful(services),
    ensures
        performs(
            ProgressView::Pending(
                DisconnectBluetoothView { device, timeouts, stage: DisconnectStage::ReadingState },
            ),
            services,
            at,
            disconnect_bluetooth_and_wait_run(services, at, device, timeouts),
        ),
{
    let p = DisconnectBluetoothView { device, timeouts, stage: DisconnectStage::ReadingState };
    let q = DisconnectBluetoothView { stage: DisconnectStage::Disconnecting, ..p };
    let r = DisconnectBluetoothView { stage: DisconnectStage::Waiting, ..p };
    let state = services(at, p.request());
    let told = services(at + 1, q.request());
    let waited = services(at + 2, r.request());
    assert(p.request().answered_by(state));
    assert(q.request().answered_by(told));
    assert(r.request().answered_by(waited));
    let run = disconnect_bluetooth_and_wait_run(services, at, device, timeouts);
    match state->Number_0 {
        Err(error) => {
            lemma_step(p, services, at, settled(run.outcome));
        },
        Ok(state) => {
            if is_down(state) {
                lemma_step(p, services, at, settled(run.outcome));
            } else if told->Done_0 is Err {
                lemma_step(q, services, at + 1, settled(run.outcome));
                lemma_step(p, services, at, asked(q.request(), run.outcome));
            } else {
                lemma_step(r, services, at + 2, settled(run.outcome));
                lemma_step(q, services, at + 1, asked(r.request(), run.outcome));
                lemma_step(
                    p,
                    services,
                    at,
                    Run {
                        requests: seq![q.request()] + seq![r.request()],
                        outcome: run.outcome,
                    },
                );
            }
        },
    }
}

/// A device that carries no connection is left as it is, and the disconnection succeeds at once.
pub proof fn law_idle_device_is_left_alone(
    services: Services,
    at: int,
    device: Seq<char>,
    timeouts: Option<TimeoutConfig>,
    state: u32,
)
    requires
        services(at, RequestView::DeviceState { device }) == ReplyView::Number(Ok(state)),
        is_down(state),
    ensures
        disconnect_bluetooth_and_wait_run(services, at, device, timeouts) == asked(
            RequestView::DeviceState { device },
            Ok(()),
        ),
{
    let read = RequestView::DeviceState { device };
    assert(seq![read] + Seq::<RequestView>::empty() =~= seq![read]);
}

/// A disconnection that told the device to disconnect succeeds only after it has waited, for as
/// long as the timeouts allow, and been told that the device carries no connection any more.
pub proof fn law_success_means_waited_for(
    services: Services,
    at: int,
    device: Seq<char>,
    timeouts: Option<TimeoutConfig>,
)
    requires
        disconnect_bluetooth_and_wait_run(services, at, device, timeouts).requests.contains(
            RequestView::Disconnect { device },
        ),
        disconnect_bluetooth_and_wait_run(services, at, device, timeouts).outcome is Ok,
    ensures
        ({
            let wait = RequestView::AwaitDisconnect {
                device,
                timeout: disconnect_timeout(timeouts),
            };
            &&& disconnect_bluetooth_and_wait_run(services, at, device, timeouts).requests
                == seq![
                RequestView::DeviceState { device },
                RequestView::Disconnect { device },
                wait,
            ]
            &&& services(at + 2, wait)->Done_0 is Ok
        }),
{
    let read = RequestView::DeviceState { device };
    let disconnect = RequestView::Disconnect { device };
    let wait = RequestView::AwaitDisconnect { device, timeout: disconnect_timeout(timeouts) };
    let run = disconnect_bluetooth_and_wait_run(services, at, device, timeouts);
    let state = services(at, read)->Number_0;
    if state is Ok && !is_down(state->Ok_0) && services(at + 1, disconnect)->Done_0 is Ok {
        assert(run.requests =~= seq![read, disconnect, wait]);
    } else {
        let i = choose|i: int| 0 <= i < run.requests.len() && run.requests[i] == disconnect;
        assert(run.requests[i] == disconnect);
        if state is Ok && is_down(state->Ok_0) {
            assert(run.requests =~= seq![read]);
        }
    }
}

/// A reply that does not answer the request that the disconnection waits for changes nothing.
pub proof fn law_stray_reply_leaves_disconnection(state: DisconnectBluetoothView, reply: ReplyView)
    requires
        !Procedure::request(state).answered_by(reply),
    ensures
        state.resumed(reply) == ProgressView::<DisconnectBluetoothView, ()>::Pending(state),
{
}

} // verus!
