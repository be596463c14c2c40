//! The coordinator: the one owner of the scan task and of the connected
//! session. It takes the presentation layer's commands one at a time and
//! answers each with what has to be done, in order; the caller does it and
//! hands back what came of it.

use crate::address::Address;
use crate::bluetooth::BikeBt;
use crate::bluetooth_error::BluetoothError;
use crate::bluetooth_error::ConnectError;
use crate::bluetooth_error::DeviceConnectionError;
use crate::bluetooth_status::BluetoothStatus;
use crate::components::active_device_details::ActiveDeviceDetailsInput;
use crate::components::bluetooth_button::AdapterStateInput;
use crate::components::connect_dialog::DeviceDiscoveryEvent;
use crate::connected_device::ConnectedDevice;
use vstd::prelude::*;

verus! {

/// The commands of the presentation layer.
#[derive(Debug, PartialEq, Eq)]
pub enum StateManagerInput {
    RegisterAdapterListener,
    StartScanningForDevices,
    StopScanningForDevices,
    /// Connect to the device at the address; the text is the name under
    /// which the device was listed.
    Connect(Address, String),
    Disconnect,
    DiscoverGattProfiles,
}

/// What became of something the coordinator asked for.
#[derive(Debug, PartialEq, Eq)]
pub enum BackendEvent {
    /// The adapter's state: the answer to a query, or a change that the
    /// adapter listener saw.
    Status(BluetoothStatus),
    /// The adapter listener could not be registered.
    ListenerFailed(BluetoothError),
    /// The scan task could not start its scan.
    ScanFailed(BluetoothError),
    /// The scan task saw a device come or go.
    Discovered(crate::device::DeviceDiscoveryEvent),
    /// The connect attempt has ended.
    Connected(Result<ConnectedDevice, ConnectError>),
    /// The disconnect has ended.
    Disconnected(Result<(), ()>),
    /// The enumeration of services has ended.
    Services(Result<Vec<String>, DeviceConnectionError>),
}

/// Something that went wrong and that the caller is to make known. None of
/// these is tried again by the coordinator.
#[derive(Debug, PartialEq, Eq)]
pub enum Failure {
    AdapterListener(BluetoothError),
    Scan(BluetoothError),
    Connect(ConnectError),
    Disconnect,
    ServiceDiscovery(DeviceConnectionError),
}

/// One thing that the coordinator wants done.
#[derive(Debug, PartialEq, Eq)]
pub enum Effect {
    /// Tell the adapter button.
    AdapterState(AdapterStateInput),
    /// Tell the details page.
    DeviceDetails(ActiveDeviceDetailsInput),
    /// Tell the discovery listener.
    Discovery(DeviceDiscoveryEvent),
    /// Make a failure known.
    Report(Failure),
    /// Query the adapter's state, and hand it back as a `Status`.
    QueryStatus,
    /// Listen to the adapter, and hand each change back as a `Status`.
    ListenToAdapter,
    /// Start the scan task, which hands back what it discovers.
    StartScan,
    /// Abort the scan task and release what it holds.
    AbortScan,
    /// Try to connect to the device at the address.
    Connect(Address),
    /// End the connected session.
    Disconnect,
    /// Enumerate the services of the connected device.
    DiscoverServices,
}

/// What the coordinator knows.
pub struct StateManagerView {
    /// Whether there is a Bluetooth service to give work to.
    pub available: bool,
    /// The connected session, if there is one.
    pub connected_device: Option<ConnectedDevice>,
    /// Whether a scan task is running.
    pub scanning: bool,
}

/// The coordinator.
#[derive(Debug, PartialEq, Eq)]
pub struct StateManager {
    bike_bt: Option<BikeBt>,
    connected_device: Option<ConnectedDevice>,
    scanning: bool,
}

impl View for StateManager {
    type V = StateManagerView;

    closed spec fn view(&self) -> StateManagerView {
        StateManagerView {
            available: self.bike_bt is Some,
            connected_device: self.connected_device,
            scanning: self.scanning,
        }
    }
}

/// The coordinator's answer to a command: its next state, and what is to
/// be done, in order.
///
/// - A scan that is started while another runs replaces it: the old task is
///   aborted before the new one is started.
/// - Stopping a scan that does not run asks for nothing.
/// - A connect is asked for whether or not a session exists: the session
///   that exists is not ended for it.
/// - Without a Bluetooth service nothing is asked of the backend. No scan
///   runs without one (see [`well_formed`]), so there is none to replace.
pub open spec fn update_of(state: StateManagerView, message: StateManagerInput) -> (
    StateManagerView,
    Seq<Effect>,
) {
    match message {
        StateManagerInput::RegisterAdapterListener => if state.available {
            (state, seq![Effect::QueryStatus, Effect::ListenToAdapter])
        } else {
            (state, seq![])
        },
        StateManagerInput::StartScanningForDevices => if !state.available {
            (state, seq![])
        } else if state.scanning {
            (state, seq![Effect::AbortScan, Effect::StartScan])
        } else {
            (StateManagerView { scanning: true, ..state }, seq![Effect::StartScan])
        },
        StateManagerInput::StopScanningForDevices => if state.scanning {
            (StateManagerView { scanning: false, ..state }, seq![Effect::AbortScan])
        } else {
            (state, seq![])
        },
        StateManagerInput::Connect(address, name) => if state.available {
            (
                state,
                seq![
                    Effect::DeviceDetails(ActiveDeviceDetailsInput::SetName(name)),
                    Effect::Connect(address),
                ],
            )
        } else {
            (state, seq![Effect::DeviceDetails(ActiveDeviceDetailsInput::SetName(name))])
        },
        StateManagerInput::Disconnect => if state.connected_device is Some {
            (state, seq![Effect::Disconnect])
        } else {
            (state, seq![])
        },
        StateManagerInput::DiscoverGattProfiles => if state.connected_device is Some {
            (state, seq![Effect::DiscoverServices])
        } else {
            (state, seq![])
        },
    }
}

/// The coordinator's answer to what came back from the backend.
///
/// - The adapter's state is passed on as it is.
/// - A scan that failed is reported once, and its task is aborted, so that
///   nothing it holds is left behind. It is not started again.
/// - A discovery is passed on while a scan runs, and dropped otherwise: a
///   scan that was stopped changes nothing any more.
/// - A connection that was made becomes the session, and the adapter is
///   reported as `Connected`; one that failed is reported, and the details
///   page is told.
/// - A disconnect that succeeded ends the session, and the adapter is
///   reported as `Disconnected`; one that failed leaves the session as it
///   is.
/// - A failed enumeration of services is reported.
pub open spec fn handle_of(state: StateManagerView, event: BackendEvent) -> (
    StateManagerView,
    Seq<Effect>,
) {
    match event {
        BackendEvent::Status(status) => (
            state,
            seq![Effect::AdapterState(AdapterStateInput::ChangeStatus(status))],
        ),
        BackendEvent::ListenerFailed(error) => (
            state,
            seq![Effect::Report(Failure::AdapterListener(error))],
        ),
        BackendEvent::ScanFailed(error) => if state.scanning {
            (
                StateManagerView { scanning: false, ..state },
                seq![Effect::Report(Failure::Scan(error)), Effect::AbortScan],
            )
        } else {
            (state, seq![Effect::Report(Failure::Scan(error))])
        },
        BackendEvent::Discovered(discovery) => if state.scanning {
            (
                state,
                seq![
                    Effect::Discovery(
                        match discovery {
                            crate::device::DeviceDiscoveryEvent::DeviceAdded(device) =>
                                DeviceDiscoveryEvent::DeviceFound(device),
                            crate::device::DeviceDiscoveryEvent::DeviceRemoved(address) =>
                                DeviceDiscoveryEvent::DeviceLost(address),
                        },
                    ),
                ],
            )
        } else {
            (state, seq![])
        },
        BackendEvent::Connected(Ok(session)) => (
            StateManagerView { connected_device: Some(session), ..state },
            seq![
                Effect::AdapterState(AdapterStateInput::ChangeStatus(BluetoothStatus::Connected)),
                Effect::DeviceDetails(ActiveDeviceDetailsInput::SetConnected),
            ],
        ),
        BackendEvent::Connected(Err(error)) => (
            state,
            seq![
                Effect::Report(Failure::Connect(error)),
                Effect::DeviceDetails(ActiveDeviceDetailsInput::ConnectionFailed),
            ],
        ),
        BackendEvent::Disconnected(Ok(_)) => if state.connected_device is Some {
            (
                StateManagerView { connected_device: None, ..state },
                seq![
                    Effect::AdapterState(
                        AdapterStateInput::ChangeStatus(BluetoothStatus::Disconnected),
                    ),
                ],
            )
        } else {
            (state, seq![])
        },
        BackendEvent::Disconnected(Err(_)) => (state, seq![Effect::Report(Failure::Disconnect)]),
        BackendEvent::Services(Ok(_)) => (state, seq![]),
        BackendEvent::Services(Err(reason)) => (
            state,
            seq![Effect::Report(Failure::ServiceDiscovery(reason))],
        ),
    }
}

/// The number of scan tasks that run once one effect has been carried out,
/// where `running` ran before.
pub open spec fn scan_tasks_with(running: int, effect: Effect) -> int {
    match effect {
        Effect::StartScan => running + 1,
        Effect::AbortScan => running - 1,
        _ => running,
    }
}

/// The number of scan tasks that run once `effects` have been carried out
/// in order, where `running` ran before.
pub open spec fn scan_tasks_after(running: int, effects: Seq<Effect>) -> int
    decreases effects.len(),
{
    if effects.len() == 0 {
        running
    } else {
        scan_tasks_with(scan_tasks_after(running, effects.drop_last()), effects.last())
    }
}

/// The number of scan tasks that the coordinator counts on.
pub open spec fn scan_tasks(state: StateManagerView) -> int {
    if state.scanning {
        1
    } else {
        0
    }
}

proof fn short_runs_keep_one_scan_task(running: int, effects: Seq<Effect>)
    requires
        effects.len() <= 2,
        0 <= running <= 1,
        effects.len() >= 1 ==> 0 <= scan_tasks_with(running, effects[0]) <= 1,
        effects.len() == 2 ==> 0 <= scan_tasks_with(
            scan_tasks_with(running, effects[0]),
            effects[1],
        ) <= 1,
    ensures
        forall|k: int|
            0 <= k <= effects.len() ==> 0 <= #[trigger] scan_tasks_after(running, effects.take(k))
                <= 1,
        scan_tasks_after(running, effects) == (if effects.len() == 0 {
            running
        } else if effects.len() == 1 {
            scan_tasks_with(running, effects[0])
        } else {
            scan_tasks_with(scan_tasks_with(running, effects[0]), effects[1])
        }),
{
    let none = effects.take(0);
    assert(scan_tasks_after(running, none) == running);
    if effects.len() >= 1 {
        let one = effects.take(1);
        assert(one.drop_last() =~= none);
        assert(one.last() == effects[0]);
        assert(scan_tasks_after(running, one) == scan_tasks_with(running, effects[0]));
        if effects.len() == 2 {
            let two = effects.take(2);
            assert(two.drop_last() =~= one);
            assert(two.last() == effects[1]);
        }
    }
    assert(effects.take(effects.len() as int) =~= effects);
    assert forall|k: int| 0 <= k <= effects.len() implies 0 <= #[trigger] scan_tasks_after(
        running,
        effects.take(k),
    ) <= 1 by {
        if k == 0 {
        } else if k == 1 {
        } else {
        }
    }
}

/// The coordinator counts on a scan task only where it has a service to
/// run it.
pub open spec fn well_formed(state: StateManagerView) -> bool {
    state.scanning ==> state.available
}

/// Whatever the coordinator is told, it stays well formed: no command and
/// nothing that comes back from the backend sets a scan going without a
/// service, or takes the service away.
pub proof fn steps_keep_well_formed(
    state: StateManagerView,
    message: StateManagerInput,
    event: BackendEvent,
)
    requires
        well_formed(state),
    ensures
        well_formed(update_of(state, message).0),
        well_formed(handle_of(state, event).0),
        update_of(state, message).0.available == state.available,
        handle_of(state, event).0.available == state.available,
{
}

/// A scan that is started while another runs takes its place: the task that
/// runs is aborted, and only then is the new one started.
pub proof fn restart_replaces_the_scan(state: StateManagerView)
    requires
        well_formed(state),
        state.scanning,
    ensures
        update_of(state, StateManagerInput::StartScanningForDevices) == (
            state,
            seq![Effect::AbortScan, Effect::StartScan],
        ),
{
}

/// No command leaves two scan tasks running, nor does it at any point while
/// what it asks for is carried out: a task is started only where none runs,
/// or after the one that runs was aborted.
pub proof fn commands_keep_one_scan_task(state: StateManagerView, message: StateManagerInput)
    ensures
        scan_tasks_after(scan_tasks(state), update_of(state, message).1) == scan_tasks(
            update_of(state, message).0,
        ),
        forall|k: int|
            0 <= k <= update_of(state, message).1.len() ==> 0 <= #[trigger] scan_tasks_after(
                scan_tasks(state),
                update_of(state, message).1.take(k),
            ) <= 1,
{
    short_runs_keep_one_scan_task(scan_tasks(state), update_of(state, message).1);
}

/// Nor does anything that comes back from the backend: none of it starts a
/// scan task, and only a scan that failed has its task aborted.
pub proof fn events_keep_one_scan_task(state: StateManagerView, event: BackendEvent)
    ensures
        scan_tasks_after(scan_tasks(state), handle_of(state, event).1) == scan_tasks(
            handle_of(state, event).0,
        ),
        forall|k: int|
            0 <= k <= handle_of(state, event).1.len() ==> 0 <= #[trigger] scan_tasks_after(
                scan_tasks(state),
                handle_of(state, event).1.take(k),
            ) <= 1,
        forall|i: int|
            0 <= i < handle_of(state, event).1.len() ==> #[trigger] handle_of(state, event).1[i]
                != Effect::StartScan,
{
    short_runs_keep_one_scan_task(scan_tasks(state), handle_of(state, event).1);
}

/// Stopping a scan twice in a row: the second time nothing is asked for,
/// nothing is reported, and nothing changes.
pub proof fn stopping_twice_asks_nothing(state: StateManagerView)
    ensures
        ({
            let stopped = update_of(state, StateManagerInput::StopScanningForDevices).0;
            update_of(stopped, StateManagerInput::StopScanningForDevices) == (
                stopped,
                Seq::<Effect>::empty(),
            )
        }),
{
}

/// The coordinator reports the adapter as `Connected` for a connection that
/// was made, and for nothing else but a state that the backend itself
/// handed in. No command makes it report a state.
pub proof fn connected_is_reported_for_a_session(
    state: StateManagerView,
    event: BackendEvent,
    i: int,
)
    requires
        0 <= i < handle_of(state, event).1.len(),
        handle_of(state, event).1[i] == Effect::AdapterState(
            AdapterStateInput::ChangeStatus(BluetoothStatus::Connected),
        ),
    ensures
        event matches BackendEvent::Connected(Ok(session)) ==> handle_of(
            state,
            event,
        ).0.connected_device == Some(session),
        event is Connected || event == BackendEvent::Status(BluetoothStatus::Connected),
{
}

/// A session is kept until a disconnect succeeds: a command never ends it,
/// and of what comes back from the backend only a successful disconnect
/// does, which is reported as `Disconnected`.
pub proof fn session_ends_by_disconnect_alone(
    state: StateManagerView,
    message: StateManagerInput,
    event: BackendEvent,
)
    requires
        state.connected_device is Some,
    ensures
        update_of(state, message).0.connected_device == state.connected_device,
        handle_of(state, event).0.connected_device is None ==> {
            &&& event matches BackendEvent::Disconnected(Ok(_))
            &&& handle_of(state, event).1 == seq![
                Effect::AdapterState(
                    AdapterStateInput::ChangeStatus(BluetoothStatus::Disconnected),
                ),
            ]
        },
{
}

impl StateManager {
    #[verifier::type_invariant]
    spec fn scans_only_with_a_service(self) -> bool {
        self.scanning ==> self.bike_bt is Some
    }

    /// The coordinator at start-up. `bike_bt` is what came of creating the
    /// Bluetooth service; without one the coordinator stays, and asks
    /// nothing of the backend.
    pub fn init(bike_bt: Result<BikeBt, BluetoothError>) -> (manager: Self)
        ensures
            manager@.available == (bike_bt is Ok),
            manager@.connected_device is None,
            !manager@.scanning,
            well_formed(manager@),
            bike_bt matches Ok(service) ==> manager.service() == Some(service),
            bike_bt is Err ==> manager.service() is None,
    {
        let bike_bt = match bike_bt {
            Ok(service) => Some(service),
            Err(_) => None,
        };
        StateManager { bike_bt, connected_device: None, scanning: false }
    }

    /// The Bluetooth service, if there is one.
    pub closed spec fn service(&self) -> Option<BikeBt> {
        self.bike_bt
    }

    /// The Bluetooth service, if there is one.
    pub fn bike_bt(&self) -> (service: &Option<BikeBt>)
        ensures
            *service == self.service(),
            service is Some == self@.available,
    {
        &self.bike_bt
    }

    /// Whether a scan task is running. One runs only where there is a
    /// service.
    pub fn is_scanning(&self) -> (scanning: bool)
        ensures
            scanning == self@.scanning,
            well_formed(self@),
    {
        proof {
            use_type_invariant(self);
        }
        self.scanning
    }

    /// The connected session, if there is one.
    pub fn connected_device(&self) -> (session: &Option<ConnectedDevice>)
        ensures
            *session == self@.connected_device,
    {
        &self.connected_device
    }

    /// Takes a command in. Returns what is to be done about it, in order.
    /// The service that the coordinator holds stays as it is.
    pub fn update(&mut self, message: StateManagerInput) -> (effects: Vec<Effect>)
        ensures
            final(self)@ == update_of(old(self)@, message).0,
            effects@ == update_of(old(self)@, message).1,
            final(self).service() == old(self).service(),
            well_formed(old(self)@),
            well_formed(final(self)@),
    {
        proof {
            use_type_invariant(&*self);
        }
        let mut effects: Vec<Effect> = Vec::new();
        match message {
            StateManagerInput::RegisterAdapterListener => {
                if self.bike_bt.is_some() {
                    effects.push(Effect::QueryStatus);
                    effects.push(Effect::ListenToAdapter);
                }
            },
            StateManagerInput::StartScanningForDevices => {
                if self.bike_bt.is_some() {
                    if self.scanning {
                        effects.push(Effect::AbortScan);
                    }
                    self.scanning = true;
                    effects.push(Effect::StartScan);
                }
            },
            StateManagerInput::StopScanningForDevices => {
                if self.scanning {
                    self.scanning = false;
                    effects.push(Effect::AbortScan);
                }
            },
            StateManagerInput::Connect(address, name) => {
                effects.push(Effect::DeviceDetails(ActiveDeviceDetailsInput::SetName(name)));
                if self.bike_bt.is_some() {
                    effects.push(Effect::Connect(address));
                }
            },
            StateManagerInput::Disconnect => {
                if self.connected_device.is_some() {
                    effects.push(Effect::Disconnect);
                }
            },
            StateManagerInput::DiscoverGattProfiles => {
                if self.connected_device.is_some() {
                    effects.push(Effect::DiscoverServices);
                }
            },
        }
        assert(effects@ =~= update_of(old(self)@, message).1);
        effects
    }

    /// Takes in what came back from the backend. Returns what is to be done
    /// about it, in order. The service that the coordinator holds stays as
    /// it is.
    pub fn handle(&mut self, event: BackendEvent) -> (effects: Vec<Effect>)
        ensures
            final(self)@ == handle_of(old(self)@, event).0,
            effects@ == handle_of(old(self)@, event).1,
            final(self).service() == old(self).service(),
            well_formed(old(self)@),
            well_formed(final(self)@),
    {
        proof {
            use_type_invariant(&*self);
        }
        let mut effects: Vec<Effect> = Vec::new();
        match event {
            BackendEvent::Status(status) => {
                effects.push(Effect::AdapterState(AdapterStateInput::ChangeStatus(status)));
            },
            BackendEvent::ListenerFailed(error) => {
                effects.push(Effect::Report(Failure::AdapterListener(error)));
            },
            BackendEvent::ScanFailed(error) => {
                effects.push(Effect::Report(Failure::Scan(error)));
                if self.scanning {
                    self.scanning = false;
                    effects.push(Effect::AbortScan);
                }
            },
            BackendEvent::Discovered(discovery) => {
                if self.scanning {
                    let passed = match discovery {
                        crate::device::DeviceDiscoveryEvent::DeviceAdded(device) =>
                            DeviceDiscoveryEvent::DeviceFound(device),
                        crate::device::DeviceDiscoveryEvent::DeviceRemoved(address) =>
                            DeviceDiscoveryEvent::DeviceLost(address),
                    };
                    effects.push(Effect::Discovery(passed));
                }
            },
            BackendEvent::Connected(Ok(session)) => {
                self.connected_device = Some(session);
                effects.push(
                    Effect::AdapterState(
                        AdapterStateInput::ChangeStatus(BluetoothStatus::Connected),
                    ),
                );
                effects.push(Effect::DeviceDetails(ActiveDeviceDetailsInput::SetConnected));
            },
            BackendEvent::Connected(Err(error)) => {
                effects.push(Effect::Report(Failure::Connect(error)));
                effects.push(Effect::DeviceDetails(ActiveDeviceDetailsInput::ConnectionFailed));
            },
            BackendEvent::Disconnected(Ok(_)) => {
                if self.connected_device.is_some() {
                    self.connected_device = None;
                    effects.push(
                        Effect::AdapterState(
                            AdapterStateInput::ChangeStatus(BluetoothStatus::Disconnected),
                        ),
                    );
                }
            },
            BackendEvent::Disconnected(Err(_)) => {
                effects.push(Effect::Report(Failure::Disconnect));
            },
            BackendEvent::Services(Ok(_)) => {},
            BackendEvent::Services(Err(reason)) => {
                effects.push(Effect::Report(Failure::ServiceDiscovery(reason)));
            },
        }
        assert(effects@ =~= handle_of(old(self)@, event).1);
        effects
    }
}

} // verus!
