//! The session manager's view of the adapter: its state, what a scan
//! reports, and the steps by which a connection is made.
//!
//! The backend is asked by the caller. Each function here takes what the
//! backend answered and decides what it means and what comes next.

use crate::address::Address;
use crate::bluetooth_error::BluetoothError;
use crate::bluetooth_error::ConnectError;
use crate::bluetooth_error::ConnectFailure;
use crate::bluetooth_error::DeviceConnectionError;
use crate::bluetooth_status::status_of_power;
use crate::bluetooth_status::status_of_query;
use crate::bluetooth_status::BluetoothStatus;
use crate::connected_device::ConnectedDevice;
use crate::device::snapshot_of;
use crate::device::Device;
use crate::device::DeviceDiscoveryEvent;
use crate::device::DeviceReadings;
use crate::sequences::filter_map_of_parts;
use vstd::prelude::*;

verus! {

/// A property of the adapter that changed, as far as this library reads
/// it.
#[derive(Debug, Clone, Copy, PartialEq, Eq, Structural)]
pub enum AdapterProperty {
    Powered(bool),
    /// Any other property.
    Other,
}

/// What the adapter tells of.
#[derive(Debug, PartialEq, Eq)]
pub enum AdapterEvent {
    /// A device appeared. With it comes what could be read of the device,
    /// or nothing where the device could not be resolved.
    DeviceAdded(Address, Option<DeviceReadings>),
    /// A device left.
    DeviceRemoved(Address),
    /// A property of the adapter changed.
    PropertyChanged(AdapterProperty),
}

/// The device at an address as it can be reported, from what could be read
/// of it.
pub open spec fn device_at(address: Address, readings: Option<DeviceReadings>) -> Option<Device> {
    match readings {
        Some(readings) => snapshot_of(address, readings),
        None => None,
    }
}

/// What a scan reports of an event, if anything: a device that appeared and
/// has a name, or a device that left. A device without a name is passed
/// over, and so are changes of the adapter's properties.
pub open spec fn discovery_of(event: AdapterEvent) -> Option<DeviceDiscoveryEvent> {
    match event {
        AdapterEvent::DeviceAdded(address, readings) => match device_at(address, readings) {
            Some(device) => Some(DeviceDiscoveryEvent::DeviceAdded(device)),
            None => None,
        },
        AdapterEvent::DeviceRemoved(address) => Some(DeviceDiscoveryEvent::DeviceRemoved(address)),
        AdapterEvent::PropertyChanged(_) => None,
    }
}

/// The adapter state that an event tells of, if any: only a change of the
/// power property tells of one.
pub open spec fn status_change_of(event: AdapterEvent) -> Option<BluetoothStatus> {
    match event {
        AdapterEvent::PropertyChanged(AdapterProperty::Powered(powered)) => Some(
            status_of_power(powered),
        ),
        _ => None,
    }
}

/// What a scan reports of a run of events: of each event in turn, in the
/// order of arrival.
pub open spec fn discoveries_of(events: Seq<AdapterEvent>) -> Seq<DeviceDiscoveryEvent> {
    events.filter_map(|event: AdapterEvent| discovery_of(event))
}

/// The adapter states that a run of events tells of, in the order of
/// arrival.
pub open spec fn status_changes_of(events: Seq<AdapterEvent>) -> Seq<BluetoothStatus> {
    events.filter_map(|event: AdapterEvent| status_change_of(event))
}

/// Events are reported in the order in which they arrive, and one by one:
/// what a scan reports of a run of events is what it reports of its first
/// part, followed by what it reports of the rest. The same holds of the
/// adapter states.
pub proof fn reports_keep_arrival_order(first: Seq<AdapterEvent>, rest: Seq<AdapterEvent>)
    ensures
        discoveries_of(first + rest) == discoveries_of(first) + discoveries_of(rest),
        status_changes_of(first + rest) == status_changes_of(first) + status_changes_of(rest),
{
    filter_map_of_parts(first, rest, |event: AdapterEvent| discovery_of(event));
    filter_map_of_parts(first, rest, |event: AdapterEvent| status_change_of(event));
}

/// The steps of making a connection, in the order in which they are taken.
/// Each names what the backend is asked next.
#[derive(Debug, Clone, Copy, PartialEq, Eq, Structural)]
pub enum ConnectStep {
    /// Find the device at the address.
    Resolve,
    /// Is the device paired?
    QueryPaired,
    /// Pair with the device.
    Pair,
    /// Is the device trusted?
    QueryTrusted,
    /// Mark the device as trusted.
    Trust,
    /// Is the device connected?
    QueryConnected,
    /// Connect to the device.
    Connect,
    /// Is the device connected now?
    Confirm,
    /// What is the device's name?
    QueryName,
}

/// What the backend answered, where it did not refuse.
#[derive(Debug, PartialEq, Eq)]
pub enum ConnectAnswer {
    /// What was asked for is done.
    Done,
    /// The flag that was asked for.
    Flag(bool),
    /// The name that was asked for, if the device has one.
    Name(Option<String>),
}

/// A connect attempt that is under way: the device it is for, and the step
/// whose answer is awaited.
#[derive(Debug, Clone, Copy, PartialEq, Eq, Structural)]
pub struct ConnectAttempt {
    pub address: Address,
    pub step: ConnectStep,
}

/// Where a connect attempt stands.
#[derive(Debug, PartialEq, Eq)]
pub enum ConnectProgress {
    /// The attempt goes on: the backend is to be asked what its step names.
    Pending(ConnectAttempt),
    /// The connection stands.
    Established(ConnectedDevice),
    /// The attempt has ended without a connection.
    Failed(ConnectError),
}

/// Where a connect attempt stands, in plain terms.
pub enum Outcome {
    Pending(ConnectAttempt),
    Established { address: Address, name: String },
    Failed { failure: ConnectFailure, reason: Seq<char> },
}

impl View for ConnectProgress {
    type V = Outcome;

    open spec fn view(&self) -> Outcome {
        match *self {
            ConnectProgress::Pending(attempt) => Outcome::Pending(attempt),
            ConnectProgress::Established(session) => Outcome::Established {
                address: session.address,
                name: session.name,
            },
            ConnectProgress::Failed(error) => Outcome::Failed {
                failure: error.failure(),
                reason: error.reason()@,
            },
        }
    }
}

/// The failure that a refusal at a step amounts to.
pub open spec fn failure_at(step: ConnectStep) -> ConnectFailure {
    match step {
        ConnectStep::Resolve => ConnectFailure::DeviceResolutionFailed,
        ConnectStep::QueryPaired | ConnectStep::Pair => ConnectFailure::PairingFailed,
        ConnectStep::QueryTrusted | ConnectStep::Trust => ConnectFailure::TrustFailed,
        ConnectStep::QueryConnected | ConnectStep::Connect | ConnectStep::Confirm =>
            ConnectFailure::ConnectFailed,
        ConnectStep::QueryName => ConnectFailure::NoDeviceName,
    }
}

/// The attempt for `address` at `step`.
pub open spec fn at(address: Address, step: ConnectStep) -> Outcome {
    Outcome::Pending(ConnectAttempt { address, step })
}

/// Where an attempt stands once the backend has answered its step.
///
/// A refusal ends the attempt, with the failure of the step and the
/// backend's reason. Pairing, trusting and connecting are asked for only
/// where the device is not yet paired, trusted or connected. Whether the
/// device is connected is asked once more before the connection counts: if
/// it is not, the attempt has failed, whatever the backend said before. A
/// connection stands only with the device's name: a device that has none,
/// or an empty one, cannot be connected to, since a session is always
/// shown under a name. An answer that does not fit the step leaves the
/// attempt where it is.
///
/// An adapter that loses power while an attempt is under way is not looked
/// for: the backend then refuses the step that comes next, and the attempt
/// ends with the failure of that step.
pub open spec fn advance_of(
    attempt: ConnectAttempt,
    reply: Result<ConnectAnswer, DeviceConnectionError>,
) -> Outcome {
    let address = attempt.address;
    match reply {
        Err(reason) => Outcome::Failed { failure: failure_at(attempt.step), reason: reason@ },
        Ok(answer) => match (attempt.step, answer) {
            (ConnectStep::Resolve, ConnectAnswer::Done) => at(address, ConnectStep::QueryPaired),
            (ConnectStep::QueryPaired, ConnectAnswer::Flag(paired)) => if paired {
                at(address, ConnectStep::QueryTrusted)
            } else {
                at(address, ConnectStep::Pair)
            },
            (ConnectStep::Pair, ConnectAnswer::Done) => at(address, ConnectStep::QueryTrusted),
            (ConnectStep::QueryTrusted, ConnectAnswer::Flag(trusted)) => if trusted {
                at(address, ConnectStep::QueryConnected)
            } else {
                at(address, ConnectStep::Trust)
            },
            (ConnectStep::Trust, ConnectAnswer::Done) => at(address, ConnectStep::QueryConnected),
            (ConnectStep::QueryConnected, ConnectAnswer::Flag(connected)) => if connected {
                at(address, ConnectStep::Confirm)
            } else {
                at(address, ConnectStep::Connect)
            },
            (ConnectStep::Connect, ConnectAnswer::Done) => at(address, ConnectStep::Confirm),
            (ConnectStep::Confirm, ConnectAnswer::Flag(connected)) => if connected {
                at(address, ConnectStep::QueryName)
            } else {
                Outcome::Failed {
                    failure: ConnectFailure::ConnectionNotConfirmed,
                    reason: "Device connection was not successful"@,
                }
            },
            (ConnectStep::QueryName, ConnectAnswer::Name(Some(name))) => if name@.len() > 0 {
                Outcome::Established { address, name }
            } else {
                Outcome::Failed {
                    failure: ConnectFailure::NoDeviceName,
                    reason: "Device has no name"@,
                }
            },
            (ConnectStep::QueryName, ConnectAnswer::Name(None)) => Outcome::Failed {
                failure: ConnectFailure::NoDeviceName,
                reason: "Device has no name"@,
            },
            _ => Outcome::Pending(attempt),
        },
    }
}

/// Where an attempt stands once the backend has given `replies`, one for
/// each step that was asked in turn. What comes after the attempt has ended
/// changes nothing.
pub open spec fn run_of(
    attempt: ConnectAttempt,
    replies: Seq<Result<ConnectAnswer, DeviceConnectionError>>,
) -> Outcome
    decreases replies.len(),
{
    if replies.len() == 0 {
        Outcome::Pending(attempt)
    } else {
        match advance_of(attempt, replies.first()) {
            Outcome::Pending(next) => run_of(next, replies.drop_first()),
            ended => ended,
        }
    }
}

/// The place of a step in the order of steps.
pub open spec fn rank(step: ConnectStep) -> int {
    match step {
        ConnectStep::Resolve => 0,
        ConnectStep::QueryPaired => 1,
        ConnectStep::Pair => 2,
        ConnectStep::QueryTrusted => 3,
        ConnectStep::Trust => 4,
        ConnectStep::QueryConnected => 5,
        ConnectStep::Connect => 6,
        ConnectStep::Confirm => 7,
        ConnectStep::QueryName => 8,
    }
}

/// An attempt only moves forward, and stays with its device: an answer
/// either leaves it where it is, or takes it to a later step. No step is
/// asked again once it was answered, so nothing is tried twice.
pub proof fn attempt_moves_forward(
    attempt: ConnectAttempt,
    reply: Result<ConnectAnswer, DeviceConnectionError>,
)
    ensures
        advance_of(attempt, reply) matches Outcome::Pending(next) ==> {
            &&& next.address == attempt.address
            &&& next == attempt || rank(next.step) > rank(attempt.step)
        },
        advance_of(attempt, reply) matches Outcome::Established { address, .. } ==> address
            == attempt.address,
{
}

proof fn run_unfolds(
    attempt: ConnectAttempt,
    reply: Result<ConnectAnswer, DeviceConnectionError>,
    rest: Seq<Result<ConnectAnswer, DeviceConnectionError>>,
)
    ensures
        run_of(attempt, seq![reply] + rest) == (match advance_of(attempt, reply) {
            Outcome::Pending(next) => run_of(next, rest),
            ended => ended,
        }),
{
    let all = seq![reply] + rest;
    assert(all.first() == reply);
    assert(all.drop_first() =~= rest);
}

/// A session always has a name to show. Whatever the backend answers, and
/// however long it is asked: an attempt that ends with a connection ends
/// with one for its own device, under a name that is not empty. So does
/// every single step.
pub proof fn established_sessions_are_named(
    attempt: ConnectAttempt,
    reply: Result<ConnectAnswer, DeviceConnectionError>,
    replies: Seq<Result<ConnectAnswer, DeviceConnectionError>>,
)
    ensures
        advance_of(attempt, reply) matches Outcome::Established { address, name } ==> address
            == attempt.address && name@.len() > 0,
        run_of(attempt, replies) matches Outcome::Established { address, name } ==> address
            == attempt.address && name@.len() > 0,
    decreases replies.len(),
{
    if replies.len() > 0 {
        match advance_of(attempt, replies.first()) {
            Outcome::Pending(next) => {
                attempt_moves_forward(attempt, replies.first());
                established_sessions_are_named(next, reply, replies.drop_first());
            },
            _ => {},
        }
    }
}

/// A refusal ends the attempt, whatever would have come after: the
/// failure is that of the step that was refused, with the backend's reason,
/// and no later answer changes it.
pub proof fn refusal_ends_the_attempt(
    attempt: ConnectAttempt,
    reason: DeviceConnectionError,
    rest: Seq<Result<ConnectAnswer, DeviceConnectionError>>,
)
    ensures
        run_of(attempt, seq![Err(reason)] + rest) == (Outcome::Failed {
            failure: failure_at(attempt.step),
            reason: reason@,
        }),
{
    run_unfolds(attempt, Err(reason), rest);
}

/// Nothing is asked for that the device has already: an attempt comes to
/// pair only from a device that read as not paired, to trust only from one
/// that read as not trusted, and to connect only from one that read as not
/// connected.
pub proof fn steps_are_taken_only_where_needed(
    attempt: ConnectAttempt,
    reply: Result<ConnectAnswer, DeviceConnectionError>,
)
    requires
        advance_of(attempt, reply) matches Outcome::Pending(next) && next != attempt,
    ensures
        advance_of(attempt, reply)->Pending_0.step == ConnectStep::Pair ==> attempt.step
            == ConnectStep::QueryPaired && reply == Ok::<ConnectAnswer, DeviceConnectionError>(
            ConnectAnswer::Flag(false),
        ),
        advance_of(attempt, reply)->Pending_0.step == ConnectStep::Trust ==> attempt.step
            == ConnectStep::QueryTrusted && reply == Ok::<ConnectAnswer, DeviceConnectionError>(
            ConnectAnswer::Flag(false),
        ),
        advance_of(attempt, reply)->Pending_0.step == ConnectStep::Connect ==> attempt.step
            == ConnectStep::QueryConnected && reply == Ok::<ConnectAnswer, DeviceConnectionError>(
            ConnectAnswer::Flag(false),
        ),
{
}

/// A connection that the backend does not confirm is no connection. Take an
/// attempt that has come as far as asking the backend to connect. If the
/// backend reports that it did, and the device then reads as not
/// connected, the attempt fails as not confirmed.
pub proof fn unconfirmed_connection_fails(address: Address)
    ensures
        run_of(
            ConnectAttempt { address, step: ConnectStep::Connect },
            seq![Ok(ConnectAnswer::Done), Ok(ConnectAnswer::Flag(false))],
        ) == (Outcome::Failed {
            failure: ConnectFailure::ConnectionNotConfirmed,
            reason: "Device connection was not successful"@,
        }),
{
    let done: Result<ConnectAnswer, DeviceConnectionError> = Ok(ConnectAnswer::Done);
    let no: Result<ConnectAnswer, DeviceConnectionError> = Ok(ConnectAnswer::Flag(false));
    run_unfolds(ConnectAttempt { address, step: ConnectStep::Connect }, done, seq![no]);
    run_unfolds(ConnectAttempt { address, step: ConnectStep::Confirm }, no, seq![]);
    assert(seq![done, no] =~= seq![done] + seq![no]);
    assert(seq![no] =~= seq![no] + seq![]);
}

/// The same from the start, for a device in any state of pairing and trust:
/// the device is found, pairs and is trusted where it was not, reads as not
/// connected, the backend reports that it connected, and the device still
/// reads as not connected. The attempt fails as not confirmed.
pub proof fn unconfirmed_connection_fails_from_the_start(
    address: Address,
    paired: bool,
    trusted: bool,
)
    ensures
        run_of(
            ConnectAttempt { address, step: ConnectStep::Resolve },
            seq![Ok(ConnectAnswer::Done), Ok(ConnectAnswer::Flag(paired))] + (if paired {
                seq![]
            } else {
                seq![Ok(ConnectAnswer::Done)]
            }) + seq![Ok(ConnectAnswer::Flag(trusted))] + (if trusted {
                seq![]
            } else {
                seq![Ok(ConnectAnswer::Done)]
            }) + seq![
                Ok(ConnectAnswer::Flag(false)),
                Ok(ConnectAnswer::Done),
                Ok(ConnectAnswer::Flag(false)),
            ],
        ) == (Outcome::Failed {
            failure: ConnectFailure::ConnectionNotConfirmed,
            reason: "Device connection was not successful"@,
        }),
{
    let done: Result<ConnectAnswer, DeviceConnectionError> = Ok(ConnectAnswer::Done);
    let no: Result<ConnectAnswer, DeviceConnectionError> = Ok(ConnectAnswer::Flag(false));
    let is_paired: Result<ConnectAnswer, DeviceConnectionError> = Ok(ConnectAnswer::Flag(paired));
    let is_trusted: Result<ConnectAnswer, DeviceConnectionError> = Ok(
        ConnectAnswer::Flag(trusted),
    );
    let pairing = if paired {
        seq![]
    } else {
        seq![done]
    };
    let trusting = if trusted {
        seq![]
    } else {
        seq![done]
    };
    let replies = seq![done, is_paired] + pairing + seq![is_trusted] + trusting + seq![
        no,
        done,
        no,
    ];
    let step = |step: ConnectStep| ConnectAttempt { address, step };

    // From the query of the connection on.
    let connecting = seq![done, no];
    let from_query = seq![no] + connecting;
    unconfirmed_connection_fails(address);
    run_unfolds(step(ConnectStep::QueryConnected), no, connecting);

    // From the query of trust on.
    let from_trust = seq![is_trusted] + (trusting + from_query);
    run_unfolds(step(ConnectStep::QueryTrusted), is_trusted, trusting + from_query);
    if trusted {
        assert(trusting + from_query =~= from_query);
    } else {
        assert(trusting + from_query =~= seq![done] + from_query);
        run_unfolds(step(ConnectStep::Trust), done, from_query);
    }

    // From the query of pairing on.
    let from_pairing = seq![is_paired] + (pairing + from_trust);
    run_unfolds(step(ConnectStep::QueryPaired), is_paired, pairing + from_trust);
    if paired {
        assert(pairing + from_trust =~= from_trust);
    } else {
        assert(pairing + from_trust =~= seq![done] + from_trust);
        run_unfolds(step(ConnectStep::Pair), done, from_trust);
    }

    // From the start.
    run_unfolds(step(ConnectStep::Resolve), done, from_pairing);
    assert(replies =~= seq![done] + from_pairing);
}

/// A connection stands only once it was confirmed. Whatever the backend
/// answers, and however long it is asked: if an attempt ends with a
/// connection, then at some point it asked whether the device is connected
/// now, and the answer was yes.
pub proof fn established_only_when_confirmed(
    attempt: ConnectAttempt,
    replies: Seq<Result<ConnectAnswer, DeviceConnectionError>>,
)
    requires
        run_of(attempt, replies) is Established,
    ensures
        run_of(attempt, replies)->Established_address == attempt.address,
        attempt.step != ConnectStep::QueryName ==> exists|i: int|
            0 <= i < replies.len() && #[trigger] run_of(attempt, replies.take(i)) == at(
                attempt.address,
                ConnectStep::Confirm,
            ) && replies[i] == Ok::<ConnectAnswer, DeviceConnectionError>(
                ConnectAnswer::Flag(true),
            ),
    decreases replies.len(),
{
    let rest = replies.drop_first();
    match advance_of(attempt, replies.first()) {
        Outcome::Pending(next) => {
            attempt_moves_forward(attempt, replies.first());
            established_only_when_confirmed(next, rest);
            if attempt.step != ConnectStep::QueryName {
                if next.step == ConnectStep::QueryName {
                    assert(replies.take(0) =~= Seq::empty());
                    assert(run_of(attempt, replies.take(0)) == at(
                        attempt.address,
                        ConnectStep::Confirm,
                    ));
                } else {
                    let i = choose|i: int|
                        0 <= i < rest.len() && #[trigger] run_of(next, rest.take(i)) == at(
                            next.address,
                            ConnectStep::Confirm,
                        ) && rest[i] == Ok::<ConnectAnswer, DeviceConnectionError>(
                            ConnectAnswer::Flag(true),
                        );
                    let upto = replies.take(i + 1);
                    assert(upto.first() == replies.first());
                    assert(upto.drop_first() =~= rest.take(i));
                    assert(run_of(attempt, upto) == run_of(next, rest.take(i)));
                    assert(replies[i + 1] == rest[i]);
                }
            }
        },
        _ => {},
    }
}

/// The session manager's handle on the adapter.
#[derive(Debug, PartialEq, Eq)]
pub struct BikeBt {
    /// The device that is in use, if one is.
    pub device: Option<Device>,
}

impl BikeBt {
    /// The handle, if the backend can be used. `session` says whether a
    /// session with the platform's Bluetooth service could be had, and
    /// `adapter` whether that session has an adapter to offer; without a
    /// session there is none to ask for an adapter.
    pub fn new(session: bool, adapter: bool) -> (bluetooth: Result<Self, BluetoothError>)
        ensures
            !session ==> bluetooth matches Err(BluetoothError::NoBluez),
            session && !adapter ==> bluetooth matches Err(BluetoothError::NoAdapter),
            session && adapter ==> (bluetooth matches Ok(handle) && handle.device is None),
    {
        if !session {
            Err(BluetoothError::NoBluez)
        } else if !adapter {
            Err(BluetoothError::NoAdapter)
        } else {
            Ok(BikeBt { device: None })
        }
    }

    /// The adapter's state, from the answer to a query of its power
    /// property. The answer is never `Connected`.
    pub fn get_status<E>(&self, powered: Result<bool, E>) -> (status: BluetoothStatus)
        ensures
            status == status_of_query(powered),
    {
        match powered {
            Ok(powered) => BluetoothStatus::from_powered(powered),
            Err(_) => BluetoothStatus::Unavailable,
        }
    }

    /// The device at `address` as it can be reported, from what could be
    /// read of it; `None` where the device could not be resolved or has no
    /// name.
    pub fn get_device(&self, address: Address, readings: Option<DeviceReadings>) -> (device:
        Option<Device>)
        ensures
            device == device_at(address, readings),
    {
        match readings {
            Some(readings) => Device::new(address, readings),
            None => None,
        }
    }

    /// What a scan reports of one event, if anything.
    pub fn discovery(&self, event: &AdapterEvent) -> (discovery: Option<DeviceDiscoveryEvent>)
        ensures
            discovery == discovery_of(*event),
    {
        match event {
            AdapterEvent::DeviceAdded(address, readings) => {
                let readings = match readings {
                    Some(readings) => Some(readings.duplicate()),
                    None => None,
                };
                match self.get_device(*address, readings) {
                    Some(device) => Some(DeviceDiscoveryEvent::DeviceAdded(device)),
                    None => None,
                }
            },
            AdapterEvent::DeviceRemoved(address) => Some(
                DeviceDiscoveryEvent::DeviceRemoved(*address),
            ),
            AdapterEvent::PropertyChanged(_) => None,
        }
    }

    /// The adapter state that one event tells of, if any.
    pub fn status_change(&self, event: &AdapterEvent) -> (status: Option<BluetoothStatus>)
        ensures
            status == status_change_of(*event),
    {
        match event {
            AdapterEvent::PropertyChanged(AdapterProperty::Powered(powered)) => Some(
                BluetoothStatus::from_powered(*powered),
            ),
            _ => None,
        }
    }

    /// What a scan reports. `events` is what came of asking the adapter to
    /// discover: the events that it sent, in the order of arrival, or the
    /// backend's refusal, which is a failed scan.
    pub fn scan<E>(&self, events: Result<Vec<AdapterEvent>, E>) -> (discoveries: Result<
        Vec<DeviceDiscoveryEvent>,
        BluetoothError,
    >)
        ensures
            events is Err ==> discoveries matches Err(BluetoothError::ScanFailed),
            events matches Ok(sent) ==> (discoveries matches Ok(found) && found@
                == discoveries_of(sent@)),
    {
        let events = match events {
            Ok(events) => events,
            Err(_) => {
                return Err(BluetoothError::ScanFailed);
            },
        };
        let ghost pick = |event: AdapterEvent| discovery_of(event);
        let mut found: Vec<DeviceDiscoveryEvent> = Vec::new();
        let mut i: usize = 0;
        while i < events.len()
            invariant
                0 <= i <= events.len(),
                pick == |event: AdapterEvent| discovery_of(event),
                found@ == events@.take(i as int).filter_map(pick),
            decreases events.len() - i,
        {
            proof {
                events@.lemma_filter_map_take_succ(pick, i as int);
            }
            if let Some(discovery) = self.discovery(&events[i]) {
                found.push(discovery);
            }
            i += 1;
        }
        assert(events@.take(events.len() as int) =~= events@);
        Ok(found)
    }

    /// The adapter states that the adapter's listener reports. `events` is
    /// what came of asking to listen: the events that the adapter sent, in
    /// the order of arrival, or the backend's refusal. A refusal means that
    /// the bus does not serve the adapter's events: the listener cannot be
    /// had for want of the bus, which is no failure of a scan.
    pub fn register_adapter_listener<E>(&self, events: Result<Vec<AdapterEvent>, E>) -> (statuses:
        Result<Vec<BluetoothStatus>, BluetoothError>)
        ensures
            events is Err ==> statuses matches Err(BluetoothError::NoBluez),
            events matches Ok(sent) ==> (statuses matches Ok(changes) && changes@
                == status_changes_of(sent@)),
    {
        let events = match events {
            Ok(events) => events,
            Err(_) => {
                return Err(BluetoothError::NoBluez);
            },
        };
        let ghost pick = |event: AdapterEvent| status_change_of(event);
        let mut changes: Vec<BluetoothStatus> = Vec::new();
        let mut i: usize = 0;
        while i < events.len()
            invariant
                0 <= i <= events.len(),
                pick == |event: AdapterEvent| status_change_of(event),
                changes@ == events@.take(i as int).filter_map(pick),
            decreases events.len() - i,
        {
            proof {
                events@.lemma_filter_map_take_succ(pick, i as int);
            }
            if let Some(status) = self.status_change(&events[i]) {
                changes.push(status);
            }
            i += 1;
        }
        assert(events@.take(events.len() as int) =~= events@);
        Ok(changes)
    }

    /// Begins a connect attempt for the device at `address`. The backend is
    /// asked what the attempt's step names, and its answer is handed to
    /// [`ConnectAttempt::advance`], until the attempt has ended.
    pub fn connect(&self, address: Address) -> (attempt: ConnectAttempt)
        ensures
            attempt == (ConnectAttempt { address, step: ConnectStep::Resolve }),
    {
        ConnectAttempt { address, step: ConnectStep::Resolve }
    }
}

impl ConnectAttempt {
    fn at(&self, step: ConnectStep) -> (progress: ConnectProgress)
        ensures
            progress@ == at(self.address, step),
    {
        ConnectProgress::Pending(ConnectAttempt { address: self.address, step })
    }

    fn failed(failure: ConnectFailure, reason: DeviceConnectionError) -> (progress: ConnectProgress)
        ensures
            progress@ == (Outcome::Failed { failure, reason: reason@ }),
    {
        ConnectProgress::Failed(ConnectError::new(failure, reason))
    }

    /// Takes the backend's answer to the attempt's step in. A session that
    /// comes of it is for the attempt's device, under a name that is not
    /// empty.
    pub fn advance(self, reply: Result<ConnectAnswer, DeviceConnectionError>) -> (progress:
        ConnectProgress)
        ensures
            progress@ == advance_of(self, reply),
            progress matches ConnectProgress::Established(session) ==> session.address
                == self.address && session.name@.len() > 0,
    {
        let answer = match reply {
            Ok(answer) => answer,
            Err(reason) => {
                let failure = match self.step {
                    ConnectStep::Resolve => ConnectFailure::DeviceResolutionFailed,
                    ConnectStep::QueryPaired | ConnectStep::Pair => ConnectFailure::PairingFailed,
                    ConnectStep::QueryTrusted | ConnectStep::Trust => ConnectFailure::TrustFailed,
                    ConnectStep::QueryConnected | ConnectStep::Connect | ConnectStep::Confirm =>
                        ConnectFailure::ConnectFailed,
                    ConnectStep::QueryName => ConnectFailure::NoDeviceName,
                };
                return Self::failed(failure, reason);
            },
        };
        match (self.step, answer) {
            (ConnectStep::Resolve, ConnectAnswer::Done) => self.at(ConnectStep::QueryPaired),
            (ConnectStep::QueryPaired, ConnectAnswer::Flag(paired)) => if paired {
                self.at(ConnectStep::QueryTrusted)
            } else {
                self.at(ConnectStep::Pair)
            },
            (ConnectStep::Pair, ConnectAnswer::Done) => self.at(ConnectStep::QueryTrusted),
            (ConnectStep::QueryTrusted, ConnectAnswer::Flag(trusted)) => if trusted {
                self.at(ConnectStep::QueryConnected)
            } else {
                self.at(ConnectStep::Trust)
            },
            (ConnectStep::Trust, ConnectAnswer::Done) => self.at(ConnectStep::QueryConnected),
            (ConnectStep::QueryConnected, ConnectAnswer::Flag(connected)) => if connected {
                self.at(ConnectStep::Confirm)
            } else {
                self.at(ConnectStep::Connect)
            },
            (ConnectStep::Connect, ConnectAnswer::Done) => self.at(ConnectStep::Confirm),
            (ConnectStep::Confirm, ConnectAnswer::Flag(connected)) => if connected {
                self.at(ConnectStep::QueryName)
            } else {
                Self::failed(
                    ConnectFailure::ConnectionNotConfirmed,
                    DeviceConnectionError::new("Device connection was not successful".to_string()),
                )
            },
            (ConnectStep::QueryName, ConnectAnswer::Name(Some(name))) => {
                if name.as_str().is_empty() {
                    Self::failed(
                        ConnectFailure::NoDeviceName,
                        DeviceConnectionError::new("Device has no name".to_string()),
                    )
                } else {
                    ConnectProgress::Established(ConnectedDevice::new(self.address, name))
                }
            },
            (ConnectStep::QueryName, ConnectAnswer::Name(None)) => Self::failed(
                ConnectFailure::NoDeviceName,
                DeviceConnectionError::new("Device has no name".to_string()),
            ),
            _ => ConnectProgress::Pending(self),
        }
    }
}

} // verus!
