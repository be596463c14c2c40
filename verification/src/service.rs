//! The bus side of the session manager: which signals are subscribed to,
//! and the steps by which a scan is started and stopped.
//!
//! Nothing here talks to the bus. Each function decides, from plain values
//! that its caller read off the bus, what holds and what is to be done next.

use crate::address::Address;
use crate::bluetooth_error::BluetoothError;
use crate::bluetooth_status::BluetoothStatus;
use crate::bus::adapter_of;
use crate::bus::address_of_object;
use crate::bus::device_of;
use crate::bus::find_interface;
use crate::bus::read_flag;
use crate::bus::read_level;
use crate::bus::read_text;
use crate::bus::readings_of;
use crate::bus::removed_of;
use crate::bus::status_in;
use crate::bus::ManagedObject;
use crate::bus::Property;
use crate::bus::PropertyValue;
use crate::bus::ADAPTER_INTERFACE;
use crate::bus::BLUEZ_BUS_NAME;
use crate::bus::DEVICE_INTERFACE;
use crate::bus::INTERFACES_ADDED;
use crate::bus::INTERFACES_REMOVED;
use crate::bus::OBJECT_MANAGER_INTERFACE;
use crate::bus::PROPERTIES_CHANGED;
use crate::bus::PROPERTIES_INTERFACE;
use crate::bus::ROOT_PATH;
use crate::device::snapshot_of;
use crate::device::Device;
use crate::device::DeviceReadings;
use crate::sequences::filter_map_of_none;
use crate::sequences::filter_map_of_parts;
use crate::sequences::filter_map_of_wrapped;
use crate::subscription::handle_of;
use crate::subscription::started;
use crate::subscription::stopped;
use crate::subscription::LockAttempt;
use crate::subscription::Released;
use crate::subscription::SubscriptionHandle;
use crate::subscription::SubscriptionKind;
use crate::subscription::SubscriptionRegistry;
use vstd::prelude::*;

verus! {

/// What the session manager knows of the bus.
pub struct BluetoothServiceView {
    /// Whether a connection to the bus exists.
    pub connected: bool,
    /// The paths of the adapters on the bus. The first is the one in use.
    pub adapters: Seq<String>,
    /// The live subscriptions.
    pub subscriptions: Map<SubscriptionKind, SubscriptionHandle>,
    /// Whether a scan is under way.
    pub scanning: bool,
}

impl BluetoothServiceView {
    /// A service is usable when the bus is connected and has an adapter.
    pub open spec fn is_valid(self) -> bool {
        self.connected && self.adapters.len() > 0
    }

    /// Why the service is not usable, if it is not.
    pub open spec fn fault(self) -> Option<BluetoothError> {
        if !self.connected {
            Some(BluetoothError::NoBluez)
        } else if self.adapters.len() == 0 {
            Some(BluetoothError::NoAdapter)
        } else {
            None
        }
    }

    /// The live subscriptions of a scan, in the order in which they are
    /// made.
    pub open spec fn scan_subscriptions(self) -> Seq<SubscriptionHandle> {
        held(self.subscriptions, SubscriptionKind::InterfacesAdded) + held(
            self.subscriptions,
            SubscriptionKind::InterfacesRemoved,
        )
    }

    /// The table without the subscriptions of a scan.
    pub open spec fn without_scan_subscriptions(self) -> Map<
        SubscriptionKind,
        SubscriptionHandle,
    > {
        self.subscriptions.remove(SubscriptionKind::InterfacesAdded).remove(
            SubscriptionKind::InterfacesRemoved,
        )
    }

    /// No subscription of a scan is live unless a scan is under way, and a
    /// scan is under way only on a usable service.
    pub open spec fn well_formed(self) -> bool {
        &&& !self.scanning ==> self.scan_subscriptions().len() == 0
        &&& self.scanning ==> self.is_valid()
    }
}

/// The handle under which a kind is subscribed, as a sequence of one, or of
/// none where the kind is not subscribed.
pub open spec fn held(
    table: Map<SubscriptionKind, SubscriptionHandle>,
    kind: SubscriptionKind,
) -> Seq<SubscriptionHandle> {
    match handle_of(table, kind) {
        Some(handle) => seq![handle],
        None => seq![],
    }
}

/// The handle that entering `handle` under `kind` pushes out, as a sequence
/// of one or none.
pub open spec fn displaced(
    table: Map<SubscriptionKind, SubscriptionHandle>,
    kind: SubscriptionKind,
    handle: SubscriptionHandle,
) -> Seq<SubscriptionHandle> {
    match started(table, kind, handle, LockAttempt::Acquired).1.handle {
        Some(old) => seq![old],
        None => seq![],
    }
}

/// One step of starting or stopping a scan. The caller takes the steps in
/// the order in which they are given.
#[derive(Debug, PartialEq, Eq)]
pub enum ScanStep {
    /// End this subscription on the bus.
    Release(SubscriptionHandle),
    /// Subscribe to the signal of this kind, as
    /// [`BluetoothService::subscription_filter`] says.
    Subscribe(SubscriptionKind),
    /// Hand the two subscriptions that were just made to
    /// [`BluetoothService::start_device_monitoring`], and release what it
    /// hands out.
    EnterSubscriptions,
    /// List the objects of the bus, and report the devices that
    /// [`BluetoothService::find_known_devices`] finds among them.
    ReportKnownDevices,
    /// Start discovery on the adapter at this path. What came of it goes
    /// to [`BluetoothService::scan_outcome`].
    StartDiscovery(String),
    /// Stop discovery on the adapter at this path. What came of it goes to
    /// [`BluetoothService::discovery_outcome`].
    StopDiscovery(String),
}

/// What is left to do about subscriptions that were taken out of the
/// table, or not let in.
#[derive(Debug, PartialEq, Eq)]
pub struct Teardown {
    /// The subscriptions to end on the bus, in this order.
    pub release: Vec<SubscriptionHandle>,
    /// The lock was not to be had: the table is as it was, and the caller
    /// has to make that known.
    pub contended: bool,
}

/// The end of a scan.
#[derive(Debug, PartialEq, Eq)]
pub struct ScanStop {
    /// What the caller does, in this order.
    pub steps: Vec<ScanStep>,
    /// The lock was not to be had: subscriptions that the scan has stay in
    /// the table and the scan counts as under way, so that a later stop can
    /// end them. The caller has to make that known, and takes the steps all
    /// the same. It is a warning: the stop has not failed for it.
    pub contended: bool,
}

/// How to subscribe to a signal on the bus.
#[derive(Debug, PartialEq, Eq)]
pub struct SignalFilter {
    /// The bus name of the sender.
    pub sender: &'static str,
    /// The interface that the signal belongs to.
    pub interface: &'static str,
    /// The signal's name.
    pub member: &'static str,
    /// The path of the object that sends it.
    pub path: String,
    /// What the signal's first argument has to be, if anything.
    pub arg0: Option<&'static str>,
}

/// The interface of the signal that a kind of subscription listens to.
pub open spec fn interface_of(kind: SubscriptionKind) -> &'static str {
    match kind {
        SubscriptionKind::AdapterProperties => PROPERTIES_INTERFACE,
        SubscriptionKind::InterfacesAdded => OBJECT_MANAGER_INTERFACE,
        SubscriptionKind::InterfacesRemoved => OBJECT_MANAGER_INTERFACE,
    }
}

/// The signal that a kind of subscription listens to.
pub open spec fn member_of(kind: SubscriptionKind) -> &'static str {
    match kind {
        SubscriptionKind::AdapterProperties => PROPERTIES_CHANGED,
        SubscriptionKind::InterfacesAdded => INTERFACES_ADDED,
        SubscriptionKind::InterfacesRemoved => INTERFACES_REMOVED,
    }
}

/// The path that a kind of subscription listens at: changes of the
/// adapter's properties at the adapter, comings and goings at the root.
pub open spec fn path_of(kind: SubscriptionKind, adapter: String) -> Seq<char> {
    match kind {
        SubscriptionKind::AdapterProperties => adapter@,
        SubscriptionKind::InterfacesAdded => ROOT_PATH@,
        SubscriptionKind::InterfacesRemoved => ROOT_PATH@,
    }
}

/// The first argument that a kind of subscription asks for.
pub open spec fn arg0_of(kind: SubscriptionKind) -> Option<&'static str> {
    match kind {
        SubscriptionKind::AdapterProperties => Some(ADAPTER_INTERFACE),
        SubscriptionKind::InterfacesAdded => None,
        SubscriptionKind::InterfacesRemoved => None,
    }
}

/// The steps that release subscriptions, one for each, in their order.
pub open spec fn releases(handles: Seq<SubscriptionHandle>) -> Seq<ScanStep> {
    handles.map_values(|handle: SubscriptionHandle| ScanStep::Release(handle))
}

/// The steps by which a scan gets going on an adapter, once the
/// subscriptions of the scan before it are released: the coming and going
/// of objects is subscribed to first, so that no device is missed; then the
/// devices that the bus knows already are reported; then discovery starts.
pub open spec fn scan_steps(adapter: String) -> Seq<ScanStep> {
    seq![
        ScanStep::Subscribe(SubscriptionKind::InterfacesAdded),
        ScanStep::Subscribe(SubscriptionKind::InterfacesRemoved),
        ScanStep::EnterSubscriptions,
        ScanStep::ReportKnownDevices,
        ScanStep::StartDiscovery(adapter),
    ]
}

/// Starting a scan. It is refused, and nothing changes, on a service that
/// is not usable and where the lock on the subscriptions is not to be had.
/// Else the scan is under way, and the subscriptions of the scan before it
/// are out of the table; the steps release them, and then get the new scan
/// going.
pub open spec fn scan_start_of(state: BluetoothServiceView, lock: LockAttempt) -> (
    BluetoothServiceView,
    Result<Seq<ScanStep>, BluetoothError>,
) {
    if state.fault() is Some {
        (state, Err(state.fault()->0))
    } else if lock == LockAttempt::Contended {
        (state, Err(BluetoothError::ScanFailed))
    } else {
        (
            BluetoothServiceView {
                subscriptions: state.without_scan_subscriptions(),
                scanning: true,
                ..state
            },
            Ok(releases(state.scan_subscriptions()) + scan_steps(state.adapters[0])),
        )
    }
}

/// Entering the two subscriptions of a scan, which the caller has just
/// made. They are let in only while the scan is under way and with the
/// lock; else the table stays and both are handed back for release. What
/// they push out of the table is handed out for release. A lock that was
/// not to be had is made known in every case, whether or not a scan is
/// under way.
pub open spec fn monitoring_of(
    state: BluetoothServiceView,
    added: SubscriptionHandle,
    removed: SubscriptionHandle,
    lock: LockAttempt,
) -> (BluetoothServiceView, Seq<SubscriptionHandle>, bool) {
    if !state.scanning || lock == LockAttempt::Contended {
        (state, seq![added, removed], lock == LockAttempt::Contended)
    } else {
        (
            BluetoothServiceView {
                subscriptions: state.subscriptions.insert(
                    SubscriptionKind::InterfacesAdded,
                    added,
                ).insert(SubscriptionKind::InterfacesRemoved, removed),
                ..state
            },
            displaced(state.subscriptions, SubscriptionKind::InterfacesAdded, added) + displaced(
                state.subscriptions,
                SubscriptionKind::InterfacesRemoved,
                removed,
            ),
            false,
        )
    }
}

/// Taking the two subscriptions of a scan out of the table. With the lock
/// both are out and handed out for release; without it the table stays.
pub open spec fn unregistering_of(state: BluetoothServiceView, lock: LockAttempt) -> (
    BluetoothServiceView,
    Seq<SubscriptionHandle>,
    bool,
) {
    match lock {
        LockAttempt::Acquired => (
            BluetoothServiceView { subscriptions: state.without_scan_subscriptions(), ..state },
            state.scan_subscriptions(),
            false,
        ),
        LockAttempt::Contended => (state, seq![], true),
    }
}

/// Stopping a scan. Where none is under way, nothing changes and nothing is
/// to be done. Else the subscriptions of the scan are taken out of the
/// table and released, and discovery is stopped on the adapter in use.
/// Where the lock is not to be had the subscriptions stay, and so does the
/// scan; discovery is stopped all the same. A lock that was not to be had
/// is made known in every case; it is a warning, and no failure of the
/// stop.
pub open spec fn scan_stop_of(state: BluetoothServiceView, lock: LockAttempt) -> (
    BluetoothServiceView,
    Seq<ScanStep>,
    bool,
) {
    if !state.scanning {
        (state, seq![], lock == LockAttempt::Contended)
    } else {
        let (cleared, release, contended) = unregistering_of(state, lock);
        (
            BluetoothServiceView { scanning: contended, ..cleared },
            releases(release) + (if state.adapters.len() > 0 {
                seq![ScanStep::StopDiscovery(state.adapters[0])]
            } else {
                seq![]
            }),
            contended,
        )
    }
}

/// Every step leaves the service well formed: a scan is under way only on a
/// usable service, and only a scan that is under way has subscriptions.
/// Listening to the adapter, and ending that, is no different.
pub proof fn steps_keep_well_formed(
    state: BluetoothServiceView,
    added: SubscriptionHandle,
    removed: SubscriptionHandle,
    lock: LockAttempt,
)
    requires
        state.well_formed(),
    ensures
        scan_start_of(state, lock).0.well_formed(),
        monitoring_of(state, added, removed, lock).0.well_formed(),
        unregistering_of(state, lock).0.well_formed(),
        scan_stop_of(state, lock).0.well_formed(),
        (BluetoothServiceView {
            subscriptions: started(
                state.subscriptions,
                SubscriptionKind::AdapterProperties,
                added,
                lock,
            ).0,
            ..state
        }).well_formed(),
        (BluetoothServiceView {
            subscriptions: stopped(
                state.subscriptions,
                SubscriptionKind::AdapterProperties,
                lock,
            ).0,
            ..state
        }).well_formed(),
{
}

/// A scan that is started while another is under way takes its place. The
/// subscriptions of the scan before are out of the table, and the first
/// steps of the new scan release them: only then does it subscribe.
pub proof fn restart_releases_the_scan_before(
    state: BluetoothServiceView,
    added: SubscriptionHandle,
    removed: SubscriptionHandle,
)
    requires
        state.is_valid(),
    ensures
        ({
            let first = scan_start_of(state, LockAttempt::Acquired).0;
            let monitored = monitoring_of(first, added, removed, LockAttempt::Acquired);
            let second = scan_start_of(monitored.0, LockAttempt::Acquired);
            &&& monitored.1 == Seq::<SubscriptionHandle>::empty()
            &&& second.1 == Ok::<Seq<ScanStep>, BluetoothError>(
                seq![ScanStep::Release(added), ScanStep::Release(removed)] + scan_steps(
                    state.adapters[0],
                ),
            )
            &&& second.0.scanning
            &&& second.0.scan_subscriptions() == Seq::<SubscriptionHandle>::empty()
        }),
{
    let first = scan_start_of(state, LockAttempt::Acquired).0;
    let monitored = monitoring_of(first, added, removed, LockAttempt::Acquired);
    let second = scan_start_of(monitored.0, LockAttempt::Acquired);
    assert(monitored.1 =~= Seq::<SubscriptionHandle>::empty());
    assert(monitored.0.scan_subscriptions() =~= seq![added, removed]);
    assert(second.0.scan_subscriptions() =~= Seq::<SubscriptionHandle>::empty());
    assert(releases(seq![added, removed]) =~= seq![
        ScanStep::Release(added),
        ScanStep::Release(removed),
    ]);
}

/// No signal is ever subscribed to twice. Among the steps of starting a
/// scan, each kind of signal is subscribed to once at most, and where the
/// table answered for a subscription of that kind, the step that releases
/// it comes before.
pub proof fn start_never_doubles_a_subscription(
    state: BluetoothServiceView,
    kind: SubscriptionKind,
    i: int,
)
    requires
        scan_start_of(state, LockAttempt::Acquired).1 is Ok,
        0 <= i < scan_start_of(state, LockAttempt::Acquired).1->Ok_0.len(),
        scan_start_of(state, LockAttempt::Acquired).1->Ok_0[i] == ScanStep::Subscribe(kind),
    ensures
        forall|j: int|
            0 <= j < scan_start_of(state, LockAttempt::Acquired).1->Ok_0.len() && j != i ==> (
            #[trigger] scan_start_of(state, LockAttempt::Acquired).1->Ok_0[j])
                != ScanStep::Subscribe(kind),
        handle_of(state.subscriptions, kind) matches Some(handle) ==> exists|j: int|
            0 <= j < i && #[trigger] scan_start_of(state, LockAttempt::Acquired).1->Ok_0[j]
                == ScanStep::Release(handle),
        handle_of(scan_start_of(state, LockAttempt::Acquired).0.subscriptions, kind) is None,
{
    let steps = scan_start_of(state, LockAttempt::Acquired).1->Ok_0;
    let stale = state.scan_subscriptions();
    let before = releases(stale);
    let after = scan_steps(state.adapters[0]);
    assert(steps == before + after);
    assert forall|j: int| 0 <= j < before.len() implies #[trigger] steps[j] == ScanStep::Release(
        stale[j],
    ) by {}
    assert(i >= before.len());
    assert(steps[i] == after[i - before.len()]);
    assert forall|j: int| 0 <= j < steps.len() && j != i implies (#[trigger] steps[j])
        != ScanStep::Subscribe(kind) by {
        if j >= before.len() {
            assert(steps[j] == after[j - before.len()]);
        } else {
            assert(steps[j] == ScanStep::Release(stale[j]));
        }
    }
    if let Some(handle) = handle_of(state.subscriptions, kind) {
        let added = held(state.subscriptions, SubscriptionKind::InterfacesAdded);
        if kind == SubscriptionKind::InterfacesAdded {
            assert(stale[0] == handle);
            assert(steps[0] == ScanStep::Release(handle));
        } else {
            assert(kind == SubscriptionKind::InterfacesRemoved);
            assert(stale[added.len() as int] == handle);
            assert(steps[added.len() as int] == ScanStep::Release(handle));
        }
    }
}

/// The table accounts for the subscriptions that are live on the bus: it
/// holds each of them under one kind, and holds nothing else.
pub open spec fn accounts_for(state: BluetoothServiceView, live: Set<SubscriptionHandle>) -> bool {
    state.subscriptions.is_injective() && live == state.subscriptions.values()
}

/// The subscriptions that are live once the caller has released
/// `release`.
pub open spec fn after_release(
    live: Set<SubscriptionHandle>,
    release: Seq<SubscriptionHandle>,
) -> Set<SubscriptionHandle> {
    live.difference(release.to_set())
}

proof fn held_is_in_the_table(
    table: Map<SubscriptionKind, SubscriptionHandle>,
    kind: SubscriptionKind,
)
    ensures
        forall|i: int|
            0 <= i < held(table, kind).len() ==> table.values().contains(
                #[trigger] held(table, kind)[i],
            ),
        held(table, kind).no_duplicates(),
        held(table, kind).to_set() == (match handle_of(table, kind) {
            Some(handle) => set![handle],
            None => Set::<SubscriptionHandle>::empty(),
        }),
{
    match handle_of(table, kind) {
        Some(handle) => {
            assert(table.contains_key(kind) && table[kind] == handle);
            assert(held(table, kind).to_set() =~= set![handle]) by {
                assert(held(table, kind)[0] == handle);
                assert forall|h: SubscriptionHandle| set![handle].contains(h) implies held(
                    table,
                    kind,
                ).to_set().contains(h) by {
                    assert(held(table, kind)[0] == h);
                }
            }
        },
        None => {
            assert(held(table, kind).to_set() =~= Set::<SubscriptionHandle>::empty());
        },
    }
}

proof fn removal_keeps_account(
    table: Map<SubscriptionKind, SubscriptionHandle>,
    kind: SubscriptionKind,
)
    requires
        table.is_injective(),
    ensures
        table.remove(kind).is_injective(),
        table.remove(kind).values() == table.values().difference(held(table, kind).to_set()),
{
    crate::subscription::stop_keeps_account(table, table.values(), kind, LockAttempt::Acquired);
    held_is_in_the_table(table, kind);
    let live = table.values();
    match handle_of(table, kind) {
        Some(handle) => {
            assert(live.remove(handle) =~= live.difference(set![handle]));
        },
        None => {
            assert(live =~= live.difference(Set::<SubscriptionHandle>::empty()));
        },
    }
}

/// Taking the subscriptions of a scan out of the table loses sight of
/// none: what is released was live and is named once, and what stays live
/// is what the table holds.
pub proof fn clearing_keeps_account(state: BluetoothServiceView, live: Set<SubscriptionHandle>)
    requires
        accounts_for(state, live),
    ensures
        state.without_scan_subscriptions().is_injective(),
        state.without_scan_subscriptions().values() == after_release(
            live,
            state.scan_subscriptions(),
        ),
        state.scan_subscriptions().no_duplicates(),
        forall|i: int|
            0 <= i < state.scan_subscriptions().len() ==> live.contains(
                #[trigger] state.scan_subscriptions()[i],
            ),
{
    let table = state.subscriptions;
    let added = held(table, SubscriptionKind::InterfacesAdded);
    let removed = held(table, SubscriptionKind::InterfacesRemoved);
    let between = table.remove(SubscriptionKind::InterfacesAdded);
    removal_keeps_account(table, SubscriptionKind::InterfacesAdded);
    removal_keeps_account(between, SubscriptionKind::InterfacesRemoved);
    held_is_in_the_table(table, SubscriptionKind::InterfacesAdded);
    held_is_in_the_table(table, SubscriptionKind::InterfacesRemoved);
    assert(held(between, SubscriptionKind::InterfacesRemoved) == removed);
    vstd::seq_lib::seq_to_set_distributes_over_add(added, removed);
    assert(live.difference(added.to_set()).difference(removed.to_set()) =~= live.difference(
        added.to_set() + removed.to_set(),
    ));
    assert((added + removed).no_duplicates()) by {
        if added.len() == 1 && removed.len() == 1 {
            assert(table[SubscriptionKind::InterfacesAdded]
                != table[SubscriptionKind::InterfacesRemoved]);
        }
    }
    assert forall|i: int| 0 <= i < (added + removed).len() implies live.contains(
        #[trigger] (added + removed)[i],
    ) by {
        if i < added.len() {
            assert((added + removed)[i] == added[i]);
        } else {
            assert((added + removed)[i] == removed[i - added.len()]);
        }
    }
}

/// The subscriptions that taking `steps` releases, in their order.
pub open spec fn released_by(steps: Seq<ScanStep>) -> Seq<SubscriptionHandle> {
    steps.filter_map(
        |step: ScanStep|
            match step {
                ScanStep::Release(handle) => Some(handle),
                _ => None,
            },
    )
}

proof fn releases_are_released(handles: Seq<SubscriptionHandle>, rest: Seq<ScanStep>)
    requires
        forall|i: int| 0 <= i < rest.len() ==> !(#[trigger] rest[i] is Release),
    ensures
        released_by(releases(handles) + rest) == handles,
{
    let pick = |step: ScanStep|
        match step {
            ScanStep::Release(handle) => Some(handle),
            _ => None,
        };
    let wrap = |handle: SubscriptionHandle| ScanStep::Release(handle);
    filter_map_of_parts(releases(handles), rest, pick);
    filter_map_of_wrapped(handles, wrap, pick);
    filter_map_of_none(rest, pick);
    assert(handles + Seq::<SubscriptionHandle>::empty() =~= handles);
}

/// Starting and stopping a scan never loses sight of a subscription, and
/// never releases one twice. Suppose the table accounts for the
/// subscriptions that are live. Once the caller has taken the steps of a
/// start or of a stop, the table accounts for those that are still live,
/// whether or not the lock was had. Every subscription that the steps
/// release was live, and is released once.
pub proof fn scans_keep_account(
    state: BluetoothServiceView,
    live: Set<SubscriptionHandle>,
    lock: LockAttempt,
)
    requires
        accounts_for(state, live),
    ensures
        scan_start_of(state, lock).1 matches Ok(steps) ==> {
            &&& accounts_for(scan_start_of(state, lock).0, after_release(live, released_by(steps)))
            &&& released_by(steps).no_duplicates()
            &&& forall|i: int|
                0 <= i < released_by(steps).len() ==> live.contains(
                    #[trigger] released_by(steps)[i],
                )
        },
        scan_start_of(state, lock).1 is Err ==> accounts_for(scan_start_of(state, lock).0, live),
        accounts_for(
            scan_stop_of(state, lock).0,
            after_release(live, released_by(scan_stop_of(state, lock).1)),
        ),
        released_by(scan_stop_of(state, lock).1).no_duplicates(),
        forall|i: int|
            0 <= i < released_by(scan_stop_of(state, lock).1).len() ==> live.contains(
                #[trigger] released_by(scan_stop_of(state, lock).1)[i],
            ),
        accounts_for(
            unregistering_of(state, lock).0,
            after_release(live, unregistering_of(state, lock).1),
        ),
{
    clearing_keeps_account(state, live);
    let none = Seq::<SubscriptionHandle>::empty();
    assert(after_release(live, none) =~= live);
    if scan_start_of(state, lock).1 is Ok {
        releases_are_released(state.scan_subscriptions(), scan_steps(state.adapters[0]));
    }
    let stopping = if state.adapters.len() > 0 {
        seq![ScanStep::StopDiscovery(state.adapters[0])]
    } else {
        seq![]
    };
    if state.scanning {
        releases_are_released(unregistering_of(state, lock).1, stopping);
    } else {
        releases_are_released(none, Seq::<ScanStep>::empty());
        assert(releases(none) + Seq::<ScanStep>::empty() =~= Seq::<ScanStep>::empty());
    }
}

/// Entering the subscriptions of a scan never loses sight of one either.
/// Suppose the table accounts for the subscriptions that are live, and the
/// caller has made two more. Once they are entered and the caller has
/// released what was handed out, the table accounts for those that are
/// live: for the two new ones where they were let in, for neither where
/// they were not.
pub proof fn monitoring_keeps_account(
    state: BluetoothServiceView,
    live: Set<SubscriptionHandle>,
    added: SubscriptionHandle,
    removed: SubscriptionHandle,
    lock: LockAttempt,
)
    requires
        accounts_for(state, live),
        added != removed,
        !live.contains(added),
        !live.contains(removed),
    ensures
        accounts_for(
            monitoring_of(state, added, removed, lock).0,
            after_release(
                live.insert(added).insert(removed),
                monitoring_of(state, added, removed, lock).1,
            ),
        ),
{
    let made = live.insert(added).insert(removed);
    let (next, release, _) = monitoring_of(state, added, removed, lock);
    if !state.scanning || lock == LockAttempt::Contended {
        assert(release.to_set() =~= set![added, removed]) by {
            assert(release[0] == added && release[1] == removed);
        }
        assert(after_release(made, release) =~= live);
    } else {
        let table = state.subscriptions;
        let first = started(table, SubscriptionKind::InterfacesAdded, added, lock);
        crate::subscription::start_keeps_account(
            table,
            live,
            SubscriptionKind::InterfacesAdded,
            added,
            lock,
        );
        let between = crate::subscription::live_after(live.insert(added), first.1);
        let second = started(first.0, SubscriptionKind::InterfacesRemoved, removed, lock);
        crate::subscription::start_keeps_account(
            first.0,
            between,
            SubscriptionKind::InterfacesRemoved,
            removed,
            lock,
        );
        let settled = crate::subscription::live_after(between.insert(removed), second.1);
        assert(handle_of(first.0, SubscriptionKind::InterfacesRemoved) == handle_of(
            table,
            SubscriptionKind::InterfacesRemoved,
        ));
        let out_first = displaced(table, SubscriptionKind::InterfacesAdded, added);
        let out_second = displaced(table, SubscriptionKind::InterfacesRemoved, removed);
        assert(release == out_first + out_second);
        vstd::seq_lib::seq_to_set_distributes_over_add(out_first, out_second);
        assert(out_first.to_set() =~= (match first.1.handle {
            Some(old) => set![old],
            None => Set::<SubscriptionHandle>::empty(),
        })) by {
            if let Some(old) = first.1.handle {
                assert(out_first[0] == old);
            }
        }
        assert(out_second.to_set() =~= (match second.1.handle {
            Some(old) => set![old],
            None => Set::<SubscriptionHandle>::empty(),
        })) by {
            if let Some(old) = second.1.handle {
                assert(out_second[0] == old);
            }
        }
        if let Some(old) = first.1.handle {
            assert(table.values().contains(old));
        }
        if let Some(old) = second.1.handle {
            assert(table.values().contains(old));
        }
        assert(after_release(made, release) =~= settled);
    }
}

/// Stopping a scan twice in a row: where the first stop had the lock, the
/// second finds no scan under way. It changes nothing and asks for
/// nothing, whether or not it has the lock: no call is made that could
/// fail, so the second stop is no error.
pub proof fn second_stop_finds_nothing(state: BluetoothServiceView, lock: LockAttempt)
    ensures
        ({
            let once = scan_stop_of(state, LockAttempt::Acquired).0;
            scan_stop_of(once, lock) == (
                once,
                Seq::<ScanStep>::empty(),
                lock == LockAttempt::Contended,
            )
        }),
{
}

/// A stop that does not get the lock still stops discovery, and leaves the
/// scan's subscriptions where a later stop finds and releases them.
pub proof fn contended_stop_still_stops_discovery(state: BluetoothServiceView)
    requires
        state.well_formed(),
        state.scanning,
    ensures
        ({
            let (next, steps, contended) = scan_stop_of(state, LockAttempt::Contended);
            let (last, later, _) = scan_stop_of(next, LockAttempt::Acquired);
            &&& contended
            &&& steps == seq![ScanStep::StopDiscovery(state.adapters[0])]
            &&& later == releases(state.scan_subscriptions()) + seq![
                ScanStep::StopDiscovery(state.adapters[0]),
            ]
            &&& !last.scanning
        }),
{
    let (next, steps, contended) = scan_stop_of(state, LockAttempt::Contended);
    assert(releases(Seq::<SubscriptionHandle>::empty()) =~= Seq::<ScanStep>::empty());
    assert(steps =~= seq![ScanStep::StopDiscovery(state.adapters[0])]);
}

/// What the session manager knows of the bus, and the table of its
/// subscriptions.
#[derive(Debug, PartialEq, Eq)]
pub struct BluetoothService {
    connected: bool,
    adapters: Vec<String>,
    subscriptions: SubscriptionRegistry,
    scanning: bool,
}

impl View for BluetoothService {
    type V = BluetoothServiceView;

    closed spec fn view(&self) -> BluetoothServiceView {
        BluetoothServiceView {
            connected: self.connected,
            adapters: self.adapters@,
            subscriptions: self.subscriptions@,
            scanning: self.scanning,
        }
    }
}

fn release_steps(handles: Vec<SubscriptionHandle>) -> (steps: Vec<ScanStep>)
    ensures
        steps@ == releases(handles@),
{
    let mut steps: Vec<ScanStep> = Vec::new();
    let mut i: usize = 0;
    while i < handles.len()
        invariant
            0 <= i <= handles.len(),
            steps@ == releases(handles@.take(i as int)),
        decreases handles.len() - i,
    {
        steps.push(ScanStep::Release(handles[i]));
        i += 1;
        assert(steps@ =~= releases(handles@.take(i as int)));
    }
    assert(handles@.take(handles.len() as int) =~= handles@);
    steps
}

impl BluetoothService {
    /// The service at start-up. `connected` says whether a connection to
    /// the bus could be had, `objects` are the objects that the bus listed
    /// (none where it could not be asked).
    pub fn new(connected: bool, objects: &Vec<ManagedObject>) -> (service: Self)
        ensures
            service@.connected == connected,
            service@.adapters == if connected {
                objects@.filter_map(|object: ManagedObject| adapter_of(object))
            } else {
                Seq::<String>::empty()
            },
            service@.subscriptions == Map::<SubscriptionKind, SubscriptionHandle>::empty(),
            !service@.scanning,
            service@.well_formed(),
    {
        let adapters = if connected {
            Self::get_adapters(objects)
        } else {
            Vec::new()
        };
        BluetoothService {
            connected,
            adapters,
            subscriptions: SubscriptionRegistry::new(),
            scanning: false,
        }
    }

    /// Whether the service can be used: the bus is connected and has an
    /// adapter.
    pub fn is_valid(&self) -> (valid: bool)
        ensures
            valid == self@.is_valid(),
    {
        self.connected && self.adapters.len() > 0
    }

    /// Whether a scan is under way.
    pub fn is_scanning(&self) -> (scanning: bool)
        ensures
            scanning == self@.scanning,
    {
        self.scanning
    }

    /// The paths of the adapters on the bus. The first is the one in use.
    pub fn adapters(&self) -> (adapters: &Vec<String>)
        ensures
            adapters@ == self@.adapters,
    {
        &self.adapters
    }

    /// The handle under which `kind` is subscribed, if it is.
    pub fn subscription(&self, kind: SubscriptionKind) -> (handle: Option<SubscriptionHandle>)
        ensures
            handle == handle_of(self@.subscriptions, kind),
    {
        self.subscriptions.get(kind)
    }

    fn fault(&self) -> (fault: Option<BluetoothError>)
        ensures
            fault == self@.fault(),
    {
        if !self.connected {
            Some(BluetoothError::NoBluez)
        } else if self.adapters.len() == 0 {
            Some(BluetoothError::NoAdapter)
        } else {
            None
        }
    }

    /// The paths of the adapters among the objects of the bus, in the order
    /// in which the objects are listed.
    pub fn get_adapters(objects: &Vec<ManagedObject>) -> (adapters: Vec<String>)
        ensures
            adapters@ == objects@.filter_map(|object: ManagedObject| adapter_of(object)),
    {
        let ghost pick = |object: ManagedObject| adapter_of(object);
        let mut adapters: Vec<String> = Vec::new();
        let mut i: usize = 0;
        while i < objects.len()
            invariant
                0 <= i <= objects.len(),
                pick == |object: ManagedObject| adapter_of(object),
                adapters@ == objects@.take(i as int).filter_map(pick),
            decreases objects.len() - i,
        {
            proof {
                objects@.lemma_filter_map_take_succ(pick, i as int);
            }
            if find_interface(&objects[i].interfaces, ADAPTER_INTERFACE).is_some() {
                adapters.push(objects[i].path.clone());
            }
            i += 1;
        }
        assert(objects@.take(objects.len() as int) =~= objects@);
        adapters
    }

    /// The power state of the adapter in use, from the answer to a query of
    /// its power property (`None` where the query failed).
    ///
    /// `NoBluez` where the bus is not connected or the query failed,
    /// `NoAdapter` where no adapter is known or the answer is no flag.
    pub fn is_adapter_powered(&self, reply: Option<PropertyValue>) -> (powered: Result<
        bool,
        BluetoothError,
    >)
        ensures
            powered == (if self@.fault() is Some {
                Err::<bool, BluetoothError>(self@.fault()->0)
            } else {
                match reply {
                    Some(PropertyValue::Bool(flag)) => Ok(flag),
                    Some(_) => Err(BluetoothError::NoAdapter),
                    None => Err(BluetoothError::NoBluez),
                }
            }),
    {
        if let Some(fault) = self.fault() {
            return Err(fault);
        }
        match reply {
            Some(PropertyValue::Bool(flag)) => Ok(flag),
            Some(_) => Err(BluetoothError::NoAdapter),
            None => Err(BluetoothError::NoBluez),
        }
    }

    /// How to subscribe to the signal of `kind`, or why that cannot be done:
    /// `NoBluez` without a connection to the bus, `NoAdapter` where no
    /// adapter is known.
    pub fn subscription_filter(&self, kind: SubscriptionKind) -> (filter: Result<
        SignalFilter,
        BluetoothError,
    >)
        ensures
            match filter {
                Ok(filter) => {
                    &&& self@.fault() is None
                    &&& filter.sender == BLUEZ_BUS_NAME
                    &&& filter.interface == interface_of(kind)
                    &&& filter.member == member_of(kind)
                    &&& filter.path@ == path_of(kind, self@.adapters[0])
                    &&& filter.arg0 == arg0_of(kind)
                },
                Err(error) => self@.fault() == Some(error),
            },
    {
        if let Some(fault) = self.fault() {
            return Err(fault);
        }
        let filter = match kind {
            SubscriptionKind::AdapterProperties => SignalFilter {
                sender: BLUEZ_BUS_NAME,
                interface: PROPERTIES_INTERFACE,
                member: PROPERTIES_CHANGED,
                path: self.adapters[0].clone(),
                arg0: Some(ADAPTER_INTERFACE),
            },
            SubscriptionKind::InterfacesAdded => SignalFilter {
                sender: BLUEZ_BUS_NAME,
                interface: OBJECT_MANAGER_INTERFACE,
                member: INTERFACES_ADDED,
                path: ROOT_PATH.to_owned(),
                arg0: None,
            },
            SubscriptionKind::InterfacesRemoved => SignalFilter {
                sender: BLUEZ_BUS_NAME,
                interface: OBJECT_MANAGER_INTERFACE,
                member: INTERFACES_REMOVED,
                path: ROOT_PATH.to_owned(),
                arg0: None,
            },
        };
        Ok(filter)
    }

    /// How to subscribe to changes of the adapter's properties. The handle
    /// of the subscription goes to [`Self::adapter_monitoring_started`].
    pub fn start_adapter_monitoring(&self) -> (filter: Result<SignalFilter, BluetoothError>)
        ensures
            match filter {
                Ok(filter) => {
                    &&& self@.fault() is None
                    &&& filter.sender == BLUEZ_BUS_NAME
                    &&& filter.interface == PROPERTIES_INTERFACE
                    &&& filter.member == PROPERTIES_CHANGED
                    &&& filter.path@ == self@.adapters[0]@
                    &&& filter.arg0 == Some(ADAPTER_INTERFACE)
                },
                Err(error) => self@.fault() == Some(error),
            },
    {
        self.subscription_filter(SubscriptionKind::AdapterProperties)
    }

    /// Enters the subscription to changes of the adapter's properties,
    /// which the caller has just made.
    pub fn adapter_monitoring_started(
        &mut self,
        handle: SubscriptionHandle,
        lock: LockAttempt,
    ) -> (released: Released)
        ensures
            final(self)@ == (BluetoothServiceView {
                subscriptions: started(
                    old(self)@.subscriptions,
                    SubscriptionKind::AdapterProperties,
                    handle,
                    lock,
                ).0,
                ..old(self)@
            }),
            released == started(
                old(self)@.subscriptions,
                SubscriptionKind::AdapterProperties,
                handle,
                lock,
            ).1,
    {
        self.subscriptions.start(SubscriptionKind::AdapterProperties, handle, lock)
    }

    /// Takes the subscription to changes of the adapter's properties out of
    /// the table: the listener is done with.
    pub fn stop_adapter_monitoring(&mut self, lock: LockAttempt) -> (released: Released)
        ensures
            final(self)@ == (BluetoothServiceView {
                subscriptions: stopped(
                    old(self)@.subscriptions,
                    SubscriptionKind::AdapterProperties,
                    lock,
                ).0,
                ..old(self)@
            }),
            released == stopped(
                old(self)@.subscriptions,
                SubscriptionKind::AdapterProperties,
                lock,
            ).1,
    {
        self.subscriptions.stop(SubscriptionKind::AdapterProperties, lock)
    }

    /// The adapter state that a change of the adapter's properties tells
    /// of, if any. Changes that do not touch the power property tell of
    /// none.
    pub fn adapter_status_change(changed: &Vec<Property>) -> (status: Option<BluetoothStatus>)
        ensures
            status == status_in(changed@),
    {
        match read_flag(changed, "Powered") {
            Some(powered) => Some(BluetoothStatus::from_powered(powered)),
            None => None,
        }
    }

    /// The snapshot of the device at `address` that the properties of its
    /// device interface amount to.
    pub fn device_from_data(address: Address, device_data: &Vec<Property>) -> (device: Option<
        Device,
    >)
        ensures
            device == snapshot_of(address, readings_of(device_data@)),
    {
        let readings = DeviceReadings {
            name: read_text(device_data, "Name"),
            paired: read_flag(device_data, "Paired"),
            connected: read_flag(device_data, "Connected"),
            rssi: read_level(device_data, "RSSI"),
        };
        Device::new(address, readings)
    }

    /// The address of the device that an object stands for, from the
    /// object's path and the properties of its device interface.
    pub fn device_address(path: &str, device_data: &Vec<Property>) -> (address: Option<Address>)
        ensures
            address == address_of_object(path@, device_data@),
    {
        match Address::from_object_path(path) {
            Some(address) => Some(address),
            None => match read_text(device_data, "Address") {
                Some(text) => Address::from_text(text.as_str()),
                None => None,
            },
        }
    }

    /// The device that an object which appeared on the bus stands for, if
    /// it stands for one that can be reported.
    pub fn device_from_object(object: &ManagedObject) -> (device: Option<Device>)
        ensures
            device == device_of(*object),
    {
        match find_interface(&object.interfaces, DEVICE_INTERFACE) {
            Some(interface) => match Self::device_address(
                object.path.as_str(),
                &interface.properties,
            ) {
                Some(address) => Self::device_from_data(address, &interface.properties),
                None => None,
            },
            None => None,
        }
    }

    /// The device that an object's leaving takes away, if any. `path` is
    /// the path of the object, `interfaces` names the interfaces that left.
    /// An object that leaves brings no properties: its device is known by
    /// the path alone.
    pub fn device_removed(path: &str, interfaces: &Vec<String>) -> (removed: Option<Address>)
        ensures
            removed == removed_of(path@, interfaces@),
    {
        let wanted = DEVICE_INTERFACE.to_owned();
        let mut i: usize = 0;
        while i < interfaces.len()
            invariant
                0 <= i <= interfaces.len(),
                wanted@ == DEVICE_INTERFACE@,
                forall|j: int| 0 <= j < i ==> (#[trigger] interfaces[j])@ != DEVICE_INTERFACE@,
            decreases interfaces.len() - i,
        {
            if interfaces[i] == wanted {
                return Address::from_object_path(path);
            }
            i += 1;
        }
        None
    }

    /// The devices that the bus knows, each as it can be reported, in the
    /// order in which the objects are listed. Objects that are no devices,
    /// and devices without a name, are left out.
    pub fn find_known_devices(objects: &Vec<ManagedObject>) -> (devices: Vec<Device>)
        ensures
            devices@ == objects@.filter_map(|object: ManagedObject| device_of(object)),
    {
        let ghost pick = |object: ManagedObject| device_of(object);
        let mut devices: Vec<Device> = Vec::new();
        let mut i: usize = 0;
        while i < objects.len()
            invariant
                0 <= i <= objects.len(),
                pick == |object: ManagedObject| device_of(object),
                devices@ == objects@.take(i as int).filter_map(pick),
            decreases objects.len() - i,
        {
            proof {
                objects@.lemma_filter_map_take_succ(pick, i as int);
            }
            if let Some(device) = Self::device_from_object(&objects[i]) {
                devices.push(device);
            }
            i += 1;
        }
        assert(objects@.take(objects.len() as int) =~= objects@);
        devices
    }

    fn take_scan_subscriptions(&mut self) -> (release: Vec<SubscriptionHandle>)
        ensures
            release@ == old(self)@.scan_subscriptions(),
            final(self)@ == (BluetoothServiceView {
                subscriptions: old(self)@.without_scan_subscriptions(),
                ..old(self)@
            }),
    {
        let mut release: Vec<SubscriptionHandle> = Vec::new();
        let added = self.subscriptions.stop(
            SubscriptionKind::InterfacesAdded,
            LockAttempt::Acquired,
        );
        if let Some(handle) = added.handle {
            release.push(handle);
        }
        let removed = self.subscriptions.stop(
            SubscriptionKind::InterfacesRemoved,
            LockAttempt::Acquired,
        );
        if let Some(handle) = removed.handle {
            release.push(handle);
        }
        assert(release@ =~= old(self)@.scan_subscriptions());
        release
    }

    /// Starts a scan, or starts it anew. On success the caller takes the
    /// steps that are returned, in their order.
    pub fn start_scanning_for_devices(&mut self, lock: LockAttempt) -> (steps: Result<
        Vec<ScanStep>,
        BluetoothError,
    >)
        ensures
            final(self)@ == scan_start_of(old(self)@, lock).0,
            match steps {
                Ok(steps) => scan_start_of(old(self)@, lock).1 == Ok::<
                    Seq<ScanStep>,
                    BluetoothError,
                >(steps@),
                Err(error) => scan_start_of(old(self)@, lock).1 == Err::<
                    Seq<ScanStep>,
                    BluetoothError,
                >(error),
            },
    {
        if let Some(fault) = self.fault() {
            return Err(fault);
        }
        match lock {
            LockAttempt::Contended => Err(BluetoothError::ScanFailed),
            LockAttempt::Acquired => {
                let stale = self.take_scan_subscriptions();
                self.scanning = true;
                let mut steps = release_steps(stale);
                steps.push(ScanStep::Subscribe(SubscriptionKind::InterfacesAdded));
                steps.push(ScanStep::Subscribe(SubscriptionKind::InterfacesRemoved));
                steps.push(ScanStep::EnterSubscriptions);
                steps.push(ScanStep::ReportKnownDevices);
                steps.push(ScanStep::StartDiscovery(self.adapters[0].clone()));
                assert(steps@ =~= releases(old(self)@.scan_subscriptions()) + scan_steps(
                    old(self)@.adapters[0],
                ));
                Ok(steps)
            },
        }
    }

    /// Enters the subscriptions to the coming (`added`) and going
    /// (`removed`) of objects, which the caller has just made for the scan.
    pub fn start_device_monitoring(
        &mut self,
        added: SubscriptionHandle,
        removed: SubscriptionHandle,
        lock: LockAttempt,
    ) -> (teardown: Teardown)
        ensures
            (final(self)@, teardown.release@, teardown.contended) == monitoring_of(
                old(self)@,
                added,
                removed,
                lock,
            ),
    {
        let mut release: Vec<SubscriptionHandle> = Vec::new();
        if !self.scanning || lock == LockAttempt::Contended {
            release.push(added);
            release.push(removed);
            assert(release@ =~= seq![added, removed]);
            return Teardown { release, contended: lock == LockAttempt::Contended };
        }
        let first = self.subscriptions.start(SubscriptionKind::InterfacesAdded, added, lock);
        if let Some(handle) = first.handle {
            release.push(handle);
        }
        let second = self.subscriptions.start(SubscriptionKind::InterfacesRemoved, removed, lock);
        if let Some(handle) = second.handle {
            release.push(handle);
        }
        proof {
            let table = old(self)@.subscriptions;
            let between = table.insert(SubscriptionKind::InterfacesAdded, added);
            assert(handle_of(between, SubscriptionKind::InterfacesRemoved) == handle_of(
                table,
                SubscriptionKind::InterfacesRemoved,
            ));
            assert(release@ =~= monitoring_of(old(self)@, added, removed, lock).1);
        }
        Teardown { release, contended: false }
    }

    /// Takes the subscriptions of the scan out of the table.
    pub fn unregister_interface_subscriptions(&mut self, lock: LockAttempt) -> (teardown: Teardown)
        ensures
            (final(self)@, teardown.release@, teardown.contended) == unregistering_of(
                old(self)@,
                lock,
            ),
    {
        match lock {
            LockAttempt::Acquired => {
                let release = self.take_scan_subscriptions();
                Teardown { release, contended: false }
            },
            LockAttempt::Contended => Teardown { release: Vec::new(), contended: true },
        }
    }

    /// Stops the scan. The caller takes the steps that are returned, in
    /// their order, whether or not the lock was had.
    pub fn stop_scanning_for_devices(&mut self, lock: LockAttempt) -> (stop: ScanStop)
        ensures
            (final(self)@, stop.steps@, stop.contended) == scan_stop_of(old(self)@, lock),
    {
        if !self.scanning {
            return ScanStop { steps: Vec::new(), contended: lock == LockAttempt::Contended };
        }
        let teardown = self.unregister_interface_subscriptions(lock);
        self.scanning = teardown.contended;
        let mut steps = release_steps(teardown.release);
        if self.adapters.len() > 0 {
            steps.push(ScanStep::StopDiscovery(self.adapters[0].clone()));
        }
        assert(steps@ =~= scan_stop_of(old(self)@, lock).1);
        ScanStop { steps, contended: teardown.contended }
    }

    /// What became of stopping discovery on the adapter: a refusal by the
    /// backend is a failed scan, whatever its reason.
    pub fn discovery_outcome<E>(reply: Result<(), E>) -> (outcome: Result<(), BluetoothError>)
        ensures
            outcome == (match reply {
                Ok(_) => Ok::<(), BluetoothError>(()),
                Err(_) => Err(BluetoothError::ScanFailed),
            }),
    {
        match reply {
            Ok(_) => Ok(()),
            Err(_) => Err(BluetoothError::ScanFailed),
        }
    }

    /// What became of starting a scan, once its steps are taken: `entered`
    /// is what entering the subscriptions came to, `discovery` is the
    /// backend's answer to starting discovery. The scan has failed where
    /// the lock was not to be had when the subscriptions were entered, and
    /// where the backend refused to discover.
    pub fn scan_outcome<E>(entered: &Teardown, discovery: Result<(), E>) -> (outcome: Result<
        (),
        BluetoothError,
    >)
        ensures
            outcome == (if entered.contended || discovery is Err {
                Err::<(), BluetoothError>(BluetoothError::ScanFailed)
            } else {
                Ok(())
            }),
    {
        if entered.contended {
            return Err(BluetoothError::ScanFailed);
        }
        match discovery {
            Ok(_) => Ok(()),
            Err(_) => Err(BluetoothError::ScanFailed),
        }
    }
}

} // verus!
