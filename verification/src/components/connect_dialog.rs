//! The connect dialog: the list of devices that a scan has found, kept
//! with one entry for each address.

use crate::address::Address;
use crate::device::Device;
use crate::sequences::filter_drops_one;
use crate::sequences::filter_keeps_all;
use crate::state_manager::StateManagerInput;
use vstd::prelude::*;

verus! {

/// What the discovery listener is told, and passes on to the dialog.
#[derive(Debug, PartialEq, Eq)]
pub enum DeviceDiscoveryEvent {
    DeviceFound(Device),
    DeviceLost(Address),
}

/// The discovery listener: it hands every event on as it came.
#[derive(Debug, PartialEq, Eq)]
pub struct DeviceDiscoveryListener;

impl DeviceDiscoveryListener {
    /// Takes an event in. Returns what is handed on.
    pub fn update(&mut self, message: DeviceDiscoveryEvent) -> (output: DeviceDiscoveryEvent)
        ensures
            output == message,
    {
        match message {
            DeviceDiscoveryEvent::DeviceFound(device) => DeviceDiscoveryEvent::DeviceFound(device),
            DeviceDiscoveryEvent::DeviceLost(address) => DeviceDiscoveryEvent::DeviceLost(address),
        }
    }
}

/// One entry of the list: a device as it was seen last.
#[derive(Debug, PartialEq, Eq)]
pub struct DeviceListing {
    pub device: Device,
}

/// What an entry asks for when it is chosen.
#[derive(Debug, PartialEq, Eq)]
pub enum DeviceListingOutput {
    /// Connect to the device at the address, listed under the name.
    Connect(Address, String),
}

impl DeviceListing {
    /// What choosing the entry asks for.
    pub fn activated(&self) -> (output: DeviceListingOutput)
        ensures
            output == DeviceListingOutput::Connect(self.device.address, self.device.name),
    {
        DeviceListingOutput::Connect(self.device.address, self.device.name.clone())
    }
}

/// What the dialog is told.
#[derive(Debug, PartialEq, Eq)]
pub enum ConnectDialogInput {
    StartScanning,
    StopScanning,
    DeviceAdded(Device),
    DeviceRemoved(Address),
    Connect(Address, String),
    Close,
    GoBack,
}

/// One thing that the dialog wants done.
#[derive(Debug, PartialEq, Eq)]
pub enum DialogEffect {
    /// Hand a command to the coordinator.
    Send(StateManagerInput),
    /// Show the page of the device that is being connected to.
    ShowDetails,
    /// Go back to the page with the list.
    ShowScan,
    /// Close the dialog.
    Close,
}

/// The place of the first entry for `address`, looking from `from` on.
pub open spec fn position_from(list: Seq<DeviceListing>, address: Address, from: int) -> Option<
    int,
>
    decreases list.len() - from,
{
    if from < 0 || from >= list.len() {
        None
    } else if list[from].device.address == address {
        Some(from)
    } else {
        position_from(list, address, from + 1)
    }
}

/// The place of the entry for `address`, if the list has one.
pub open spec fn position(list: Seq<DeviceListing>, address: Address) -> Option<int> {
    position_from(list, address, 0)
}

/// No two entries are for the same address.
pub open spec fn distinct(list: Seq<DeviceListing>) -> bool {
    forall|i: int, j: int|
        0 <= i < j < list.len() ==> (#[trigger] list[i]).device.address != (
        #[trigger] list[j]).device.address
}

/// The list with a sighting taken in: the sighting takes the place of the
/// entry for its address, or goes to the end where the address is new.
pub open spec fn merged(list: Seq<DeviceListing>, device: Device) -> Seq<DeviceListing> {
    match position(list, device.address) {
        Some(i) => list.update(i, DeviceListing { device }),
        None => list.push(DeviceListing { device }),
    }
}

/// The list without the entry for `address`.
pub open spec fn without(list: Seq<DeviceListing>, address: Address) -> Seq<DeviceListing> {
    match position(list, address) {
        Some(i) => list.remove(i),
        None => list,
    }
}

/// The dialog's answer to a message: its next list, and what is to be done,
/// in order. A scan starts from an empty list.
pub open spec fn dialog_update_of(list: Seq<DeviceListing>, message: ConnectDialogInput) -> (
    Seq<DeviceListing>,
    Seq<DialogEffect>,
) {
    match message {
        ConnectDialogInput::StartScanning => (
            seq![],
            seq![DialogEffect::Send(StateManagerInput::StartScanningForDevices)],
        ),
        ConnectDialogInput::StopScanning => (
            list,
            seq![DialogEffect::Send(StateManagerInput::StopScanningForDevices)],
        ),
        ConnectDialogInput::DeviceAdded(device) => (merged(list, device), seq![]),
        ConnectDialogInput::DeviceRemoved(address) => (without(list, address), seq![]),
        ConnectDialogInput::Connect(address, name) => (
            list,
            seq![
                DialogEffect::ShowDetails,
                DialogEffect::Send(StateManagerInput::Connect(address, name)),
            ],
        ),
        ConnectDialogInput::Close => (list, seq![DialogEffect::Close]),
        ConnectDialogInput::GoBack => (list, seq![DialogEffect::ShowScan]),
    }
}

/// What looking an address up finds: the first entry for it, and nothing
/// exactly where no entry is for it.
pub proof fn position_finds_the_first(list: Seq<DeviceListing>, address: Address, from: int)
    requires
        0 <= from,
    ensures
        position_from(list, address, from) is None <==> forall|i: int|
            from <= i < list.len() ==> (#[trigger] list[i]).device.address != address,
        position_from(list, address, from) matches Some(i) ==> {
            &&& from <= i < list.len()
            &&& list[i].device.address == address
            &&& forall|j: int| from <= j < i ==> (#[trigger] list[j]).device.address != address
        },
    decreases list.len() - from,
{
    if from < list.len() && list[from].device.address != address {
        position_finds_the_first(list, address, from + 1);
        if position_from(list, address, from) is None {
            assert forall|i: int| from <= i < list.len() implies (
            #[trigger] list[i]).device.address != address by {
                if i > from {
                }
            }
        } else {
            let i = position_from(list, address, from)->0;
            assert forall|j: int| from <= j < i implies (#[trigger] list[j]).device.address
                != address by {
                if j > from {
                }
            }
        }
    }
}

/// Sightings are merged by address. In a list without doubles, a sighting
/// that is taken in stands under its address, and it alone: the list is
/// still without doubles, every other entry is where and what it was, and
/// the list grows by one entry exactly where the address was new.
pub proof fn merge_replaces_by_address(list: Seq<DeviceListing>, device: Device)
    requires
        distinct(list),
    ensures
        distinct(merged(list, device)),
        position(merged(list, device), device.address) matches Some(i) && merged(
            list,
            device,
        )[i].device == device,
        merged(list, device).len() == list.len() + (if position(list, device.address) is Some {
            0int
        } else {
            1int
        }),
        forall|j: int|
            0 <= j < list.len() && (#[trigger] list[j]).device.address != device.address
                ==> merged(list, device)[j] == list[j],
{
    let address = device.address;
    let after = merged(list, device);
    position_finds_the_first(list, address, 0);
    position_finds_the_first(after, address, 0);
    match position(list, address) {
        Some(i) => {
            assert(after[i].device.address == address);
            assert forall|a: int, b: int| 0 <= a < b < after.len() implies (
            #[trigger] after[a]).device.address != (#[trigger] after[b]).device.address by {
                if a == i {
                    assert(list[b].device.address != list[i].device.address);
                } else if b == i {
                    assert(list[a].device.address != list[i].device.address);
                } else {
                    assert(list[a].device.address != list[b].device.address);
                }
            }
            let found = position(after, address)->0;
            if found != i {
                if found < i {
                    assert(after[found].device.address != after[i].device.address);
                } else {
                    assert(after[i].device.address != after[found].device.address);
                }
            }
        },
        None => {
            let last = list.len() as int;
            assert(after[last].device == device);
            assert forall|a: int, b: int| 0 <= a < b < after.len() implies (
            #[trigger] after[a]).device.address != (#[trigger] after[b]).device.address by {
                if b == last {
                    assert(list[a].device.address != address);
                } else {
                    assert(list[a].device.address != list[b].device.address);
                }
            }
            let found = position(after, address)->0;
            if found != last {
                assert(list[found].device.address != address);
            }
        },
    }
}

/// A device that left is off the list. In a list without doubles, no entry
/// for the address is left, the others are all there in the order they
/// were in, and the list is still without doubles.
pub proof fn removal_takes_the_address_off(list: Seq<DeviceListing>, address: Address)
    requires
        distinct(list),
    ensures
        distinct(without(list, address)),
        position(without(list, address), address) is None,
        without(list, address) == list.filter(
            |listing: DeviceListing| listing.device.address != address,
        ),
{
    let after = without(list, address);
    position_finds_the_first(list, address, 0);
    removal_keeps_the_others(list, address);
    match position(list, address) {
        Some(i) => {
            assert forall|a: int, b: int| 0 <= a < b < after.len() implies (
            #[trigger] after[a]).device.address != (#[trigger] after[b]).device.address by {
                let from_a = if a < i {
                    a
                } else {
                    a + 1
                };
                let from_b = if b < i {
                    b
                } else {
                    b + 1
                };
                assert(list[from_a].device.address != list[from_b].device.address);
            }
            assert forall|k: int| 0 <= k < after.len() implies (
            #[trigger] after[k]).device.address != address by {
                let from = if k < i {
                    k
                } else {
                    k + 1
                };
                if from < i {
                    assert(list[from].device.address != list[i].device.address);
                } else {
                    assert(list[i].device.address != list[from].device.address);
                }
            }
            position_finds_the_first(after, address, 0);
        },
        None => {},
    }
}

proof fn removal_keeps_the_others(list: Seq<DeviceListing>, address: Address)
    requires
        distinct(list),
    ensures
        without(list, address) == list.filter(
            |listing: DeviceListing| listing.device.address != address,
        ),
{
    let others = |listing: DeviceListing| listing.device.address != address;
    position_finds_the_first(list, address, 0);
    match position(list, address) {
        Some(i) => {
            let front = list.take(i);
            let entry = seq![list[i]];
            let back = list.skip(i + 1);
            assert forall|k: int| 0 <= k < back.len() implies others(#[trigger] back[k]) by {
                assert(list[i].device.address != list[i + 1 + k].device.address);
            }
            filter_keeps_all(front, others);
            filter_keeps_all(back, others);
            filter_drops_one(list[i], others);
            Seq::filter_distributes_over_add(front + entry, back, others);
            Seq::filter_distributes_over_add(front, entry, others);
            assert(list =~= (front + entry) + back);
            assert(list.remove(i) =~= front + back);
            assert((front + entry).filter(others) =~= front);
        },
        None => {
            filter_keeps_all(list, others);
        },
    }
}

/// Whatever the dialog is told, its list stays without doubles.
pub proof fn updates_keep_the_list_distinct(list: Seq<DeviceListing>, message: ConnectDialogInput)
    requires
        distinct(list),
    ensures
        distinct(dialog_update_of(list, message).0),
{
    match message {
        ConnectDialogInput::DeviceAdded(device) => {
            merge_replaces_by_address(list, device);
        },
        ConnectDialogInput::DeviceRemoved(address) => {
            removal_takes_the_address_off(list, address);
        },
        _ => {},
    }
}

/// The connect dialog's model: the list of the devices that were found.
#[derive(Debug, PartialEq, Eq)]
pub struct ConnectDialog {
    devices: Vec<DeviceListing>,
}

impl View for ConnectDialog {
    type V = Seq<DeviceListing>;

    closed spec fn view(&self) -> Seq<DeviceListing> {
        self.devices@
    }
}

impl ConnectDialog {
    /// The dialog with an empty list.
    pub fn new() -> (dialog: Self)
        ensures
            dialog@ == Seq::<DeviceListing>::empty(),
    {
        ConnectDialog { devices: Vec::new() }
    }

    /// The list, in the order in which the addresses were first seen.
    pub fn devices(&self) -> (devices: &Vec<DeviceListing>)
        ensures
            devices@ == self@,
    {
        &self.devices
    }

    fn find(&self, address: Address) -> (place: Option<usize>)
        ensures
            match place {
                Some(i) => position(self@, address) == Some(i as int) && i < self@.len(),
                None => position(self@, address) is None,
            },
    {
        let mut i: usize = 0;
        while i < self.devices.len()
            invariant
                0 <= i <= self.devices.len(),
                position(self@, address) == position_from(self@, address, i as int),
            decreases self.devices.len() - i,
        {
            if self.devices[i].device.address == address {
                return Some(i);
            }
            i += 1;
        }
        None
    }

    /// Takes a message in. Returns what is to be done about it, in order.
    pub fn update(&mut self, message: ConnectDialogInput) -> (effects: Vec<DialogEffect>)
        ensures
            (final(self)@, effects@) == dialog_update_of(old(self)@, message),
    {
        let mut effects: Vec<DialogEffect> = Vec::new();
        match message {
            ConnectDialogInput::StartScanning => {
                self.devices = Vec::new();
                effects.push(DialogEffect::Send(StateManagerInput::StartScanningForDevices));
            },
            ConnectDialogInput::StopScanning => {
                effects.push(DialogEffect::Send(StateManagerInput::StopScanningForDevices));
            },
            ConnectDialogInput::DeviceAdded(device) => {
                match self.find(device.address) {
                    Some(i) => {
                        self.devices.set(i, DeviceListing { device });
                    },
                    None => {
                        self.devices.push(DeviceListing { device });
                    },
                }
            },
            ConnectDialogInput::DeviceRemoved(address) => {
                if let Some(i) = self.find(address) {
                    self.devices.remove(i);
                }
            },
            ConnectDialogInput::Connect(address, name) => {
                effects.push(DialogEffect::ShowDetails);
                effects.push(DialogEffect::Send(StateManagerInput::Connect(address, name)));
            },
            ConnectDialogInput::Close => {
                effects.push(DialogEffect::Close);
            },
            ConnectDialogInput::GoBack => {
                effects.push(DialogEffect::ShowScan);
            },
        }
        assert(effects@ =~= dialog_update_of(old(self)@, message).1);
        assert(self@ =~= dialog_update_of(old(self)@, message).0);
        effects
    }
}

} // verus!
