//! Snapshots of discovered peripherals, and the two classifications a
//! snapshot carries: link quality and set-up status.

use crate::address::Address;
use vstd::prelude::*;

verus! {

/// The reading that stands in for a signal strength the backend could not
/// supply. It lies below every tier but `NoSignal`.
pub const UNREADABLE_RSSI: i16 = -121;

/// Coarse quality of the radio link to a device.
#[derive(Debug, Clone, Copy, PartialEq, Eq, Structural)]
pub enum DeviceSignalStrength {
    NoSignal,
    Weak,
    Okay,
    Good,
    Full,
}

/// The readings that belong to a tier. Every integer belongs to exactly one
/// (see [`signal_tiers_partition`]); what lies above zero or below the
/// weakest range counts as no signal.
pub open spec fn in_tier(tier: DeviceSignalStrength, rssi: int) -> bool {
    match tier {
        DeviceSignalStrength::NoSignal => rssi <= -120 || rssi > 0,
        DeviceSignalStrength::Weak => -119 <= rssi <= -90,
        DeviceSignalStrength::Okay => -89 <= rssi <= -60,
        DeviceSignalStrength::Good => -59 <= rssi <= -30,
        DeviceSignalStrength::Full => -29 <= rssi <= 0,
    }
}

/// The tier of a reading.
pub open spec fn tier_of(rssi: int) -> DeviceSignalStrength {
    if in_tier(DeviceSignalStrength::Weak, rssi) {
        DeviceSignalStrength::Weak
    } else if in_tier(DeviceSignalStrength::Okay, rssi) {
        DeviceSignalStrength::Okay
    } else if in_tier(DeviceSignalStrength::Good, rssi) {
        DeviceSignalStrength::Good
    } else if in_tier(DeviceSignalStrength::Full, rssi) {
        DeviceSignalStrength::Full
    } else {
        DeviceSignalStrength::NoSignal
    }
}

/// The tiers partition the readings: a reading lies in a tier exactly when
/// that tier is its classification, so it lies in one tier and no other.
pub proof fn signal_tiers_partition(rssi: int)
    ensures
        in_tier(tier_of(rssi), rssi),
        forall|tier: DeviceSignalStrength| in_tier(tier, rssi) <==> tier == tier_of(rssi),
{
}

impl DeviceSignalStrength {
    /// Classifies a raw signal-strength reading. Total: every reading has a
    /// tier.
    pub fn from(value: i16) -> (tier: Self)
        ensures
            tier == tier_of(value as int),
    {
        if value <= -120 {
            Self::NoSignal
        } else if value <= -90 {
            Self::Weak
        } else if value <= -60 {
            Self::Okay
        } else if value <= -30 {
            Self::Good
        } else if value <= 0 {
            Self::Full
        } else {
            Self::NoSignal
        }
    }
}

/// How far a device has been set up with this host.
#[derive(Debug, Clone, Copy, PartialEq, Eq, Structural)]
pub enum DeviceStatus {
    NotSetUp,
    Paired,
    Connected,
}

/// The status that two independent facts about a device amount to: a
/// connection outranks a pairing, and a pairing outranks nothing at all.
pub open spec fn status_of(paired: bool, connected: bool) -> DeviceStatus {
    if connected {
        DeviceStatus::Connected
    } else if paired {
        DeviceStatus::Paired
    } else {
        DeviceStatus::NotSetUp
    }
}

/// The status follows from the two flags, and from nothing else: a
/// connected device is `Connected` whether or not it is paired, a device
/// that is paired and not connected is `Paired`, and a device that is
/// neither is `NotSetUp`.
pub proof fn status_follows_the_flags(paired: bool)
    ensures
        status_of(paired, true) == DeviceStatus::Connected,
        status_of(true, false) == DeviceStatus::Paired,
        status_of(false, false) == DeviceStatus::NotSetUp,
{
}

/// A snapshot's status and signal tier are those of the readings it was
/// taken from.
pub proof fn snapshot_is_derived(address: Address, readings: DeviceReadings)
    ensures
        snapshot_of(address, readings) is Some <==> readings.name is Some,
        snapshot_of(address, readings) matches Some(device) ==> {
            &&& device.address == address
            &&& device.name == readings.name->0
            &&& device.status == status_of(flag_of(readings.paired), flag_of(readings.connected))
            &&& in_tier(device.signal, rssi_of(readings.rssi))
        },
{
}

impl vstd::std_specs::convert::FromSpecImpl<(bool, bool)> for DeviceStatus {
    open spec fn obeys_from_spec() -> bool {
        true
    }

    open spec fn from_spec(value: (bool, bool)) -> Self {
        status_of(value.0, value.1)
    }
}

impl From<(bool, bool)> for DeviceStatus {
    /// From `(paired, connected)`.
    fn from(value: (bool, bool)) -> (status: Self) {
        let paired = value.0;
        let connected = value.1;
        if connected {
            DeviceStatus::Connected
        } else if paired {
            DeviceStatus::Paired
        } else {
            DeviceStatus::NotSetUp
        }
    }
}

/// What the backend could read of a device. `None` stands for a reading it
/// could not supply, whatever the cause.
#[derive(Debug, PartialEq, Eq)]
pub struct DeviceReadings {
    pub name: Option<String>,
    pub paired: Option<bool>,
    pub connected: Option<bool>,
    pub rssi: Option<i16>,
}

impl DeviceReadings {
    /// A copy of the readings.
    pub fn duplicate(&self) -> (copy: Self)
        ensures
            copy == *self,
    {
        DeviceReadings {
            name: match &self.name {
                Some(name) => Some(name.clone()),
                None => None,
            },
            paired: self.paired,
            connected: self.connected,
            rssi: self.rssi,
        }
    }
}

/// A discovered peripheral as it was last seen. The status and the signal
/// tier are never set on their own: they are derived when the snapshot is
/// taken, and a later sighting replaces the snapshot whole.
#[derive(Debug, PartialEq, Eq)]
pub struct Device {
    pub address: Address,
    pub name: String,
    pub status: DeviceStatus,
    pub signal: DeviceSignalStrength,
}

/// The flag a reading stands for: an unreadable flag counts as unset.
pub open spec fn flag_of(reading: Option<bool>) -> bool {
    match reading {
        Some(flag) => flag,
        None => false,
    }
}

/// The signal strength a reading stands for.
pub open spec fn rssi_of(reading: Option<i16>) -> int {
    match reading {
        Some(rssi) => rssi as int,
        None => UNREADABLE_RSSI as int,
    }
}

/// The snapshot that a set of readings amounts to, if any: a device whose
/// name cannot be resolved is not reportable.
pub open spec fn snapshot_of(address: Address, readings: DeviceReadings) -> Option<Device> {
    match readings.name {
        Some(name) => Some(
            Device {
                address,
                name,
                status: status_of(flag_of(readings.paired), flag_of(readings.connected)),
                signal: tier_of(rssi_of(readings.rssi)),
            },
        ),
        None => None,
    }
}

impl Device {
    /// Takes a snapshot of the device at `address` from what could be read
    /// of it.
    pub fn new(address: Address, readings: DeviceReadings) -> (device: Option<Self>)
        ensures
            device == snapshot_of(address, readings),
    {
        let DeviceReadings { name, paired, connected, rssi } = readings;
        let name = match name {
            Some(name) => name,
            None => {
                return None;
            },
        };
        let paired = match paired {
            Some(flag) => flag,
            None => false,
        };
        let connected = match connected {
            Some(flag) => flag,
            None => false,
        };
        let rssi = match rssi {
            Some(rssi) => rssi,
            None => UNREADABLE_RSSI,
        };
        Some(
            Device {
                address,
                name,
                status: (paired, connected).into(),
                signal: DeviceSignalStrength::from(rssi),
            },
        )
    }

    /// A copy of the snapshot.
    pub fn duplicate(&self) -> (copy: Self)
        ensures
            copy == *self,
    {
        Device {
            address: self.address,
            name: self.name.clone(),
            status: self.status,
            signal: self.signal,
        }
    }
}

/// What a scan reports.
#[derive(Debug, PartialEq, Eq)]
pub enum DeviceDiscoveryEvent {
    DeviceAdded(Device),
    DeviceRemoved(Address),
}

} // verus!
