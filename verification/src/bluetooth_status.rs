//! State of the local adapter as the presentation layer sees it.

use vstd::prelude::*;

verus! {

/// Availability of the local adapter.
///
/// `Unavailable` means that no usable adapter or bus exists. `PoweredOff` and
/// `Disconnected` follow the adapter's power property alone. `Connected` is
/// never read off the adapter: it is set when a connect attempt succeeds and
/// taken back on disconnect.
#[derive(Debug, Clone, Copy, PartialEq, Eq, Structural)]
pub enum BluetoothStatus {
    Unavailable,
    PoweredOff,
    Disconnected,
    Connected,
}

/// The status that the adapter's power property stands for.
pub open spec fn status_of_power(powered: bool) -> BluetoothStatus {
    if powered {
        BluetoothStatus::Disconnected
    } else {
        BluetoothStatus::PoweredOff
    }
}

/// The status that a query of the power property stands for: a query that
/// failed means that the adapter cannot be used.
pub open spec fn status_of_query<E>(powered: Result<bool, E>) -> BluetoothStatus {
    match powered {
        Ok(powered) => status_of_power(powered),
        Err(_) => BluetoothStatus::Unavailable,
    }
}

/// No query of the power property yields `Connected`.
pub proof fn power_never_reads_connected<E>(powered: Result<bool, E>)
    ensures
        status_of_query(powered) != BluetoothStatus::Connected,
{
}

impl BluetoothStatus {
    /// The status of an adapter whose power property reads `powered`.
    pub fn from_powered(powered: bool) -> (status: Self)
        ensures
            status == status_of_power(powered),
    {
        if powered {
            BluetoothStatus::Disconnected
        } else {
            BluetoothStatus::PoweredOff
        }
    }
}

impl Default for BluetoothStatus {
    fn default() -> (status: Self)
        ensures
            status == BluetoothStatus::Unavailable,
    {
        BluetoothStatus::Unavailable
    }
}

} // verus!
