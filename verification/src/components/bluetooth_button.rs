//! The adapter button: shows the adapter's state and opens the connect
//! dialog.

use crate::bluetooth_status::BluetoothStatus;
use vstd::prelude::*;

verus! {

/// What the adapter button is told.
#[derive(Debug, Clone, Copy, PartialEq, Eq, Structural)]
pub enum AdapterStateInput {
    ChangeStatus(BluetoothStatus),
    Clicked,
}

/// The adapter button's model: the adapter state that was reported last.
#[derive(Debug, PartialEq, Eq)]
pub struct BluetoothButton {
    pub status: BluetoothStatus,
}

/// Whether a click opens the connect dialog: only an adapter that is
/// powered can be asked to look for devices.
pub open spec fn opens_dialog(status: BluetoothStatus) -> bool {
    status == BluetoothStatus::Disconnected || status == BluetoothStatus::Connected
}

impl BluetoothButton {
    /// The button before any state was reported.
    pub fn new() -> (button: Self)
        ensures
            button.status == BluetoothStatus::Unavailable,
    {
        BluetoothButton { status: BluetoothStatus::Unavailable }
    }

    /// Takes a message in. Returns whether the connect dialog is to be
    /// presented.
    pub fn update(&mut self, message: AdapterStateInput) -> (present: bool)
        ensures
            match message {
                AdapterStateInput::ChangeStatus(status) => final(self).status == status && !present,
                AdapterStateInput::Clicked => final(self).status == old(self).status && present
                    == opens_dialog(old(self).status),
            },
    {
        match message {
            AdapterStateInput::ChangeStatus(status) => {
                self.status = status;
                false
            },
            AdapterStateInput::Clicked => match self.status {
                BluetoothStatus::Disconnected | BluetoothStatus::Connected => true,
                _ => false,
            },
        }
    }
}

} // verus!
