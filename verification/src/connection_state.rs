//! The connection to the platform's Bluetooth service, as it stands before
//! the service was asked anything.

use vstd::prelude::*;

verus! {

/// The state of the connection to the platform's Bluetooth service.
#[derive(Debug, Clone, Copy, PartialEq, Eq, Structural)]
pub enum ConnectionState {
    /// Nothing is known of the service yet: it counts as not available.
    NotAvailable,
}

/// The connection to the platform's Bluetooth service. One is made at
/// start-up and handed to whoever needs it.
#[derive(Debug, PartialEq, Eq)]
pub struct Bluetooth {
    state: ConnectionState,
}

impl Bluetooth {
    /// The state of the connection.
    pub closed spec fn state(&self) -> ConnectionState {
        self.state
    }

    /// The connection at start-up: not available.
    pub fn new() -> (bluetooth: Self)
        ensures
            bluetooth.state() == ConnectionState::NotAvailable,
    {
        Bluetooth { state: ConnectionState::NotAvailable }
    }

    /// The state of the connection.
    pub fn get_state(&self) -> (state: &ConnectionState)
        ensures
            *state == self.state(),
            *state == ConnectionState::NotAvailable,
    {
        &self.state
    }
}

} // verus!
