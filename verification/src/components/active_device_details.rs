//! The page that shows the device a connection is being made to.

use vstd::prelude::*;

verus! {

/// What the details page is told.
#[derive(Debug, PartialEq, Eq)]
pub enum ActiveDeviceDetailsInput {
    SetName(String),
    SetConnected,
    ConnectionFailed,
}

/// What the details page asks of the dialog around it.
#[derive(Debug, Clone, Copy, PartialEq, Eq, Structural)]
pub enum ActiveDeviceDetailsOutput {
    CloseDialog,
    GoBack,
}

/// What the details page does about a message, besides changing itself.
#[derive(Debug, Clone, Copy, PartialEq, Eq, Structural)]
pub enum DetailsEffect {
    /// Nothing.
    Nothing,
    /// The connection stands: its services are to be discovered.
    DiscoverGattProfiles,
    /// Hand this to the dialog.
    Output(ActiveDeviceDetailsOutput),
}

/// The details page's model.
#[derive(Debug, PartialEq, Eq)]
pub struct ActiveDeviceDetails {
    pub name: Option<String>,
    pub connected: bool,
}

impl ActiveDeviceDetails {
    /// The page before any device was chosen.
    pub fn new() -> (page: Self)
        ensures
            page.name is None,
            !page.connected,
    {
        ActiveDeviceDetails { name: None, connected: false }
    }

    /// Takes a message in.
    pub fn update(&mut self, message: ActiveDeviceDetailsInput) -> (effect: DetailsEffect)
        ensures
            match message {
                ActiveDeviceDetailsInput::SetName(name) => {
                    &&& final(self).name == Some(name)
                    &&& final(self).connected == old(self).connected
                    &&& effect == DetailsEffect::Nothing
                },
                ActiveDeviceDetailsInput::SetConnected => {
                    &&& final(self).name == old(self).name
                    &&& final(self).connected
                    &&& effect == DetailsEffect::DiscoverGattProfiles
                },
                ActiveDeviceDetailsInput::ConnectionFailed => {
                    &&& final(self).name == old(self).name
                    &&& !final(self).connected
                    &&& effect == DetailsEffect::Output(ActiveDeviceDetailsOutput::GoBack)
                },
            },
    {
        match message {
            ActiveDeviceDetailsInput::SetName(name) => {
                self.name = Some(name);
                DetailsEffect::Nothing
            },
            ActiveDeviceDetailsInput::SetConnected => {
                self.connected = true;
                DetailsEffect::DiscoverGattProfiles
            },
            ActiveDeviceDetailsInput::ConnectionFailed => {
                self.connected = false;
                DetailsEffect::Output(ActiveDeviceDetailsOutput::GoBack)
            },
        }
    }
}

} // verus!
