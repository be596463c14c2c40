//! The errors this library reports.

use vstd::prelude::*;

verus! {

/// Why the Bluetooth service could not be used.
#[derive(Debug, Clone, Copy, PartialEq, Eq, Structural)]
pub enum BluetoothError {
    /// No session with the platform's Bluetooth service: the bus is
    /// unavailable.
    NoBluez,
    /// The bus answers, but no adapter is known on it.
    NoAdapter,
    /// Discovery could not be started or stopped.
    ScanFailed,
}

impl BluetoothError {
    /// The text of the error.
    pub open spec fn message(self) -> Seq<char> {
        match self {
            BluetoothError::NoBluez => "Could not init bluez session"@,
            BluetoothError::NoAdapter => "Could not find any bluetooth adapters"@,
            BluetoothError::ScanFailed => "Could not scan for bluetooth devices"@,
        }
    }

    /// The error as text.
    pub fn to_string(&self) -> (text: String)
        ensures
            text@ == self.message(),
    {
        match self {
            BluetoothError::NoBluez => "Could not init bluez session".to_string(),
            BluetoothError::NoAdapter => "Could not find any bluetooth adapters".to_string(),
            BluetoothError::ScanFailed => "Could not scan for bluetooth devices".to_string(),
        }
    }
}

/// The reason a backend gave for refusing a step of a connection, in words.
#[derive(Debug, PartialEq, Eq)]
pub struct DeviceConnectionError {
    message: String,
}

impl View for DeviceConnectionError {
    type V = Seq<char>;

    closed spec fn view(&self) -> Seq<char> {
        self.message@
    }
}

impl DeviceConnectionError {
    pub fn new(message: String) -> (error: Self)
        ensures
            error@ == message@,
    {
        Self { message }
    }

    /// The reason as text.
    pub fn to_string(&self) -> (text: String)
        ensures
            text@ == self@,
    {
        self.message.clone()
    }
}

/// The step at which a connect attempt ended.
#[derive(Debug, Clone, Copy, PartialEq, Eq, Structural)]
pub enum ConnectFailure {
    /// The address is not known to the bus.
    DeviceResolutionFailed,
    /// The pairing state could not be read, or pairing was refused.
    PairingFailed,
    /// The trust flag could not be read or set.
    TrustFailed,
    /// The connection state could not be read, or connecting was refused.
    ConnectFailed,
    /// The backend reported a connection, and the device still reads as not
    /// connected.
    ConnectionNotConfirmed,
    /// The device has no name to show, or its name could not be read.
    NoDeviceName,
}

/// A failed connect attempt: where it ended, and the reason in words. Every
/// such failure ends the attempt; nothing is tried again.
#[derive(Debug, PartialEq, Eq)]
pub enum ConnectError {
    DeviceResolutionFailed(DeviceConnectionError),
    PairingFailed(DeviceConnectionError),
    TrustFailed(DeviceConnectionError),
    ConnectFailed(DeviceConnectionError),
    ConnectionNotConfirmed(DeviceConnectionError),
    NoDeviceName(DeviceConnectionError),
}

impl ConnectError {
    /// The step at which the attempt ended.
    pub open spec fn failure(self) -> ConnectFailure {
        match self {
            ConnectError::DeviceResolutionFailed(_) => ConnectFailure::DeviceResolutionFailed,
            ConnectError::PairingFailed(_) => ConnectFailure::PairingFailed,
            ConnectError::TrustFailed(_) => ConnectFailure::TrustFailed,
            ConnectError::ConnectFailed(_) => ConnectFailure::ConnectFailed,
            ConnectError::ConnectionNotConfirmed(_) => ConnectFailure::ConnectionNotConfirmed,
            ConnectError::NoDeviceName(_) => ConnectFailure::NoDeviceName,
        }
    }

    /// The reason that the error carries.
    pub open spec fn reason(self) -> DeviceConnectionError {
        match self {
            ConnectError::DeviceResolutionFailed(reason) => reason,
            ConnectError::PairingFailed(reason) => reason,
            ConnectError::TrustFailed(reason) => reason,
            ConnectError::ConnectFailed(reason) => reason,
            ConnectError::ConnectionNotConfirmed(reason) => reason,
            ConnectError::NoDeviceName(reason) => reason,
        }
    }

    /// The error made of a step and a reason.
    pub open spec fn of(failure: ConnectFailure, reason: DeviceConnectionError) -> ConnectError {
        match failure {
            ConnectFailure::DeviceResolutionFailed => ConnectError::DeviceResolutionFailed(reason),
            ConnectFailure::PairingFailed => ConnectError::PairingFailed(reason),
            ConnectFailure::TrustFailed => ConnectError::TrustFailed(reason),
            ConnectFailure::ConnectFailed => ConnectError::ConnectFailed(reason),
            ConnectFailure::ConnectionNotConfirmed => ConnectError::ConnectionNotConfirmed(reason),
            ConnectFailure::NoDeviceName => ConnectError::NoDeviceName(reason),
        }
    }

    pub fn new(failure: ConnectFailure, reason: DeviceConnectionError) -> (error: Self)
        ensures
            error == Self::of(failure, reason),
            error.failure() == failure,
            error.reason() == reason,
    {
        match failure {
            ConnectFailure::DeviceResolutionFailed => ConnectError::DeviceResolutionFailed(reason),
            ConnectFailure::PairingFailed => ConnectError::PairingFailed(reason),
            ConnectFailure::TrustFailed => ConnectError::TrustFailed(reason),
            ConnectFailure::ConnectFailed => ConnectError::ConnectFailed(reason),
            ConnectFailure::ConnectionNotConfirmed => ConnectError::ConnectionNotConfirmed(reason),
            ConnectFailure::NoDeviceName => ConnectError::NoDeviceName(reason),
        }
    }

    /// The step at which the attempt ended.
    pub fn kind(&self) -> (failure: ConnectFailure)
        ensures
            failure == self.failure(),
    {
        match self {
            ConnectError::DeviceResolutionFailed(_) => ConnectFailure::DeviceResolutionFailed,
            ConnectError::PairingFailed(_) => ConnectFailure::PairingFailed,
            ConnectError::TrustFailed(_) => ConnectFailure::TrustFailed,
            ConnectError::ConnectFailed(_) => ConnectFailure::ConnectFailed,
            ConnectError::ConnectionNotConfirmed(_) => ConnectFailure::ConnectionNotConfirmed,
            ConnectError::NoDeviceName(_) => ConnectFailure::NoDeviceName,
        }
    }

    /// The reason as text.
    pub fn to_string(&self) -> (text: String)
        ensures
            text@ == self.reason()@,
    {
        match self {
            ConnectError::DeviceResolutionFailed(reason) => reason.to_string(),
            ConnectError::PairingFailed(reason) => reason.to_string(),
            ConnectError::TrustFailed(reason) => reason.to_string(),
            ConnectError::ConnectFailed(reason) => reason.to_string(),
            ConnectError::ConnectionNotConfirmed(reason) => reason.to_string(),
            ConnectError::NoDeviceName(reason) => reason.to_string(),
        }
    }
}

} // verus!
