//! The session with a connected device.

use crate::address::Address;
use crate::bluetooth_error::DeviceConnectionError;
use vstd::prelude::*;

verus! {

/// A live connection: the device it leads to, and the name it was given
/// when the connection was made. One exists from a successful connect until
/// the disconnect that ends it.
#[derive(Debug, PartialEq, Eq)]
pub struct ConnectedDevice {
    pub address: Address,
    pub name: String,
}

/// What ending a session asks of the caller.
#[derive(Debug, Clone, Copy, PartialEq, Eq)]
pub enum Disconnect {
    /// Nothing is left to do; the session ended, or it could not be ended.
    Finished(Result<(), ()>),
    /// The device is connected: the backend has to be told to disconnect,
    /// and its answer handed to [`ConnectedDevice::disconnected`].
    Issue,
}

/// What ending a session asks for, given what the backend says of the
/// connection: a disconnect is issued only for a device that reads as
/// connected, and one that reads as not connected is done with at once.
pub open spec fn disconnect_of<E>(connected: Result<bool, E>) -> Disconnect {
    match connected {
        Ok(true) => Disconnect::Issue,
        Ok(false) => Disconnect::Finished(Ok(())),
        Err(_) => Disconnect::Finished(Err(())),
    }
}

impl ConnectedDevice {
    pub fn new(address: Address, name: String) -> (session: Self)
        ensures
            session.address == address,
            session.name == name,
    {
        Self { address, name }
    }

    /// First step of ending the session. `connected` is the backend's
    /// answer to whether the device is connected now.
    pub fn disconnect<E>(&self, connected: Result<bool, E>) -> (step: Disconnect)
        ensures
            step == disconnect_of(connected),
    {
        match connected {
            Ok(true) => Disconnect::Issue,
            Ok(false) => Disconnect::Finished(Ok(())),
            Err(_) => Disconnect::Finished(Err(())),
        }
    }

    /// Last step of ending the session: `outcome` is the backend's answer
    /// to the disconnect that was issued. Whatever reason the backend gave
    /// for a failure is not passed on.
    pub fn disconnected<E>(&self, outcome: Result<(), E>) -> (ended: Result<(), ()>)
        ensures
            ended is Ok <==> outcome is Ok,
    {
        match outcome {
            Ok(_) => Ok(()),
            Err(_) => Err(()),
        }
    }

    /// The identifiers of the services that the device exposes, from the
    /// backend's enumeration of them. A device that exposes no list has no
    /// services; a failed enumeration stays a failure, with its reason.
    pub fn get_gatt_services(
        &self,
        uuids: Result<Option<Vec<String>>, DeviceConnectionError>,
    ) -> (services: Result<Vec<String>, DeviceConnectionError>)
        ensures
            uuids matches Ok(Some(found)) ==> services == Ok::<Vec<String>, DeviceConnectionError>(
                found,
            ),
            uuids matches Ok(None) ==> services is Ok && services->Ok_0@ == Seq::<String>::empty(),
            uuids matches Err(reason) ==> services == Err::<Vec<String>, DeviceConnectionError>(
                reason,
            ),
    {
        match uuids {
            Ok(Some(services)) => Ok(services),
            Ok(None) => Ok(Vec::new()),
            Err(reason) => Err(reason),
        }
    }
}

/// Ending a session whose device already reads as not connected succeeds,
/// and no disconnect is issued for it.
pub proof fn disconnect_is_idempotent<E>()
    ensures
        disconnect_of::<E>(Ok(false)) == Disconnect::Finished(Ok(())),
        forall|connected: Result<bool, E>|
            disconnect_of(connected) == Disconnect::Issue <==> connected == Ok::<bool, E>(true),
{
}

} // verus!
