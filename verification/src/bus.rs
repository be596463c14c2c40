//! What the objects on the bus say: which of them are adapters, which are
//! devices, and what a device's properties amount to.
//!
//! The values here are plain copies of what the caller read off the bus.

use crate::address::address_in;
use crate::address::address_of_path;
use crate::address::Address;
use crate::bluetooth_status::status_of_power;
use crate::bluetooth_status::BluetoothStatus;
use crate::device::snapshot_of;
use crate::device::Device;
use crate::device::DeviceReadings;
use vstd::prelude::*;

verus! {

/// The name under which the platform's Bluetooth service is on the bus.
pub const BLUEZ_BUS_NAME: &'static str = "org.bluez";

/// The interface of an adapter object.
pub const ADAPTER_INTERFACE: &'static str = "org.bluez.Adapter1";

/// The interface of a device object.
pub const DEVICE_INTERFACE: &'static str = "org.bluez.Device1";

/// The interface through which properties are read and watched.
pub const PROPERTIES_INTERFACE: &'static str = "org.freedesktop.DBus.Properties";

/// The interface of the object that knows all others.
pub const OBJECT_MANAGER_INTERFACE: &'static str = "org.freedesktop.DBus.ObjectManager";

/// The signal that tells of changed properties.
pub const PROPERTIES_CHANGED: &'static str = "PropertiesChanged";

/// The signal that tells of an object that appeared.
pub const INTERFACES_ADDED: &'static str = "InterfacesAdded";

/// The signal that tells of an object that left.
pub const INTERFACES_REMOVED: &'static str = "InterfacesRemoved";

/// The path of the object that knows all others.
pub const ROOT_PATH: &'static str = "/";

/// The value of a property, as far as this library reads it.
#[derive(Debug, PartialEq, Eq)]
pub enum PropertyValue {
    Bool(bool),
    Int16(i16),
    Text(String),
    /// A value of any other type.
    Other,
}

/// A property of an object on the bus.
#[derive(Debug, PartialEq, Eq)]
pub struct Property {
    pub name: String,
    pub value: PropertyValue,
}

/// An interface of an object on the bus, with its properties.
#[derive(Debug, PartialEq, Eq)]
pub struct Interface {
    pub name: String,
    pub properties: Vec<Property>,
}

/// An object on the bus: the path it is at, and its interfaces.
#[derive(Debug, PartialEq, Eq)]
pub struct ManagedObject {
    pub path: String,
    pub interfaces: Vec<Interface>,
}

/// The place of the first of `names` that is `name`, looking from `from`
/// on.
pub open spec fn first_named(names: Seq<Seq<char>>, name: Seq<char>, from: int) -> Option<int>
    decreases names.len() - from,
{
    if from < 0 || from >= names.len() {
        None
    } else if names[from] == name {
        Some(from)
    } else {
        first_named(names, name, from + 1)
    }
}

/// What looking a name up finds: the first place that holds the name, and
/// nothing exactly where no place holds it.
pub proof fn first_named_is_the_first(names: Seq<Seq<char>>, name: Seq<char>, from: int)
    requires
        0 <= from,
    ensures
        first_named(names, name, from) is None <==> forall|i: int|
            from <= i < names.len() ==> #[trigger] names[i] != name,
        first_named(names, name, from) matches Some(i) ==> {
            &&& from <= i < names.len()
            &&& names[i] == name
            &&& forall|j: int| from <= j < i ==> #[trigger] names[j] != name
        },
    decreases names.len() - from,
{
    if from < names.len() && names[from] != name {
        first_named_is_the_first(names, name, from + 1);
        if first_named(names, name, from) is None {
            assert forall|i: int| from <= i < names.len() implies #[trigger] names[i] != name by {
                if i > from {
                }
            }
        } else {
            let i = first_named(names, name, from)->0;
            assert forall|j: int| from <= j < i implies #[trigger] names[j] != name by {
                if j > from {
                }
            }
        }
    }
}

/// The names of the properties, in their order.
pub open spec fn property_names(properties: Seq<Property>) -> Seq<Seq<char>> {
    properties.map_values(|property: Property| property.name@)
}

/// The names of the interfaces, in their order.
pub open spec fn interface_names(interfaces: Seq<Interface>) -> Seq<Seq<char>> {
    interfaces.map_values(|interface: Interface| interface.name@)
}

/// The value of the property named `name`: of the first, should several
/// carry the name.
pub open spec fn lookup(properties: Seq<Property>, name: Seq<char>) -> Option<PropertyValue> {
    match first_named(property_names(properties), name, 0) {
        Some(i) => Some(properties[i].value),
        None => None,
    }
}

/// The interface named `name`: the first, should several carry the name.
pub open spec fn interface_named(interfaces: Seq<Interface>, name: Seq<char>) -> Option<
    Interface,
> {
    match first_named(interface_names(interfaces), name, 0) {
        Some(i) => Some(interfaces[i]),
        None => None,
    }
}

/// The text that a property holds, if it holds one.
pub open spec fn text_in(value: Option<PropertyValue>) -> Option<String> {
    match value {
        Some(PropertyValue::Text(text)) => Some(text),
        _ => None,
    }
}

/// The flag that a property holds, if it holds one.
pub open spec fn flag_in(value: Option<PropertyValue>) -> Option<bool> {
    match value {
        Some(PropertyValue::Bool(flag)) => Some(flag),
        _ => None,
    }
}

/// The signal strength that a property holds, if it holds one.
pub open spec fn level_in(value: Option<PropertyValue>) -> Option<i16> {
    match value {
        Some(PropertyValue::Int16(level)) => Some(level),
        _ => None,
    }
}

/// What a device's properties say of it. A property that is missing, or
/// whose value has another type than expected, counts as unreadable.
pub open spec fn readings_of(data: Seq<Property>) -> DeviceReadings {
    DeviceReadings {
        name: text_in(lookup(data, "Name"@)),
        paired: flag_in(lookup(data, "Paired"@)),
        connected: flag_in(lookup(data, "Connected"@)),
        rssi: level_in(lookup(data, "RSSI"@)),
    }
}

/// The address of the device that an object stands for: the one that the
/// object's path names or, where the path names none, the one that the
/// device's `Address` property spells.
pub open spec fn address_of_object(path: Seq<char>, data: Seq<Property>) -> Option<Address> {
    match address_of_path(path) {
        Some(address) => Some(address),
        None => match text_in(lookup(data, "Address"@)) {
            Some(text) => address_in(text@, ':'),
            None => None,
        },
    }
}

/// The device that an object on the bus stands for, if it stands for one
/// that can be reported: it has the device interface, the device has a
/// name, and the bus tells its address. A device is known by its address,
/// so one without could not be found again.
pub open spec fn device_of(object: ManagedObject) -> Option<Device> {
    match interface_named(object.interfaces@, DEVICE_INTERFACE@) {
        Some(interface) => match address_of_object(object.path@, interface.properties@) {
            Some(address) => snapshot_of(address, readings_of(interface.properties@)),
            None => None,
        },
        None => None,
    }
}

/// Every device with a name is reported: an object stands for a device
/// that can be reported exactly where it has the device interface, the
/// interface holds a name, and the path or the `Address` property tells the
/// device's address. The device is then reported under that address and
/// that name.
pub proof fn named_devices_are_reported(object: ManagedObject)
    ensures
        device_of(object) is Some <==> {
            &&& interface_named(object.interfaces@, DEVICE_INTERFACE@) matches Some(interface)
            &&& text_in(lookup(interface.properties@, "Name"@)) is Some
            &&& address_of_object(object.path@, interface.properties@) is Some
        },
        device_of(object) matches Some(device) ==> {
            &&& interface_named(object.interfaces@, DEVICE_INTERFACE@) matches Some(interface)
            &&& Some(device.address) == address_of_object(object.path@, interface.properties@)
            &&& Some(device.name) == text_in(lookup(interface.properties@, "Name"@))
        },
{
}

/// The path of an object, if the object is an adapter.
pub open spec fn adapter_of(object: ManagedObject) -> Option<String> {
    if interface_named(object.interfaces@, ADAPTER_INTERFACE@) is Some {
        Some(object.path)
    } else {
        None
    }
}

/// The new power state that a change of properties tells of, if it tells of
/// one: changes of other properties say nothing about power.
pub open spec fn power_in(changed: Seq<Property>) -> Option<bool> {
    flag_in(lookup(changed, "Powered"@))
}

/// The adapter state that a change of properties tells of, if any.
pub open spec fn status_in(changed: Seq<Property>) -> Option<BluetoothStatus> {
    match power_in(changed) {
        Some(powered) => Some(status_of_power(powered)),
        None => None,
    }
}

/// The device that an object's leaving takes away, if any: the device that
/// the object's path names, if the device interface is among those that
/// left.
pub open spec fn removed_of(path: Seq<char>, interfaces: Seq<String>) -> Option<Address> {
    if exists|i: int|
        0 <= i < interfaces.len() && (#[trigger] interfaces[i])@ == DEVICE_INTERFACE@ {
        address_of_path(path)
    } else {
        None
    }
}

/// Looks the property named `name` up.
pub fn find_property<'a>(properties: &'a Vec<Property>, name: &str) -> (found: Option<
    &'a PropertyValue,
>)
    ensures
        match found {
            Some(value) => lookup(properties@, name@) == Some(*value),
            None => lookup(properties@, name@) is None,
        },
{
    let ghost names = property_names(properties@);
    let wanted = name.to_owned();
    let mut i: usize = 0;
    while i < properties.len()
        invariant
            0 <= i <= properties.len(),
            wanted@ == name@,
            names == property_names(properties@),
            first_named(names, name@, 0) == first_named(names, name@, i as int),
        decreases properties.len() - i,
    {
        if properties[i].name == wanted {
            return Some(&properties[i].value);
        }
        i += 1;
    }
    None
}

/// Looks the interface named `name` up.
pub fn find_interface<'a>(interfaces: &'a Vec<Interface>, name: &str) -> (found: Option<
    &'a Interface,
>)
    ensures
        match found {
            Some(interface) => interface_named(interfaces@, name@) == Some(*interface),
            None => interface_named(interfaces@, name@) is None,
        },
{
    let ghost names = interface_names(interfaces@);
    let wanted = name.to_owned();
    let mut i: usize = 0;
    while i < interfaces.len()
        invariant
            0 <= i <= interfaces.len(),
            wanted@ == name@,
            names == interface_names(interfaces@),
            first_named(names, name@, 0) == first_named(names, name@, i as int),
        decreases interfaces.len() - i,
    {
        if interfaces[i].name == wanted {
            return Some(&interfaces[i]);
        }
        i += 1;
    }
    None
}

/// The text of the property named `name`, if the property holds one.
pub fn read_text(properties: &Vec<Property>, name: &str) -> (text: Option<String>)
    ensures
        text == text_in(lookup(properties@, name@)),
{
    match find_property(properties, name) {
        Some(PropertyValue::Text(text)) => Some(text.clone()),
        _ => None,
    }
}

/// The flag of the property named `name`, if the property holds one.
pub fn read_flag(properties: &Vec<Property>, name: &str) -> (flag: Option<bool>)
    ensures
        flag == flag_in(lookup(properties@, name@)),
{
    match find_property(properties, name) {
        Some(PropertyValue::Bool(flag)) => Some(*flag),
        _ => None,
    }
}

/// The signal strength of the property named `name`, if the property holds
/// one.
pub fn read_level(properties: &Vec<Property>, name: &str) -> (level: Option<i16>)
    ensures
        level == level_in(lookup(properties@, name@)),
{
    match find_property(properties, name) {
        Some(PropertyValue::Int16(level)) => Some(*level),
        _ => None,
    }
}

} // verus!
